use voxel_explore::shader::{shader_code_from_bytes, SPIRV_MAGIC};

#[test]
fn little_endian_module_decodes() {
    let bytes = [0x03, 0x02, 0x23, 0x07, 0x00, 0x00, 0x01, 0x00, 0x0a, 0x0b, 0x0c, 0x0d];
    assert_eq!(shader_code_from_bytes(&bytes), Some(vec![SPIRV_MAGIC, 0x0001_0000, 0x0d0c_0b0a]));
}

#[test]
fn big_endian_module_decodes_in_its_own_order() {
    let bytes = [0x07, 0x23, 0x02, 0x03, 0x00, 0x01, 0x00, 0x00, 0x0a, 0x0b, 0x0c, 0x0d];
    assert_eq!(shader_code_from_bytes(&bytes), Some(vec![SPIRV_MAGIC, 0x0001_0000, 0x0a0b_0c0d]));
}

#[test]
fn partial_words_are_refused() {
    assert_eq!(shader_code_from_bytes(&[0x03, 0x02, 0x23, 0x07, 0x01]), None);
}

#[test]
fn missing_magic_is_refused() {
    assert_eq!(shader_code_from_bytes(&[0x00, 0x00, 0x00, 0x00]), None);
    assert_eq!(shader_code_from_bytes(&[]), None);
}
