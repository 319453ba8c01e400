use voxel_explore::buffer::{data_size, object_size, DataManifest, ManifestTooLong, BUFFER_DATA_BYTE_COUNT_UPPER_BOUND};

#[test]
fn empty_manifest_has_no_objects_and_zero_offsets() {
    let m = DataManifest::default();
    assert_eq!(m.len(), 0);
    assert_eq!(m.offset(), 0);
    assert_eq!(m.offset_unsigned(), 0);
}

#[test]
fn recorded_length_reads_back() {
    let mut m = DataManifest::default();
    assert_eq!(m.set_len(36), Ok(()));
    assert_eq!(m.len(), 36);
    assert_eq!(m.set_len(u32::MAX as usize), Ok(()));
    assert_eq!(m.len(), u32::MAX);
}

#[test]
fn too_long_data_is_refused_and_keeps_the_manifest() {
    let mut m = DataManifest::default();
    assert_eq!(m.set_len(24), Ok(()));
    let too_long = (u32::MAX as u64 + 1) as usize;
    if too_long as u64 == u32::MAX as u64 + 1 {
        assert_eq!(m.set_len(too_long), Err(ManifestTooLong { requested: too_long }));
        assert_eq!(m.len(), 24);
    }
}

#[test]
fn object_and_data_sizes_in_bytes() {
    assert_eq!(object_size::<u16>(), 2);
    assert_eq!(object_size::<[f32; 9]>(), 36);
    assert_eq!(data_size::<u16>(&[0, 1, 2, 2, 3, 0]), 12);
    assert_eq!(data_size::<[f32; 9]>(&[[0.0; 9]; 24]), 864);
    assert_eq!(data_size::<u32>(&[]), 0);
}

#[test]
fn buffers_hold_sixty_four_kibibytes() {
    assert_eq!(BUFFER_DATA_BYTE_COUNT_UPPER_BOUND, 65536);
}
