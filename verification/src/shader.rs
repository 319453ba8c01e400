//! Shader code: the words of a SPIR-V module, decoded from its bytes.
use vstd::prelude::*;

verus! {

/// The first word of every SPIR-V module.
pub const SPIRV_MAGIC: u32 = 0x0723_0203;

/// Word `i` of `bytes`, read with its least significant byte first.
pub open spec fn le_word(bytes: Seq<u8>, i: int) -> int {
    bytes[4 * i] + 0x100 * bytes[4 * i + 1] + 0x1_0000 * bytes[4 * i + 2] + 0x100_0000 * bytes[4
        * i + 3]
}

/// Word `i` of `bytes`, read with its most significant byte first.
pub open spec fn be_word(bytes: Seq<u8>, i: int) -> int {
    bytes[4 * i + 3] + 0x100 * bytes[4 * i + 2] + 0x1_0000 * bytes[4 * i + 1] + 0x100_0000 * bytes[4
        * i]
}

/// `bytes` are a SPIR-V module in either byte order: whole words, the first of
/// which is the magic number.
pub open spec fn is_spirv(bytes: Seq<u8>) -> bool {
    &&& bytes.len() % 4 == 0
    &&& bytes.len() >= 4
    &&& (le_word(bytes, 0) == SPIRV_MAGIC || be_word(bytes, 0) == SPIRV_MAGIC)
}

/// Word `i` of a SPIR-V module, in the byte order that its magic number shows.
pub open spec fn spirv_word(bytes: Seq<u8>, i: int) -> int {
    if le_word(bytes, 0) == SPIRV_MAGIC {
        le_word(bytes, i)
    } else {
        be_word(bytes, i)
    }
}

/// Calls `ash::util::read_spv` on the bytes, through an in-memory cursor, and
/// keeps the words or drops the error. Claimed of it, as its source shows: it
/// fails when the length is not a multiple of four or the first word is not
/// the magic number in either byte order; otherwise each word is read in the
/// byte order in which the magic number appears, whatever the host's.
#[verifier::external_body]
fn read_spv_words(bytes: &[u8]) -> (words: Option<Vec<u32>>)
    ensures
        words is Some <==> is_spirv(bytes@),
        words matches Some(w) ==> w@.len() == bytes@.len() / 4 && forall|i: int|
            0 <= i < w@.len() ==> #[trigger] w@[i] == spirv_word(bytes@, i),
{
    ash::util::read_spv(&mut std::io::Cursor::new(bytes)).ok()
}

/// The words of the SPIR-V module in `bytes`, or `None` where `bytes` are not one.
pub fn shader_code_from_bytes(bytes: &[u8]) -> (words: Option<Vec<u32>>)
    ensures
        words is Some <==> is_spirv(bytes@),
        words matches Some(w) ==> w@.len() == bytes@.len() / 4 && w@[0] == SPIRV_MAGIC && forall|
            i: int,
        | 0 <= i < w@.len() ==> #[trigger] w@[i] == spirv_word(bytes@, i),
{
    let words = read_spv_words(bytes);
    proof {
        if words is Some {
            assert(words->0@[0] == spirv_word(bytes@, 0));
        }
    }
    words
}

} // verus!
