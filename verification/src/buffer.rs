//! What a device buffer currently holds.
use vstd::prelude::*;

verus! {

/// The number of objects last written to a device buffer, with the offsets at
/// which a draw call reads them.
pub struct DataManifest {
    len: u32,
}

impl View for DataManifest {
    type V = nat;

    /// The number of objects recorded.
    closed spec fn view(&self) -> nat {
        self.len as nat
    }
}

/// A buffer was asked to record more objects than a draw call can address.
#[derive(Debug, Clone, Copy, PartialEq, Eq, Structural)]
pub struct ManifestTooLong {
    pub requested: usize,
}

impl Default for DataManifest {
    /// An empty manifest.
    fn default() -> (m: Self)
        ensures
            m@ == 0,
    {
        DataManifest { len: 0 }
    }
}

impl DataManifest {
    /// Number of objects held.
    pub fn len(&self) -> (n: u32)
        ensures
            n as nat == self@,
    {
        self.len
    }

    /// Offset, in objects, of the first vertex a draw call reads.
    pub fn offset(&self) -> (o: i32)
        ensures
            o == 0,
    {
        0
    }

    /// The same offset, as the unsigned first index of an indexed draw.
    pub fn offset_unsigned(&self) -> (o: u32)
        ensures
            o == 0,
            o as int == self.offset_spec(),
    {
        0
    }

    /// The offset that [`DataManifest::offset`] returns.
    pub open spec fn offset_spec(&self) -> int {
        0
    }

    /// Records that `data_len` objects were written. A count that does not fit
    /// the 32 bits a draw call takes is refused and leaves the manifest as it was.
    pub fn set_len(&mut self, data_len: usize) -> (r: Result<(), ManifestTooLong>)
        ensures
            r is Ok <==> data_len <= u32::MAX,
            r is Ok ==> final(self)@ == data_len as nat,
            r matches Err(e) ==> e.requested == data_len && final(self)@ == old(self)@,
    {
        if data_len <= u32::MAX as usize {
            self.len = data_len as u32;
            Ok(())
        } else {
            Err(ManifestTooLong { requested: data_len })
        }
    }
}

/// Bytes reserved for each device-local vertex, index or staging buffer.
pub const BUFFER_DATA_BYTE_COUNT_UPPER_BOUND: u64 = 65536;

/// Bytes that one object of type `T` takes in a device buffer.
pub fn object_size<T: Copy>() -> (n: u64)
    ensures
        n as nat == vstd::layout::size_of::<T>(),
{
    core::mem::size_of::<T>() as u64
}

/// Bytes that `data` takes in a device buffer.
pub fn data_size<T: Copy>(data: &[T]) -> (n: u64)
    requires
        vstd::layout::size_of::<T>() * data@.len() <= u64::MAX,
    ensures
        n as nat == vstd::layout::size_of::<T>() * data@.len(),
{
    object_size::<T>() * (data.len() as u64)
}

} // verus!
