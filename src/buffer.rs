//! Capacity bookkeeping of a device-memory buffer that grows on overflow.
use vstd::prelude::*;

verus! {

/// Every buffer capacity is a multiple of this many bytes.
pub const BUFFER_ALIGNMENT: u64 = 256;

/// `VK_BUFFER_USAGE_UNIFORM_BUFFER_BIT`.
pub const USAGE_UNIFORM_BUFFER: u32 = 0x10;

/// `VK_BUFFER_USAGE_INDEX_BUFFER_BIT`.
pub const USAGE_INDEX_BUFFER: u32 = 0x40;

/// `VK_BUFFER_USAGE_VERTEX_BUFFER_BIT`.
pub const USAGE_VERTEX_BUFFER: u32 = 0x80;

/// Where the memory of a buffer lives, as the device-memory allocator sees it.
#[derive(Clone, Copy, Debug, PartialEq, Eq, Structural)]
pub enum MemoryLocation {
    Unknown,
    GpuOnly,
    CpuToGpu,
    GpuToCpu,
}

/// Why a buffer size could not be worked out.
#[derive(Clone, Copy, Debug, PartialEq, Eq, Structural)]
pub enum BufferError {
    /// The byte size of the request, or its aligned capacity, does not fit in 64 bits.
    SizeOverflow,
}

/// The smallest multiple of the alignment that is at least `n`.
pub open spec fn align_up(n: int) -> int {
    if n % 256 == 0 {
        n
    } else {
        n + (256 - n % 256)
    }
}

/// Whether an aligned capacity for `n` bytes fits in a `u64`.
pub open spec fn fits_aligned(n: int) -> bool {
    align_up(n) <= u64::MAX
}

/// `align_up(n)` is aligned and lies in `[n, n + 256)`, so no smaller
/// aligned size covers `n`.
pub proof fn lemma_align_up(n: int)
    requires
        n >= 0,
    ensures
        align_up(n) % 256 == 0,
        n <= align_up(n) < n + 256,
{
}

/// Rounds `n` up to the buffer alignment; `None` where that exceeds `u64`.
pub fn aligned_size(n: u64) -> (r: Option<u64>)
    ensures
        r matches Some(c) <==> fits_aligned(n as int),
        r matches Some(c) ==> c == align_up(n as int),
{
    let rem = n % BUFFER_ALIGNMENT;
    if rem == 0 {
        Some(n)
    } else if n > u64::MAX - (BUFFER_ALIGNMENT - rem) {
        None
    } else {
        Some(n + (BUFFER_ALIGNMENT - rem))
    }
}

/// Number of bytes that `len` records of `T` occupy.
pub open spec fn payload_bytes<T>(len: int) -> int {
    len * (size_of::<T>() as int)
}

/// Byte size of a slice of `T`; `None` where it does not fit in a `u64`.
pub fn byte_size<T>(data: &[T]) -> (r: Option<u64>)
    ensures
        r matches Some(b) <==> payload_bytes::<T>(data@.len() as int) <= u64::MAX,
        r matches Some(b) ==> b == payload_bytes::<T>(data@.len() as int),
{
    let elem = core::mem::size_of::<T>() as u64;
    let len = data.len() as u64;
    if elem != 0 && len > u64::MAX / elem {
        proof {
            assert(len * elem > u64::MAX) by (nonlinear_arith)
                requires
                    elem > 0,
                    len > u64::MAX / elem,
            ;
        }
        None
    } else {
        proof {
            assert(len * elem <= u64::MAX) by (nonlinear_arith)
                requires
                    elem == 0 || len <= u64::MAX / elem,
            ;
        }
        Some(len * elem)
    }
}

/// The bookkeeping of one device-memory buffer: its usage, where its memory
/// lives, its capacity and the size of the payload written last.
pub struct Buffer {
    /// Capacity in bytes.
    pub size: u64,
    /// Usage bits the buffer was created with.
    pub usage: u32,
    pub location: MemoryLocation,
    /// Bytes of the payload written last.
    pub written: u64,
}

impl Buffer {
    /// The capacity is aligned and holds the last payload.
    pub open spec fn wf(&self) -> bool {
        &&& self.size % 256 == 0
        &&& self.written <= self.size
    }

    /// A buffer able to hold `size` bytes, with nothing written yet.
    pub fn create(size: u64, usage: u32, location: MemoryLocation) -> (r: Result<Buffer, BufferError>)
        ensures
            r is Ok <==> fits_aligned(size as int),
            r matches Ok(b) ==> {
                &&& b.wf()
                &&& b.size == align_up(size as int)
                &&& b.usage == usage
                &&& b.location == location
                &&& b.written == 0
            },
            r matches Err(e) ==> e == BufferError::SizeOverflow,
    {
        proof {
            lemma_align_up(size as int);
        }
        match aligned_size(size) {
            Some(capacity) => Ok(Buffer { size: capacity, usage, location, written: 0 }),
            None => Err(BufferError::SizeOverflow),
        }
    }

    /// Records a write of `data`, growing the buffer first where it does not fit.
    ///
    /// Growth targets the smallest aligned size that holds the payload and
    /// drops the old contents; the caller re-supplies the whole payload.
    /// Returns whether the buffer had to be reallocated.
    pub fn copy_memory<T>(&mut self, data: &[T]) -> (r: Result<bool, BufferError>)
        requires
            old(self).wf(),
        ensures
            final(self).wf(),
            r is Ok <==> payload_bytes::<T>(data@.len() as int) <= u64::MAX && (payload_bytes::<T>(
                data@.len() as int,
            ) <= old(self).size || fits_aligned(payload_bytes::<T>(data@.len() as int))),
            r matches Ok(grown) ==> {
                let bytes = payload_bytes::<T>(data@.len() as int);
                &&& grown == (bytes > old(self).size)
                &&& final(self).size == if grown {
                    align_up(bytes)
                } else {
                    old(self).size as int
                }
                &&& final(self).written == bytes
            },
            r is Ok ==> final(self).size >= payload_bytes::<T>(data@.len() as int) && final(self).size
                >= old(self).size,
            r matches Err(e) ==> e == BufferError::SizeOverflow && *final(self) == *old(self),
            final(self).usage == old(self).usage,
            final(self).location == old(self).location,
    {
        let required = match byte_size(data) {
            Some(b) => b,
            None => return Err(BufferError::SizeOverflow),
        };
        proof {
            lemma_align_up(required as int);
        }
        let grown = required > self.size;
        if grown {
            match aligned_size(required) {
                Some(capacity) => {
                    self.size = capacity;
                },
                None => return Err(BufferError::SizeOverflow),
            }
        }
        self.written = required;
        Ok(grown)
    }
}

} // verus!
