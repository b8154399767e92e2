//! Host-side bookkeeping of device memory.
use vstd::prelude::*;
use crate::hip::error::{Error, Result, HIP_ERROR_INVALID_VALUE, HIP_ERROR_OUT_OF_MEMORY};

verus! {

/// Information about available and used memory on the device
#[derive(Debug, Clone, Copy)]
pub struct MemoryInfo {
    pub free: usize,
    pub total: usize,
}

/// Host data of an asynchronous copy from the device, to be read once the
/// copy has completed.
#[derive(Clone)]
pub struct PendingCopy<T> {
    inner: Vec<T>,
}

impl<T> PendingCopy<T> {
    /// Wrap the host buffer an asynchronous copy writes into.
    pub fn new(inner: Vec<T>) -> (r: Self)
        ensures
            r.spec_inner() == inner@,
    {
        Self { inner }
    }

    /// The host buffer's contents.
    pub closed spec fn spec_inner(&self) -> Seq<T> {
        self.inner@
    }

    /// The host buffer, once the copy has completed.
    pub fn synchronize(self) -> (r: Vec<T>)
        ensures
            r@ == self.spec_inner(),
    {
        self.inner
    }
}

/// Bytes of device memory for `count` elements of `element_size` bytes.
pub fn allocation_bytes(count: usize, element_size: usize) -> (r: usize)
    requires
        count * element_size <= usize::MAX,
    ensures
        r == count * element_size,
{
    count * element_size
}

/// Number of whole elements of `element_size` bytes in `size_bytes` bytes.
pub fn element_count(size_bytes: usize, element_size: usize) -> (r: usize)
    requires
        element_size > 0,
    ensures
        r == size_bytes / element_size,
{
    size_bytes / element_size
}

/// Bytes a blocking copy between a device buffer of `buffer_bytes` bytes and
/// `elements` host elements moves: whichever of the two is smaller.
pub fn copy_size(buffer_bytes: usize, elements: usize, element_size: usize) -> (r: usize)
    requires
        elements * element_size <= usize::MAX,
    ensures
        r == if buffer_bytes <= elements * element_size {
            buffer_bytes as int
        } else {
            elements * element_size
        },
{
    let host_bytes = elements * element_size;
    if buffer_bytes <= host_bytes {
        buffer_bytes
    } else {
        host_bytes
    }
}

/// `a * b`, or `usize::MAX` when the product does not fit.
pub open spec fn saturating_product(a: usize, b: usize) -> usize {
    if a * b <= usize::MAX {
        (a * b) as usize
    } else {
        usize::MAX
    }
}

/// `a * b`, saturating at `usize::MAX`.
fn saturating_mul_usize(a: usize, b: usize) -> (r: usize)
    ensures
        r == saturating_product(a, b),
{
    match a.checked_mul(b) {
        Some(p) => p,
        None => usize::MAX,
    }
}

/// Bytes an asynchronous copy of `elements` host elements into a device
/// buffer of `buffer_bytes` bytes moves; more than the buffer holds is an
/// invalid value.
pub fn upload_bytes(buffer_bytes: usize, elements: usize, element_size: usize) -> (r: Result<usize>)
    ensures
        elements == 0 ==> r == Ok::<usize, Error>(0),
        elements > 0 ==> (r is Ok <==> saturating_product(elements, element_size) <= buffer_bytes),
        elements > 0 ==> (r matches Ok(n) ==> n == saturating_product(elements, element_size)),
        r matches Err(e) ==> e@ == HIP_ERROR_INVALID_VALUE,
{
    if elements == 0 {
        return Ok(0);
    }
    let required = saturating_mul_usize(elements, element_size);
    if required > buffer_bytes {
        return Err(Error::new(HIP_ERROR_INVALID_VALUE));
    }
    Ok(required)
}

/// Bytes an asynchronous copy from a device buffer of `buffer_bytes` bytes
/// into `elements` host elements moves; more than the buffer holds is
/// reported as out of memory.
pub fn download_bytes(buffer_bytes: usize, elements: usize, element_size: usize) -> (r: Result<usize>)
    ensures
        elements == 0 ==> r == Ok::<usize, Error>(0),
        elements > 0 ==> (r is Ok <==> saturating_product(elements, element_size) <= buffer_bytes),
        elements > 0 ==> (r matches Ok(n) ==> n == saturating_product(elements, element_size)),
        r matches Err(e) ==> e@ == HIP_ERROR_OUT_OF_MEMORY,
{
    if elements == 0 {
        return Ok(0);
    }
    let required = saturating_mul_usize(elements, element_size);
    if required > buffer_bytes {
        return Err(Error::new(HIP_ERROR_OUT_OF_MEMORY));
    }
    Ok(required)
}

} // verus!
