use vstd::prelude::*;

verus! {

/// An address + length pair describing a buffer to a system call (the
/// layout of an `iovec` / `WSABUF`).
#[derive(Debug, Clone, Copy, PartialEq, Eq, Structural)]
pub struct SysSlice {
    ptr: usize,
    len: usize,
}

impl View for SysSlice {
    type V = (usize, usize);

    closed spec fn view(&self) -> (usize, usize) {
        (self.ptr, self.len)
    }
}

impl SysSlice {
    /// The null address with length 0.
    pub fn null() -> (r: Self)
        ensures
            r@ == (0usize, 0usize),
    {
        SysSlice { ptr: 0, len: 0 }
    }

    /// The slice at `ptr` of `len` bytes.
    pub fn from_parts(ptr: usize, len: usize) -> (r: Self)
        ensures
            r@ == (ptr, len),
    {
        SysSlice { ptr, len }
    }

    /// The address and length.
    pub fn into_inner(self) -> (r: (usize, usize))
        ensures
            r == self@,
    {
        (self.ptr, self.len)
    }

    /// The address.
    pub fn ptr(&self) -> (r: usize)
        ensures
            r == self@.0,
    {
        self.ptr
    }

    /// The length.
    pub fn len(&self) -> (r: usize)
        ensures
            r == self@.1,
    {
        self.len
    }
}

/// Slices that describe buffers one for one, each as long as the length
/// given for its buffer.
pub open spec fn spans(slices: Seq<SysSlice>, lens: Seq<nat>) -> bool {
    &&& slices.len() == lens.len()
    &&& forall|i: int| 0 <= i < lens.len() ==> #[trigger] slices[i]@.1 == lens[i]
}

impl Default for SysSlice {
    fn default() -> (r: Self)
        ensures
            r@ == (0usize, 0usize),
    {
        Self::null()
    }
}

} // verus!
