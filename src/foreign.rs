use vstd::prelude::*;

verus! {

/// The engine's deallocation functions, one for each kind of buffer it hands out.
#[derive(Debug, Clone, Copy, PartialEq, Eq, Structural)]
pub enum FreeFn {
    PredictDurationData,
    PredictIntonationData,
    DecodeData,
    Wav,
    AudioQueryJson,
}

/// A region of `length` elements of `T` allocated by the engine, together
/// with the one function that releases it.
///
/// The region is named by its address. The type is neither `Copy` nor
/// `Clone`, so a region has one owner at a time, and `into_release` consumes
/// the owner when it hands out what is needed to free the region.
pub struct CPointerWrap<T> {
    bytes: usize,
    length: usize,
    free_fn: FreeFn,
    element: core::marker::PhantomData<T>,
}

impl<T> CPointerWrap<T> {
    pub closed spec fn spec_address(&self) -> usize {
        self.bytes
    }

    pub closed spec fn spec_len(&self) -> usize {
        self.length
    }

    pub closed spec fn spec_free_fn(&self) -> FreeFn {
        self.free_fn
    }

    /// Takes ownership of the region at `bytes`, released by `free_fn`.
    pub fn new(bytes: usize, length: usize, free_fn: FreeFn) -> (r: Self)
        ensures
            r.spec_address() == bytes,
            r.spec_len() == length,
            r.spec_free_fn() == free_fn,
    {
        CPointerWrap { bytes, length, free_fn, element: core::marker::PhantomData }
    }

    /// Address of the region.
    pub fn address(&self) -> (r: usize)
        ensures
            r == self.spec_address(),
    {
        self.bytes
    }

    /// Number of elements in the region.
    pub fn len(&self) -> (r: usize)
        ensures
            r == self.spec_len(),
    {
        self.length
    }

    /// Whether the region holds no element.
    pub fn is_empty(&self) -> (r: bool)
        ensures
            r == (self.spec_len() == 0),
    {
        self.length == 0
    }

    /// The function that releases the region.
    pub fn free_fn(&self) -> (r: FreeFn)
        ensures
            r == self.spec_free_fn(),
    {
        self.free_fn
    }

    /// Gives up ownership: the address and the function to release it with,
    /// exactly as they were paired when the region was taken.
    pub fn into_release(self) -> (r: (usize, FreeFn))
        ensures
            r == (self.spec_address(), self.spec_free_fn()),
    {
        (self.bytes, self.free_fn)
    }
}

/// A NUL-terminated UTF-8 text allocated by the engine, together with the one
/// function that releases it. Like `CPointerWrap`, it has one owner at a time.
pub struct CStrWrap {
    string: usize,
    free_fn: FreeFn,
}

impl CStrWrap {
    pub closed spec fn spec_address(&self) -> usize {
        self.string
    }

    pub closed spec fn spec_free_fn(&self) -> FreeFn {
        self.free_fn
    }

    /// Takes ownership of the text at `string`, released by `free_fn`.
    pub fn new(string: usize, free_fn: FreeFn) -> (r: Self)
        ensures
            r.spec_address() == string,
            r.spec_free_fn() == free_fn,
    {
        CStrWrap { string, free_fn }
    }

    /// Address of the text.
    pub fn address(&self) -> (r: usize)
        ensures
            r == self.spec_address(),
    {
        self.string
    }

    /// The function that releases the text.
    pub fn free_fn(&self) -> (r: FreeFn)
        ensures
            r == self.spec_free_fn(),
    {
        self.free_fn
    }

    /// Gives up ownership: the address and the function to release it with.
    pub fn into_release(self) -> (r: (usize, FreeFn))
        ensures
            r == (self.spec_address(), self.spec_free_fn()),
    {
        (self.string, self.free_fn)
    }
}

} // verus!
