//! Small owning and borrowing wrappers used at the host boundary.
use vstd::prelude::*;

verus! {

/// A value handed to the host as an opaque resource.
pub struct NifWrap<T>(pub T);

impl<T> NifWrap<T> {
    pub fn new(value: T) -> (r: NifWrap<T>)
        ensures
            r.0 == value,
    {
        NifWrap(value)
    }

    /// The wrapped value.
    pub fn get(&self) -> (r: &T)
        ensures
            *r == self.0,
    {
        &self.0
    }
}

/// Bytes that the host receives as a binary.
pub struct SliceIntoBinary<'a> {
    bytes: &'a [u8],
}

impl<'a> SliceIntoBinary<'a> {
    pub fn new(bytes: &'a [u8]) -> (r: SliceIntoBinary<'a>)
        ensures
            r.bytes()@ == bytes@,
    {
        SliceIntoBinary { bytes }
    }

    /// The bytes of the binary.
    pub fn as_slice(&self) -> (r: &'a [u8])
        ensures
            r@ == self.bytes()@,
    {
        self.bytes
    }

    pub closed spec fn bytes(&self) -> &'a [u8] {
        self.bytes
    }
}

} // verus!
