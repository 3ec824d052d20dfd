//! Borrowed byte slices for vectored I/O.
use vstd::prelude::*;

verus! {

/// A borrowed, read-only run of bytes.
#[derive(Copy, Clone, Debug)]
pub struct IoSlice<'a>(&'a [u8]);

impl<'a> View for IoSlice<'a> {
    type V = Seq<u8>;

    closed spec fn view(&self) -> Seq<u8> {
        self.0@
    }
}

impl<'a> IoSlice<'a> {
    pub fn new(buf: &'a [u8]) -> (s: Self)
        ensures
            s@ == buf@,
    {
        IoSlice(buf)
    }

    /// Drops the first `n` bytes from the front of the run.
    pub fn advance(&mut self, n: usize)
        requires
            n <= old(self)@.len(),
        ensures
            final(self)@ == old(self)@.skip(n as int),
    {
        self.0 = vstd::slice::slice_subrange(self.0, n, self.0.len());
    }

    pub fn as_slice(&self) -> (r: &[u8])
        ensures
            r@ == self@,
    {
        self.0
    }
}

impl<'a> core::ops::Deref for IoSlice<'a> {
    type Target = [u8];

    fn deref(&self) -> (r: &[u8])
        ensures
            r@ == self@,
    {
        self.0
    }
}

/// A borrowed, writable run of bytes.
#[derive(Debug)]
pub struct IoSliceMut<'a>(&'a mut [u8]);

impl<'a> View for IoSliceMut<'a> {
    type V = Seq<u8>;

    closed spec fn view(&self) -> Seq<u8> {
        self.0@
    }
}

impl<'a> IoSliceMut<'a> {
    pub fn new(buf: &'a mut [u8]) -> (s: Self)
        ensures
            s@ == old(buf)@,
    {
        IoSliceMut(buf)
    }
}

impl<'a> core::ops::Deref for IoSliceMut<'a> {
    type Target = [u8];

    fn deref(&self) -> (r: &[u8])
        ensures
            r@ == self@,
    {
        self.0
    }
}

impl<'a> core::ops::DerefMut for IoSliceMut<'a> {
    /// The borrowed bytes, writable; what is written through them is what the slice holds.
    fn deref_mut(&mut self) -> (r: &mut [u8])
        ensures
            r@ == old(self)@,
            final(self)@ == final(r)@,
    {
        self.0
    }
}

/// Advancing by `a` and then by `b` is advancing by `a + b`.
pub proof fn law_advance_twice(s: Seq<u8>, a: int, b: int)
    requires
        0 <= a,
        0 <= b,
        a + b <= s.len(),
    ensures
        s.skip(a).skip(b) == s.skip(a + b),
{
    assert(s.skip(a).skip(b) =~= s.skip(a + b));
}

} // verus!
