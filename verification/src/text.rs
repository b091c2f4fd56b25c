//! Fixed-capacity text buffers.
//!
//! The controller runs without a heap, so every piece of text it carries
//! (labels, text-entry buffers, the subscriber identifier) lives in a buffer
//! of fixed capacity. Writing past the capacity truncates silently; nothing
//! here panics.

use vstd::prelude::*;

verus! {

/// A bounded byte string: up to `N` bytes of content in a fixed array.
///
/// The view of a buffer is the sequence of its first `len` bytes; the spare
/// tail of the array carries no meaning.
#[derive(Clone, Copy, Debug, PartialEq, Eq)]
pub struct TextBuffer<const N: usize> {
    bytes: [u8; N],
    len: usize,
}

impl<const N: usize> View for TextBuffer<N> {
    type V = Seq<u8>;

    closed spec fn view(&self) -> Seq<u8> {
        self.bytes@.take(self.len as int)
    }
}

impl<const N: usize> TextBuffer<N> {
    /// The capacity bound every buffer obeys: its content never exceeds `N`.
    pub closed spec fn wf(&self) -> bool {
        self.len <= N
    }

    /// A well-formed buffer holds at most `N` bytes.
    pub proof fn lemma_len_bounded(&self)
        requires
            self.wf(),
        ensures
            self@.len() <= N,
    {
    }

    /// The empty buffer.
    pub fn empty() -> (r: Self)
        ensures
            r.wf(),
            r@ == Seq::<u8>::empty(),
    {
        let r = TextBuffer { bytes: [0u8; N], len: 0 };
        proof {
            assert(r@ =~= Seq::<u8>::empty());
        }
        r
    }

    /// Builds a buffer from a byte slice, silently truncating to capacity.
    pub fn from_bytes(s: &[u8]) -> (r: Self)
        ensures
            r.wf(),
            r@ == s@.take(if s@.len() <= N { s@.len() as int } else { N as int }),
    {
        let mut bytes: [u8; N] = [0u8; N];
        let n: usize = if s.len() <= N {
            s.len()
        } else {
            N
        };
        let mut i: usize = 0;
        while i < n
            invariant
                i <= n,
                n <= N,
                n <= s@.len(),
                bytes@.len() == N,
                forall|j: int| 0 <= j < i ==> bytes@[j] == s@[j],
            decreases n - i,
        {
            bytes[i] = s[i];
            i += 1;
        }
        let r = TextBuffer { bytes, len: n };
        proof {
            assert(r@ =~= s@.take(n as int));
        }
        r
    }

    /// Number of content bytes.
    pub fn len(&self) -> (r: usize)
        requires
            self.wf(),
        ensures
            r == self@.len(),
    {
        self.len
    }

    /// The content byte at position `i`.
    pub fn byte_at(&self, i: usize) -> (r: u8)
        requires
            self.wf(),
            i < self@.len(),
        ensures
            r == self@[i as int],
    {
        self.bytes[i]
    }

    /// Appends one byte; a full buffer is left unchanged (silent truncation).
    pub fn push(&mut self, b: u8)
        requires
            old(self).wf(),
        ensures
            final(self).wf(),
            old(self)@.len() < N ==> final(self)@ == old(self)@.push(b),
            old(self)@.len() >= N ==> final(self)@ == old(self)@,
    {
        if self.len < N {
            self.bytes[self.len] = b;
            self.len = self.len + 1;
            proof {
                assert(self@ =~= old(self)@.push(b));
            }
        }
    }

    /// Removes the last byte; an empty buffer is left unchanged.
    pub fn pop(&mut self)
        requires
            old(self).wf(),
        ensures
            final(self).wf(),
            old(self)@.len() > 0 ==> final(self)@ == old(self)@.drop_last(),
            old(self)@.len() == 0 ==> final(self)@ == old(self)@,
    {
        if self.len > 0 {
            self.len = self.len - 1;
            proof {
                assert(self@ =~= old(self)@.drop_last());
            }
        }
    }
}

} // verus!
