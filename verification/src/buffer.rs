//! The fixed-capacity byte buffer and its write and read-back operations.

use vstd::prelude::*;
use vstd::utf8::{decode_utf8, encode_utf8, valid_utf8};

use crate::ascii::{ascii_lossy, lossy_char, AsciiString};

verus! {

/// Bytes kept when constructing from `source` into a buffer of capacity
/// `cap`: the whole source when it fits, otherwise its first `cap` bytes.
pub open spec fn spec_truncate(source: Seq<u8>, cap: int) -> Seq<u8> {
    if source.len() <= cap {
        source
    } else {
        source.take(cap)
    }
}

/// An append of `fragment` to a buffer holding `content` fits exactly when
/// the whole fragment has room under the capacity `cap`.
pub open spec fn append_fits(content: Seq<u8>, fragment: Seq<u8>, cap: int) -> bool {
    content.len() + fragment.len() <= cap
}

/// Contents after an all-or-nothing append: the fragment is appended whole
/// when it fits, and the buffer is untouched otherwise.
pub open spec fn spec_append(content: Seq<u8>, fragment: Seq<u8>, cap: int) -> Seq<u8> {
    if append_fits(content, fragment, cap) {
        content + fragment
    } else {
        content
    }
}

/// Contents after resizing to `new_len`: truncated when shrinking, padded
/// with zero bytes when growing.
pub open spec fn spec_resize(content: Seq<u8>, new_len: int) -> Seq<u8> {
    if new_len <= content.len() {
        content.take(new_len)
    } else {
        content + Seq::new((new_len - content.len()) as nat, |i: int| 0u8)
    }
}

/// An owned byte buffer of fixed capacity `N`.
///
/// The buffer never holds more than `N` bytes. Appends are checked against
/// the remaining space and rejected whole on overflow; construction from a
/// byte source instead truncates silently.
#[derive(Debug)]
pub struct WriteBuf<const N: usize> {
    buffer: Vec<u8>,
}

impl<const N: usize> View for WriteBuf<N> {
    type V = Seq<u8>;

    closed spec fn view(&self) -> Seq<u8> {
        self.buffer@
    }
}

impl<const N: usize> WriteBuf<N> {
    /// The buffer's invariant: it never holds more bytes than its capacity.
    pub open spec fn wf(&self) -> bool {
        self@.len() <= N
    }

    /// Creates an empty buffer.
    pub fn new() -> (r: Self)
        ensures
            r@ == Seq::<u8>::empty(),
            r.wf(),
    {
        WriteBuf { buffer: Vec::new() }
    }

    /// Copies at most `N` bytes from the start of `source`; any excess is
    /// dropped without error.
    pub fn from_slice(source: &[u8]) -> (r: Self)
        ensures
            r@ == spec_truncate(source@, N as int),
            source@.len() <= N ==> r@ == source@,
            source@.len() > N ==> r@ == source@.take(N as int),
            r.wf(),
    {
        let keep = if source.len() <= N {
            source.len()
        } else {
            N
        };
        let mut buffer: Vec<u8> = Vec::new();
        let mut i: usize = 0;
        while i < keep
            invariant
                i <= keep,
                keep <= N,
                keep <= source@.len(),
                source@.len() <= N ==> keep == source@.len(),
                source@.len() > N ==> keep == N,
                buffer@ == source@.take(i as int),
            decreases keep - i,
        {
            let b = source[i];
            buffer.push(b);
            proof {
                assert(source@.take(i + 1) =~= source@.take(i as int).push(source@[i as int]));
            }
            i += 1;
        }
        proof {
            if source@.len() <= N {
                assert(source@.take(keep as int) =~= source@);
            }
        }
        WriteBuf { buffer }
    }

    /// Copies at most `N` bytes of the UTF-8 encoding of `source`; any
    /// excess is dropped without error.
    pub fn from_str(source: &str) -> (r: Self)
        ensures
            r@ == spec_truncate(encode_utf8(source@), N as int),
            r.wf(),
    {
        Self::from_slice(source.as_bytes())
    }

    /// Current number of bytes held.
    pub fn len(&self) -> (r: usize)
        ensures
            r == self@.len(),
    {
        self.buffer.len()
    }

    /// The fixed capacity `N`.
    pub fn capacity(&self) -> (r: usize)
        ensures
            r == N,
    {
        N
    }

    /// True when the buffer holds no bytes.
    pub fn is_empty(&self) -> (r: bool)
        ensures
            r == (self@.len() == 0),
    {
        self.buffer.len() == 0
    }

    /// True when no more bytes can be appended.
    pub fn is_full(&self) -> (r: bool)
        requires
            self.wf(),
        ensures
            r == (self@.len() == N),
    {
        self.buffer.len() == N
    }

    /// Read-only view of the bytes currently held.
    pub fn as_bytes(&self) -> (r: &[u8])
        ensures
            r@ == self@,
    {
        self.buffer.as_slice()
    }

    /// Appends a single byte, failing without change when the buffer is
    /// full.
    pub fn push(&mut self, b: u8) -> (r: Result<(), ()>)
        requires
            old(self).wf(),
        ensures
            final(self).wf(),
            r is Ok <==> old(self)@.len() < N,
            final(self)@ == spec_append(old(self)@, seq![b], N as int),
    {
        if self.buffer.len() < N {
            self.buffer.push(b);
            proof {
                assert(self@ =~= old(self)@ + seq![b]);
            }
            Ok(())
        } else {
            Err(())
        }
    }

    /// Appends a whole fragment of raw bytes, or fails without change when
    /// the fragment does not fit in the remaining space.
    pub fn extend_from_slice(&mut self, fragment: &[u8]) -> (r: Result<(), ()>)
        requires
            old(self).wf(),
        ensures
            final(self).wf(),
            r is Ok <==> append_fits(old(self)@, fragment@, N as int),
            final(self)@ == spec_append(old(self)@, fragment@, N as int),
    {
        if fragment.len() <= N - self.buffer.len() {
            let mut i: usize = 0;
            while i < fragment.len()
                invariant
                    i <= fragment@.len(),
                    old(self)@.len() + fragment@.len() <= N,
                    self.buffer@ == old(self)@ + fragment@.take(i as int),
                decreases fragment@.len() - i,
            {
                let b = fragment[i];
                self.buffer.push(b);
                proof {
                    assert(old(self)@ + fragment@.take(i + 1) =~= (old(self)@
                        + fragment@.take(i as int)).push(fragment@[i as int]));
                }
                i += 1;
            }
            proof {
                assert(fragment@.take(fragment@.len() as int) =~= fragment@);
            }
            Ok(())
        } else {
            Err(())
        }
    }

    /// Appends the UTF-8 encoding of a text fragment, or fails without
    /// change when it does not fit in the remaining space.
    pub fn write_str(&mut self, fragment: &str) -> (r: Result<(), ()>)
        requires
            old(self).wf(),
        ensures
            final(self).wf(),
            r is Ok <==> append_fits(old(self)@, encode_utf8(fragment@), N as int),
            final(self)@ == spec_append(old(self)@, encode_utf8(fragment@), N as int),
    {
        self.extend_from_slice(fragment.as_bytes())
    }

    /// Resizes to `new_len` bytes, truncating or padding with zero bytes,
    /// and fails without change when `new_len` exceeds the capacity.
    pub fn resize_default(&mut self, new_len: usize) -> (r: Result<(), ()>)
        requires
            old(self).wf(),
        ensures
            final(self).wf(),
            r is Ok <==> new_len <= N,
            r is Ok ==> final(self)@ == spec_resize(old(self)@, new_len as int),
            r is Err ==> final(self)@ == old(self)@,
    {
        if new_len <= N {
            if new_len <= self.buffer.len() {
                self.buffer.truncate(new_len);
                proof {
                    assert(self@ =~= spec_resize(old(self)@, new_len as int));
                }
            } else {
                let mut i: usize = self.buffer.len();
                while i < new_len
                    invariant
                        old(self)@.len() <= i <= new_len,
                        new_len <= N,
                        self.buffer@ == spec_resize(old(self)@, i as int),
                    decreases new_len - i,
                {
                    self.buffer.push(0u8);
                    proof {
                        assert(self@ =~= spec_resize(old(self)@, i + 1));
                    }
                    i += 1;
                }
            }
            Ok(())
        } else {
            Err(())
        }
    }

    /// Overwrites the byte at `index`, failing without change when `index`
    /// is outside the bytes currently held.
    pub fn set_byte(&mut self, index: usize, b: u8) -> (r: Result<(), ()>)
        requires
            old(self).wf(),
        ensures
            final(self).wf(),
            r is Ok <==> index < old(self)@.len(),
            r is Ok ==> final(self)@ == old(self)@.update(index as int, b),
            r is Err ==> final(self)@ == old(self)@,
    {
        if index < self.buffer.len() {
            self.buffer[index] = b;
            Ok(())
        } else {
            Err(())
        }
    }

    /// Consumes the buffer and converts it byte by byte into an ASCII
    /// string of the same capacity: bytes in the ASCII range keep their
    /// character, every other byte becomes `~`. This conversion is total
    /// and preserves the length, so the output never overflows.
    pub fn into_ascii_lossy(self) -> (r: AsciiString<N>)
        requires
            self.wf(),
        ensures
            r@ == ascii_lossy(self@),
            r@.len() == self@.len(),
            r.wf(),
    {
        let mut out = AsciiString::<N>::new();
        let mut i: usize = 0;
        while i < self.buffer.len()
            invariant
                i <= self@.len(),
                self@.len() <= N,
                out@ == ascii_lossy(self@.take(i as int)),
            decreases self@.len() - i,
        {
            let b = self.buffer[i];
            out.push_lossy(b);
            proof {
                assert(ascii_lossy(self@.take(i + 1)) =~= ascii_lossy(self@.take(i as int)).push(
                    lossy_char(self@[i as int])));
            }
            i += 1;
        }
        proof {
            assert(self@.take(self@.len() as int) =~= self@);
        }
        out
    }

    /// Borrows the contents as validated UTF-8 text, or fails when the
    /// bytes are not valid UTF-8. The buffer is not changed either way.
    pub fn to_str(&self) -> (r: Result<&str, ()>)
        ensures
            r is Ok <==> valid_utf8(self@),
            r is Ok ==> r->Ok_0@ == decode_utf8(self@),
            r is Ok ==> encode_utf8(r->Ok_0@) == self@,
    {
        let r = utf8_from_bytes(self.buffer.as_slice());
        proof {
            if valid_utf8(self@) {
                vstd::utf8::decode_utf8_encode_utf8(self@);
            }
        }
        r
    }
}

/// Relies on core::str::from_utf8: it returns `Ok` exactly when the bytes
/// are a valid UTF-8 encoding, and the returned text is their decoding.
#[verifier::external_body]
fn utf8_from_bytes(bytes: &[u8]) -> (r: Result<&str, ()>)
    ensures
        r is Ok <==> valid_utf8(bytes@),
        r is Ok ==> r->Ok_0@ == decode_utf8(bytes@),
{
    core::str::from_utf8(bytes).map_err(|_e| ())
}

impl<const N: usize> Clone for WriteBuf<N> {
    /// A clone holds the same bytes.
    fn clone(&self) -> (r: Self)
        ensures
            r@ == self@,
    {
        let mut buffer: Vec<u8> = Vec::new();
        let mut i: usize = 0;
        while i < self.buffer.len()
            invariant
                i <= self.buffer@.len(),
                buffer@ == self.buffer@.take(i as int),
            decreases self.buffer@.len() - i,
        {
            let b = self.buffer[i];
            buffer.push(b);
            proof {
                assert(self.buffer@.take(i + 1) =~= self.buffer@.take(i as int).push(
                    self.buffer@[i as int]));
            }
            i += 1;
        }
        proof {
            assert(self.buffer@.take(self.buffer@.len() as int) =~= self.buffer@);
        }
        WriteBuf { buffer }
    }
}

impl<const N: usize> Default for WriteBuf<N> {
    /// An empty buffer.
    fn default() -> (r: Self)
        ensures
            r@ == Seq::<u8>::empty(),
            r.wf(),
    {
        Self::new()
    }
}

} // verus!
