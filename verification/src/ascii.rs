//! The fixed-capacity ASCII string produced by the lossy conversion.

use vstd::prelude::*;

verus! {

/// True when the byte is in the ASCII range and kept as-is by the lossy
/// conversion.
pub open spec fn is_ascii_byte(b: u8) -> bool {
    b < 0x80
}

/// The character a byte becomes under the lossy conversion: its ASCII
/// character when it is in the ASCII range, and `~` otherwise.
pub open spec fn lossy_char(b: u8) -> char {
    if is_ascii_byte(b) {
        b as char
    } else {
        '~'
    }
}

/// The lossy ASCII conversion of a byte sequence: one character per byte,
/// in order.
pub open spec fn ascii_lossy(bytes: Seq<u8>) -> Seq<char> {
    bytes.map_values(|b: u8| lossy_char(b))
}

/// An owned text value of fixed capacity `N`, holding at most `N`
/// characters, all of them in the ASCII range.
pub struct AsciiString<const N: usize> {
    text: String,
}

impl<const N: usize> View for AsciiString<N> {
    type V = Seq<char>;

    closed spec fn view(&self) -> Seq<char> {
        self.text@
    }
}

impl<const N: usize> AsciiString<N> {
    /// The string's invariant: it never holds more characters than its
    /// capacity.
    pub open spec fn wf(&self) -> bool {
        self@.len() <= N
    }

    /// Creates an empty string.
    pub fn new() -> (r: Self)
        ensures
            r@ == Seq::<char>::empty(),
            r.wf(),
    {
        AsciiString { text: String::new() }
    }

    /// Appends the lossy character for one byte. The caller guarantees the
    /// room, so this never fails.
    pub(crate) fn push_lossy(&mut self, b: u8)
        requires
            old(self).wf(),
            old(self)@.len() < N,
        ensures
            final(self).wf(),
            final(self)@ == old(self)@.push(lossy_char(b)),
    {
        if b < 0x80 {
            push_char(&mut self.text, b as char);
        } else {
            push_char(&mut self.text, '~');
        }
    }

    /// Borrows the contents as text.
    pub fn as_str(&self) -> (r: &str)
        ensures
            r@ == self@,
    {
        self.text.as_str()
    }
}

/// Relies on alloc's String::push: it appends the given character at the
/// end of the string.
#[verifier::external_body]
fn push_char(s: &mut String, c: char)
    ensures
        final(s)@ == old(s)@.push(c),
{
    s.push(c);
}

} // verus!
