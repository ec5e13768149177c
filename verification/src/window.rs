//! Small helpers around the native overlay window: an opaque window handle
//! and the UTF-16 conversion used for native text APIs.

use vstd::prelude::*;

verus! {

/// An opaque native window handle, carried as its raw pointer value.
#[derive(Clone, Copy, Debug)]
pub struct Handle {
    hwnd: usize,
}

impl Handle {
    /// The raw pointer value this handle carries.
    pub closed spec fn raw(self) -> usize {
        self.hwnd
    }

    /// Wraps a raw native window handle value.
    pub fn from_raw(hwnd: usize) -> (h: Handle)
        ensures
            h.raw() == hwnd,
    {
        Handle { hwnd }
    }

    /// Whether this is the null handle.
    pub fn is_null(self) -> (r: bool)
        ensures
            r == (self.raw() == 0),
    {
        self.hwnd == 0
    }
}

/// The UTF-16 code units of a character sequence, in order, one or two
/// units per character.
pub uninterp spec fn utf16_units_of(s: Seq<char>) -> Seq<u16>;

/// Relies on str::encode_utf16: yields the string's UTF-16 code units in
/// order, one or two units per character, determined by the characters
/// alone.
#[verifier::external_body]
fn encode_utf16_units(text: &str) -> (r: Vec<u16>)
    ensures
        r@ == utf16_units_of(text@),
        text@.len() <= r@.len() <= 2 * text@.len(),
{
    text.encode_utf16().collect()
}

/// The text as a null-terminated UTF-16 code unit vector, as native text
/// APIs expect it.
pub fn to_unicode(text: &str) -> (r: Vec<u16>)
    ensures
        r@ == utf16_units_of(text@).push(0u16),
        r@.len() >= 1,
        r@.last() == 0u16,
{
    let mut units = encode_utf16_units(text);
    units.push(0u16);
    units
}

} // verus!
