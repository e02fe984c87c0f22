//! Sensitive clipboard text wrapper.
use vstd::prelude::*;

use vstd::string::StringSliceAdditionalSpecFns;

use crate::textual::push_decimal;

verus! {

/// Clipboard text whose diagnostic representation is redacted.
///
/// The wrapper intentionally has no `Clone`, `Debug` or `Display`
/// implementation. Callers must explicitly opt into accessing plaintext.
/// This minimizes accidental copies and logging, but does not claim guaranteed
/// memory erasure from the process, operating system, or target application.
pub struct SensitiveText {
    value: String,
}

impl View for SensitiveText {
    type V = Seq<char>;

    closed spec fn view(&self) -> Seq<char> {
        self.value@
    }
}

impl SensitiveText {
    /// Wraps owned clipboard text.
    pub fn new(value: String) -> (r: Self)
        ensures
            r@ == value@,
    {
        SensitiveText { value }
    }

    /// The UTF-8 storage size of the wrapped text.
    pub closed spec fn spec_len_bytes(&self) -> usize {
        vstd::utf8::encode_utf8(self.value@).len() as usize
    }

    /// Exposes plaintext to the narrow code path that must process or inject it.
    pub fn expose(&self) -> (r: &str)
        ensures
            r@ == self@,
            r.spec_bytes().len() as usize == self.spec_len_bytes(),
    {
        self.value.as_str()
    }

    /// Consumes the wrapper and returns the owned plaintext.
    pub fn into_inner(self) -> (r: String)
        ensures
            r@ == self@,
    {
        self.value
    }

    /// Returns the UTF-8 storage size without exposing content.
    pub fn len_bytes(&self) -> (r: usize)
        ensures
            r == self.spec_len_bytes(),
    {
        self.value.as_str().len()
    }

    /// Returns whether the wrapped text is empty.
    pub fn is_empty(&self) -> (r: bool)
        ensures
            r == (self@.len() == 0),
    {
        self.value.as_str().is_empty()
    }

    /// Content-free diagnostic text: the UTF-8 size with the content redacted.
    pub fn debug_text(&self) -> (r: String)
        ensures
            r@ == "SensitiveText { utf8_bytes: "@ + crate::textual::decimal(self.spec_len_bytes() as nat)
                + ", content: \"[REDACTED]\" }"@,
    {
        let mut s = "SensitiveText { utf8_bytes: ".to_owned();
        push_decimal(&mut s, self.len_bytes() as u64);
        s.append(", content: \"[REDACTED]\" }");
        s
    }
}

} // verus!
