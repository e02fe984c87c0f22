//! Native-neutral semantic text contracts.
use vstd::prelude::*;

use crate::limits::{DispatchBatchLimit, SemanticElementCount};
use crate::textual::push_decimal;

verus! {

/// One validated semantic input element.
///
/// `Scalar` stores a Unicode scalar value. The type deliberately has no
/// `Debug` implementation; `debug_text` gives a redacted diagnostic instead.
#[derive(Clone, Copy, PartialEq, Eq, Hash, Structural)]
pub enum TextAtom {
    Scalar(char),
    LineBreak,
    Tab,
}

impl TextAtom {
    pub fn scalar(value: char) -> (r: Self)
        ensures
            r == TextAtom::Scalar(value),
    {
        TextAtom::Scalar(value)
    }

    /// The scalar carried by the atom, if any.
    pub open spec fn spec_exposed_scalar(self) -> Option<char> {
        match self {
            TextAtom::Scalar(value) => Some(value),
            _ => None,
        }
    }

    #[verifier::when_used_as_spec(spec_exposed_scalar)]
    pub fn exposed_scalar(self) -> (r: Option<char>)
        ensures
            r == self.spec_exposed_scalar(),
    {
        match self {
            TextAtom::Scalar(value) => Some(value),
            TextAtom::LineBreak | TextAtom::Tab => None,
        }
    }

    /// Content-free diagnostic text: the variant name, with any scalar redacted.
    pub fn debug_text(self) -> (r: String)
        ensures
            r@ == match self {
                TextAtom::Scalar(_) => "Scalar([REDACTED])"@,
                TextAtom::LineBreak => "LineBreak"@,
                TextAtom::Tab => "Tab"@,
            },
    {
        match self {
            TextAtom::Scalar(_) => "Scalar([REDACTED])".to_owned(),
            TextAtom::LineBreak => "LineBreak".to_owned(),
            TextAtom::Tab => "Tab".to_owned(),
        }
    }
}

#[derive(Debug, Clone, Copy, PartialEq, Eq, Structural)]
pub enum TextBatchError {
    Empty,
    ExceedsDispatchLimit { elements: SemanticElementCount, limit: DispatchBatchLimit },
}

/// A non-empty borrowed semantic batch whose size is already bounded.
#[derive(Clone, Copy, PartialEq, Eq)]
pub struct TextBatch<'a> {
    atoms: &'a [TextAtom],
}

impl<'a> View for TextBatch<'a> {
    type V = Seq<TextAtom>;

    closed spec fn view(&self) -> Seq<TextAtom> {
        self.atoms@
    }
}

impl<'a> TextBatch<'a> {
    /// Accepts a batch exactly when it is non-empty and within the dispatch limit.
    pub fn new(atoms: &'a [TextAtom], limit: DispatchBatchLimit) -> (r: Result<Self, TextBatchError>)
        ensures
            atoms@.len() == 0 ==> r == Err::<Self, TextBatchError>(TextBatchError::Empty),
            atoms@.len() > limit.spec_get() ==> r == Err::<Self, TextBatchError>(
                TextBatchError::ExceedsDispatchLimit {
                    elements: SemanticElementCount::spec_new(atoms@.len() as usize),
                    limit,
                },
            ),
            0 < atoms@.len() <= limit.spec_get() ==> (r matches Ok(batch) && batch@ == atoms@),
    {
        if atoms.len() == 0 {
            return Err(TextBatchError::Empty);
        }
        let elements = SemanticElementCount::new(atoms.len());
        if !limit.allows(elements) {
            return Err(TextBatchError::ExceedsDispatchLimit { elements, limit });
        }
        Ok(TextBatch { atoms })
    }

    pub fn atoms(self) -> (r: &'a [TextAtom])
        ensures
            r@ == self@,
    {
        self.atoms
    }

    pub fn len(self) -> (r: usize)
        ensures
            r == self@.len(),
    {
        self.atoms.len()
    }

    pub fn is_empty(self) -> (r: bool)
        ensures
            r == (self@.len() == 0),
    {
        self.atoms.len() == 0
    }

    /// Content-free diagnostic text: the element count with the content redacted.
    pub fn debug_text(self) -> (r: String)
        ensures
            r@ == "TextBatch { elements: "@ + crate::textual::decimal(self@.len())
                + ", content: \"[REDACTED]\" }"@,
    {
        let mut s = "TextBatch { elements: ".to_owned();
        push_decimal(&mut s, self.atoms.len() as u64);
        s.append(", content: \"[REDACTED]\" }");
        s
    }
}

} // verus!
