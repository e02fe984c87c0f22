//! Clipboard text validation and semantic normalization.
use vstd::prelude::*;

use crate::config::{P1Config, TabPolicy};
use crate::limits::{SemanticElementCount, SemanticElementLimit};
use crate::sensitive::SensitiveText;
use crate::text::TextAtom;
use crate::textual::{chars_of, decimal, push_decimal};

verus! {

/// Content-free normalization failure.
#[derive(Debug, Clone, Copy, PartialEq, Eq, Structural)]
pub enum NormalizationError {
    Empty,
    UnsupportedControl { scalar_index: usize },
    TabRejected { scalar_index: usize },
    PayloadTooLarge { limit: SemanticElementLimit },
}

/// Unicode general category Cc (`char::is_control`): U+0000..=U+001F and
/// U+007F..=U+009F.
pub open spec fn is_control_char(c: char) -> bool {
    (c as u32) <= 0x1F || (0x7F <= (c as u32) && (c as u32) <= 0x9F)
}

#[verifier::when_used_as_spec(is_control_char)]
pub fn is_control(c: char) -> (r: bool)
    ensures
        r == is_control_char(c),
{
    let v = c as u32;
    v <= 0x1F || (0x7F <= v && v <= 0x9F)
}

/// Number of source characters in the semantic element at the front of `s`:
/// a CR LF pair counts as one element, every other character as one.
pub open spec fn element_width(s: Seq<char>) -> int {
    if s.len() >= 2 && s[0] == '\r' && s[1] == '\n' {
        2
    } else {
        1
    }
}

/// The semantic elements of `s` (whose first character sits at `offset` in the
/// whole text): each element's leading character and its character index.
pub open spec fn elements_from(s: Seq<char>, offset: int) -> Seq<(char, int)>
    decreases s.len(),
{
    if s.len() == 0 {
        seq![]
    } else {
        seq![(s[0], offset)] + elements_from(s.skip(element_width(s)), offset + element_width(s))
    }
}

/// The semantic elements of a whole text.
pub open spec fn elements(s: Seq<char>) -> Seq<(char, int)> {
    elements_from(s, 0)
}

/// The atom for one element, or why the element is refused.
pub open spec fn classify(c: char, index: int, tab: TabPolicy) -> Result<TextAtom, NormalizationError> {
    if c == '\r' || c == '\n' {
        Ok(TextAtom::LineBreak)
    } else if c == '\t' {
        match tab {
            TabPolicy::Allow => Ok(TextAtom::Tab),
            TabPolicy::Reject => Err(NormalizationError::TabRejected { scalar_index: index as usize }),
        }
    } else if is_control_char(c) {
        Err(NormalizationError::UnsupportedControl { scalar_index: index as usize })
    } else {
        Ok(TextAtom::Scalar(c))
    }
}

/// Prefixes a successful result with `prefix`; failures pass through.
pub open spec fn prepend(prefix: Seq<TextAtom>, r: Result<Seq<TextAtom>, NormalizationError>) -> Result<Seq<TextAtom>, NormalizationError> {
    match r {
        Ok(rest) => Ok(prefix + rest),
        Err(e) => Err(e),
    }
}

/// Classifies elements in order: the first refused element wins, and the
/// element after the first `room` accepted ones overflows `limit`.
pub open spec fn normalize_elements(
    els: Seq<(char, int)>,
    tab: TabPolicy,
    limit: SemanticElementLimit,
    room: nat,
) -> Result<Seq<TextAtom>, NormalizationError>
    decreases els.len(),
{
    if els.len() == 0 {
        Ok(seq![])
    } else {
        match classify(els[0].0, els[0].1, tab) {
            Err(e) => Err(e),
            Ok(atom) => if room == 0 {
                Err(NormalizationError::PayloadTooLarge { limit })
            } else {
                prepend(seq![atom], normalize_elements(els.drop_first(), tab, limit, (room - 1) as nat))
            },
        }
    }
}

/// P1 semantic normalization of a whole text.
pub open spec fn spec_normalize(s: Seq<char>, config: P1Config) -> Result<Seq<TextAtom>, NormalizationError> {
    if s.len() == 0 {
        Err(NormalizationError::Empty)
    } else {
        normalize_elements(
            elements(s),
            config.tab_policy,
            config.total_payload_limit,
            config.total_payload_limit.spec_get() as nat,
        )
    }
}

/// Owned normalized semantic text with a redacted diagnostic representation.
#[derive(PartialEq, Eq)]
pub struct NormalizedText {
    atoms: Vec<TextAtom>,
}

impl View for NormalizedText {
    type V = Seq<TextAtom>;

    closed spec fn view(&self) -> Seq<TextAtom> {
        self.atoms@
    }
}

/// Whether any atom carries a scalar.
pub open spec fn has_scalar(atoms: Seq<TextAtom>) -> bool {
    exists|i: int| 0 <= i < atoms.len() && atoms[i] is Scalar
}

impl NormalizedText {
    pub fn atoms(&self) -> (r: &[TextAtom])
        ensures
            r@ == self@,
    {
        self.atoms.as_slice()
    }

    pub fn len(&self) -> (r: usize)
        ensures
            r == self@.len(),
    {
        self.atoms.len()
    }

    pub fn is_empty(&self) -> (r: bool)
        ensures
            r == (self@.len() == 0),
    {
        self.atoms.len() == 0
    }

    pub fn element_count(&self) -> (r: SemanticElementCount)
        ensures
            r == SemanticElementCount::spec_new(self@.len() as usize),
    {
        SemanticElementCount::new(self.atoms.len())
    }

    pub fn contains_scalar(&self) -> (r: bool)
        ensures
            r == has_scalar(self@),
    {
        let mut i: usize = 0;
        while i < self.atoms.len()
            invariant
                i <= self@.len(),
                forall|j: int| 0 <= j < i ==> !(#[trigger] self@[j] is Scalar),
            decreases self@.len() - i,
        {
            if let TextAtom::Scalar(_) = self.atoms[i] {
                return true;
            }
            i = i + 1;
        }
        false
    }

    pub fn contains_line_break(&self) -> (r: bool)
        ensures
            r == self@.contains(TextAtom::LineBreak),
    {
        let mut i: usize = 0;
        while i < self.atoms.len()
            invariant
                i <= self@.len(),
                forall|j: int| 0 <= j < i ==> #[trigger] self@[j] != TextAtom::LineBreak,
            decreases self@.len() - i,
        {
            if self.atoms[i] == TextAtom::LineBreak {
                return true;
            }
            i = i + 1;
        }
        false
    }

    pub fn contains_tab(&self) -> (r: bool)
        ensures
            r == self@.contains(TextAtom::Tab),
    {
        let mut i: usize = 0;
        while i < self.atoms.len()
            invariant
                i <= self@.len(),
                forall|j: int| 0 <= j < i ==> #[trigger] self@[j] != TextAtom::Tab,
            decreases self@.len() - i,
        {
            if self.atoms[i] == TextAtom::Tab {
                return true;
            }
            i = i + 1;
        }
        false
    }

    /// Content-free diagnostic text: the element count with the content redacted.
    pub fn debug_text(&self) -> (r: String)
        ensures
            r@ == "NormalizedText { elements: "@ + decimal(self@.len())
                + ", content: \"[REDACTED]\" }"@,
    {
        let mut s = "NormalizedText { elements: ".to_owned();
        push_decimal(&mut s, self.atoms.len() as u64);
        s.append(", content: \"[REDACTED]\" }");
        s
    }
}

/// Converts clipboard text to P1 semantic atoms without changing Unicode
/// normalization form or reordering combining marks.
pub fn normalize_text(text: SensitiveText, config: P1Config) -> (r: Result<NormalizedText, NormalizationError>)
    ensures
        match (r, spec_normalize(text@, config)) {
            (Ok(n), Ok(atoms)) => n@ == atoms,
            (Err(e1), Err(e2)) => e1 == e2,
            _ => false,
        },
{
    let chars = chars_of(text.expose());
    if chars.len() == 0 {
        return Err(NormalizationError::Empty);
    }
    let ghost s = chars@;
    let limit = config.total_payload_limit;
    let tab = config.tab_policy;
    let mut atoms: Vec<TextAtom> = Vec::new();
    let mut i: usize = 0;
    assert(s.skip(0) =~= s);
    while i < chars.len()
        invariant
            s == chars@,
            s == text@,
            s.len() > 0,
            i <= s.len(),
            atoms@.len() <= limit.spec_get(),
            limit == config.total_payload_limit,
            tab == config.tab_policy,
            spec_normalize(s, config) == prepend(
                atoms@,
                normalize_elements(
                    elements_from(s.skip(i as int), i as int),
                    tab,
                    limit,
                    (limit.spec_get() - atoms@.len()) as nat,
                ),
            ),
        decreases s.len() - i,
    {
        let ghost rest = s.skip(i as int);
        let value = chars[i];
        let mut width: usize = 1;
        let atom: TextAtom;
        if value == '\r' {
            if i + 1 < chars.len() && chars[i + 1] == '\n' {
                width = 2;
            }
            atom = TextAtom::LineBreak;
        } else if value == '\n' {
            atom = TextAtom::LineBreak;
        } else if value == '\t' {
            match tab {
                TabPolicy::Allow => {
                    atom = TextAtom::Tab;
                },
                TabPolicy::Reject => {
                    return Err(NormalizationError::TabRejected { scalar_index: i });
                },
            }
        } else if is_control(value) {
            return Err(NormalizationError::UnsupportedControl { scalar_index: i });
        } else {
            atom = TextAtom::Scalar(value);
        }
        assert(rest[0] == value);
        assert(width == element_width(rest));
        assert(rest.skip(element_width(rest)) =~= s.skip(i + width));
        proof {
            let els = elements_from(rest, i as int);
            assert(els[0] == (value, i as int));
            assert(els.drop_first() =~= elements_from(s.skip(i + width), i + width));
        }
        assert(classify(value, i as int, tab) == Ok::<TextAtom, NormalizationError>(atom));
        if atoms.len() >= limit.get() {
            return Err(NormalizationError::PayloadTooLarge { limit });
        }
        let ghost before = atoms@;
        atoms.push(atom);
        i = i + width;
        assert(before + seq![atom] =~= atoms@);
        proof {
            let tail = normalize_elements(
                elements_from(s.skip(i as int), i as int),
                tab,
                limit,
                (limit.spec_get() - atoms@.len()) as nat,
            );
            match tail {
                Ok(t) => {
                    assert(before + (seq![atom] + t) =~= atoms@ + t);
                },
                Err(_) => {},
            }
        }
    }
    assert(s.skip(i as int) =~= Seq::<char>::empty());
    assert(atoms@ + Seq::<TextAtom>::empty() =~= atoms@);
    Ok(NormalizedText { atoms })
}


// ---------------------------------------------------------------------------
// Line endings.
// ---------------------------------------------------------------------------

/// The text with every line feed written as CR LF.
pub open spec fn with_crlf(s: Seq<char>) -> Seq<char>
    decreases s.len(),
{
    if s.len() == 0 {
        seq![]
    } else if s[0] == '\n' {
        seq!['\r', '\n'] + with_crlf(s.drop_first())
    } else {
        seq![s[0]] + with_crlf(s.drop_first())
    }
}

/// Whether the text holds no CR LF pair.
pub open spec fn has_no_crlf(s: Seq<char>) -> bool {
    forall|i: int| 0 <= i < s.len() - 1 ==> !(#[trigger] s[i] == '\r' && s[i + 1] == '\n')
}

pub proof fn lemma_crlf_front(s: Seq<char>)
    requires
        s.len() > 0,
    ensures
        with_crlf(s).len() > 0,
        with_crlf(s)[0] != '\n',
        with_crlf(s)[0] == (if s[0] == '\n' { '\r' } else { s[0] }),
{
}

/// Writing line feeds as CR LF changes no element but a line feed, which
/// becomes a CR LF element led by its carriage return.
pub proof fn lemma_crlf_elements(s: Seq<char>, o1: int, o2: int)
    requires
        has_no_crlf(s),
    ensures
        elements_from(with_crlf(s), o2).len() == elements_from(s, o1).len(),
        forall|i: int|
            0 <= i < elements_from(s, o1).len() ==> (#[trigger] elements_from(with_crlf(s), o2)[i]).0 == (
            if elements_from(s, o1)[i].0 == '\n' {
                '\r'
            } else {
                elements_from(s, o1)[i].0
            }),
    decreases s.len(),
{
    if s.len() > 0 {
        let rest = s.drop_first();
        assert(has_no_crlf(rest)) by {
            assert forall|i: int| 0 <= i < rest.len() - 1 implies !(#[trigger] rest[i] == '\r' && rest[i + 1]
                == '\n') by {
                assert(rest[i] == s[i + 1] && rest[i + 1] == s[i + 2]);
            }
        }
        let t = with_crlf(s);
        assert(element_width(s) == 1);
        assert(s.skip(1) =~= rest);
        if s[0] == '\n' {
            assert(t == seq!['\r', '\n'] + with_crlf(rest));
            assert(element_width(t) == 2);
            assert(t.skip(2) =~= with_crlf(rest));
            lemma_crlf_elements(rest, o1 + 1, o2 + 2);
        } else {
            assert(t == seq![s[0]] + with_crlf(rest));
            if rest.len() > 0 {
                lemma_crlf_front(rest);
                assert(t[1] == with_crlf(rest)[0]);
            }
            assert(element_width(t) == 1);
            assert(t.skip(1) =~= with_crlf(rest));
            lemma_crlf_elements(rest, o1 + 1, o2 + 1);
        }
        let e1 = elements_from(s, o1);
        let e2 = elements_from(t, o2);
        assert forall|i: int| 0 <= i < e1.len() implies (#[trigger] e2[i]).0 == (if e1[i].0 == '\n' {
            '\r'
        } else {
            e1[i].0
        }) by {
            if i > 0 {
                assert(e1[i] == elements_from(rest, o1 + 1)[i - 1]);
            }
        }
    }
}

/// Two element lists that differ only in their indices and in line feeds led
/// by a carriage return normalize alike.
proof fn lemma_alike_elements_normalize_alike(
    e1: Seq<(char, int)>,
    e2: Seq<(char, int)>,
    tab: crate::config::TabPolicy,
    limit: SemanticElementLimit,
    room: nat,
)
    requires
        e1.len() == e2.len(),
        forall|i: int| 0 <= i < e1.len() ==> (#[trigger] e2[i]).0 == (if e1[i].0 == '\n' { '\r' } else { e1[i].0 }),
    ensures
        normalize_elements(e1, tab, limit, room) is Ok == normalize_elements(e2, tab, limit, room) is Ok,
        normalize_elements(e1, tab, limit, room) is Ok ==> normalize_elements(e1, tab, limit, room)
            == normalize_elements(e2, tab, limit, room),
    decreases e1.len(),
{
    if e1.len() > 0 {
        assert(e2[0].0 == (if e1[0].0 == '\n' { '\r' } else { e1[0].0 }));
        if room > 0 {
            lemma_alike_elements_normalize_alike(e1.drop_first(), e2.drop_first(), tab, limit, (room - 1) as nat);
        }
    }
}

/// Writing line feeds as CR LF leaves normalization unchanged: the same text
/// is accepted, as the same atoms, and the same text is refused.
pub proof fn law_line_endings_normalize_alike(s: Seq<char>, config: P1Config)
    requires
        has_no_crlf(s),
    ensures
        spec_normalize(s, config) is Ok == spec_normalize(with_crlf(s), config) is Ok,
        spec_normalize(s, config) is Ok ==> spec_normalize(s, config) == spec_normalize(with_crlf(s), config),
{
    lemma_crlf_elements(s, 0, 0);
    if s.len() > 0 {
        lemma_crlf_front(s);
    }
    lemma_alike_elements_normalize_alike(
        elements(s),
        elements(with_crlf(s)),
        config.tab_policy,
        config.total_payload_limit,
        config.total_payload_limit.spec_get() as nat,
    );
}

} // verus!
