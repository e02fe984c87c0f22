//! Immutable P1 keyboard-plan construction.
use vstd::prelude::*;

use crate::config::{ConfigError, P1Config};
use crate::normalization::{
    has_scalar, normalize_text, spec_normalize, NormalizationError, NormalizedText,
};
use crate::outcome::CapabilityState;
use crate::sensitive::SensitiveText;
use crate::text::TextAtom;
use crate::textual::{decimal, push_decimal};

verus! {

#[derive(Debug, Clone, Copy, PartialEq, Eq, Structural)]
pub enum CapabilityRequirement {
    UnicodeText,
    LineBreak,
    Tab,
    CursorRight,
    ModifierObservation,
}

/// Native-neutral capability snapshot consumed by pure planning policy.
#[derive(Debug, Clone, Copy, PartialEq, Eq, Structural)]
pub struct PlanCapabilities {
    pub unicode_text: CapabilityState,
    pub line_break: CapabilityState,
    pub tab: CapabilityState,
    pub cursor_right: CapabilityState,
    pub modifier_observation: CapabilityState,
}

#[derive(Debug, Clone, Copy, PartialEq, Eq, Structural)]
pub enum PlanError {
    InvalidConfiguration(ConfigError),
    Normalization(NormalizationError),
    CapabilityUnavailable(CapabilityRequirement),
    CapabilityDegraded(CapabilityRequirement),
}

/// The refusal for a required capability that is not fully available.
pub open spec fn capability_error(state: CapabilityState, requirement: CapabilityRequirement) -> PlanError {
    match state {
        CapabilityState::Degraded => PlanError::CapabilityDegraded(requirement),
        _ => PlanError::CapabilityUnavailable(requirement),
    }
}

/// The first capability, in checking order, that normalized `atoms` need
/// but that `caps` does not fully provide. Modifier observation is always needed.
pub open spec fn missing_capability(atoms: Seq<TextAtom>, caps: PlanCapabilities) -> Option<PlanError> {
    if has_scalar(atoms) && caps.unicode_text != CapabilityState::Available {
        Some(capability_error(caps.unicode_text, CapabilityRequirement::UnicodeText))
    } else if atoms.contains(TextAtom::LineBreak) && caps.line_break != CapabilityState::Available {
        Some(capability_error(caps.line_break, CapabilityRequirement::LineBreak))
    } else if atoms.contains(TextAtom::Tab) && caps.tab != CapabilityState::Available {
        Some(capability_error(caps.tab, CapabilityRequirement::Tab))
    } else if caps.modifier_observation != CapabilityState::Available {
        Some(capability_error(caps.modifier_observation, CapabilityRequirement::ModifierObservation))
    } else {
        None
    }
}

/// The atoms a keyboard plan for `s` would carry, or why no plan exists:
/// configuration first, then normalization, then capabilities.
pub open spec fn spec_keyboard_plan(s: Seq<char>, config: P1Config, caps: PlanCapabilities) -> Result<Seq<TextAtom>, PlanError> {
    match config.first_violation() {
        Some(e) => Err(PlanError::InvalidConfiguration(e)),
        None => match spec_normalize(s, config) {
            Err(e) => Err(PlanError::Normalization(e)),
            Ok(atoms) => match missing_capability(atoms, caps) {
                Some(e) => Err(e),
                None => Ok(atoms),
            },
        },
    }
}

/// Splits `s` into consecutive pieces of `size` elements; the last piece may
/// be shorter. No piece is empty.
pub open spec fn chunks<T>(s: Seq<T>, size: nat) -> Seq<Seq<T>>
    decreases s.len(),
{
    if s.len() == 0 || size == 0 {
        seq![]
    } else if s.len() <= size {
        seq![s]
    } else {
        seq![s.take(size as int)] + chunks(s.skip(size as int), size)
    }
}

/// Immutable normalized text and safety configuration for one P1 session.
pub struct KeyboardPlan {
    text: NormalizedText,
    config: P1Config,
    capabilities: PlanCapabilities,
}

impl KeyboardPlan {
    pub closed spec fn spec_text(&self) -> Seq<TextAtom> {
        self.text@
    }

    pub closed spec fn spec_config(&self) -> P1Config {
        self.config
    }

    pub closed spec fn spec_capabilities(&self) -> PlanCapabilities {
        self.capabilities
    }

    pub fn text(&self) -> (r: &NormalizedText)
        ensures
            r@ == self.spec_text(),
    {
        &self.text
    }

    pub fn config(&self) -> (r: P1Config)
        ensures
            r == self.spec_config(),
    {
        self.config
    }

    pub fn capabilities(&self) -> (r: PlanCapabilities)
        ensures
            r == self.spec_capabilities(),
    {
        self.capabilities
    }

    /// Bounded non-empty slices of the plan's atoms, one per native dispatch.
    pub fn batch_slices(&self) -> (r: Vec<&[TextAtom]>)
        ensures
            r@.map_values(|piece: &[TextAtom]| piece@) == chunks(
                self.spec_text(),
                self.spec_config().dispatch_batch_limit.spec_get() as nat,
            ),
    {
        let atoms = self.text.atoms();
        let size = self.config.dispatch_batch_limit.get();
        let ghost all = atoms@;
        let mut out: Vec<&[TextAtom]> = Vec::new();
        let mut start: usize = 0;
        assert(all.skip(0) =~= all);
        while start < atoms.len()
            invariant
                all == atoms@,
                all == self.spec_text(),
                size == self.spec_config().dispatch_batch_limit.spec_get(),
                size > 0,
                start <= all.len(),
                chunks(all, size as nat) == out@.map_values(|piece: &[TextAtom]| piece@)
                    + chunks(all.skip(start as int), size as nat),
            decreases all.len() - start,
        {
            let ghost rest = all.skip(start as int);
            let remaining = atoms.len() - start;
            let end = if remaining <= size { atoms.len() } else { start + size };
            let piece = &atoms[start..end];
            let ghost before = out@.map_values(|p: &[TextAtom]| p@);
            out.push(piece);
            assert(piece@ =~= rest.take((end - start) as int));
            if remaining <= size {
                assert(rest.take((end - start) as int) =~= rest);
                assert(all.skip(end as int) =~= Seq::<TextAtom>::empty());
            } else {
                assert(rest.skip(size as int) =~= all.skip(end as int));
            }
            assert(out@.map_values(|p: &[TextAtom]| p@) =~= before + seq![piece@]);
            start = end;
        }
        assert(all.skip(start as int) =~= Seq::<TextAtom>::empty());
        assert(out@.map_values(|p: &[TextAtom]| p@) + Seq::<Seq<TextAtom>>::empty()
            =~= out@.map_values(|p: &[TextAtom]| p@));
        out
    }

    /// Content-free diagnostic text: the element count with the content redacted.
    pub fn debug_text(&self) -> (r: String)
        ensures
            r@ == "KeyboardPlan { elements: "@ + decimal(self.spec_text().len())
                + ", content: \"[REDACTED]\" }"@,
    {
        let mut s = "KeyboardPlan { elements: ".to_owned();
        push_decimal(&mut s, self.text.len() as u64);
        s.append(", content: \"[REDACTED]\" }");
        s
    }
}

fn require_available(state: CapabilityState, requirement: CapabilityRequirement) -> (r: Result<(), PlanError>)
    ensures
        state == CapabilityState::Available ==> r is Ok,
        state != CapabilityState::Available ==> r == Err::<(), PlanError>(capability_error(state, requirement)),
{
    match state {
        CapabilityState::Available => Ok(()),
        CapabilityState::Degraded => Err(PlanError::CapabilityDegraded(requirement)),
        CapabilityState::Unavailable => Err(PlanError::CapabilityUnavailable(requirement)),
    }
}

/// Builds the immutable plan: validated configuration, normalized text, and
/// every capability that the text needs.
pub fn build_keyboard_plan(text: SensitiveText, config: P1Config, capabilities: PlanCapabilities) -> (r: Result<KeyboardPlan, PlanError>)
    ensures
        match (r, spec_keyboard_plan(text@, config, capabilities)) {
            (Ok(plan), Ok(atoms)) => plan.spec_text() == atoms && plan.spec_config() == config
                && plan.spec_capabilities() == capabilities,
            (Err(e1), Err(e2)) => e1 == e2,
            _ => false,
        },
{
    let config = match config.validate() {
        Ok(config) => config,
        Err(error) => return Err(PlanError::InvalidConfiguration(error)),
    };
    let normalized = match normalize_text(text, config) {
        Ok(normalized) => normalized,
        Err(error) => return Err(PlanError::Normalization(error)),
    };
    if normalized.contains_scalar() {
        require_available(capabilities.unicode_text, CapabilityRequirement::UnicodeText)?;
    }
    if normalized.contains_line_break() {
        require_available(capabilities.line_break, CapabilityRequirement::LineBreak)?;
    }
    if normalized.contains_tab() {
        require_available(capabilities.tab, CapabilityRequirement::Tab)?;
    }
    require_available(capabilities.modifier_observation, CapabilityRequirement::ModifierObservation)?;
    Ok(KeyboardPlan { text: normalized, config, capabilities })
}

} // verus!
