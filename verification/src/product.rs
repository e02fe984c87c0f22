//! Product configuration and pure backend-selection policy.
use vstd::prelude::*;

use crate::code_plan::{build_code_actions, code_actions, CodeAction};
use crate::config::{ConfigError, P1Config, TabPolicy};
use crate::limits::{SemanticElementCount, SemanticElementLimit};
use crate::normalization::{classify, element_width, elements, elements_from, is_control};
use crate::outcome::CapabilityState;
use crate::plan::{
    build_keyboard_plan, capability_error, spec_keyboard_plan, CapabilityRequirement,
    KeyboardPlan, PlanCapabilities, PlanError,
};
use crate::sensitive::SensitiveText;
use crate::settings::{MAX_JITTER_PERCENT, MAX_TYPO_PROBABILITY_PERCENT};
use crate::text::TextAtom;
use crate::textual::{chars_of, decimal, push_decimal};

verus! {

/// User-visible injection mode.
#[derive(Debug, Clone, Copy, PartialEq, Eq, Structural)]
pub enum InjectionMode {
    Keyboard,
    Clipboard,
    Auto,
    /// Paced keyboard actions with code-aware indentation and pair rules.
    Code,
}

impl Default for InjectionMode {
    fn default() -> (r: Self)
        ensures
            r == InjectionMode::Auto,
    {
        InjectionMode::Auto
    }
}

/// Backend selected immutably for one session.
#[derive(Debug, Clone, Copy, PartialEq, Eq, Structural)]
pub enum InjectionBackend {
    Keyboard,
    Clipboard,
    Code,
}

#[derive(Debug, Clone, Copy, PartialEq, Eq, Structural)]
pub enum ProductConfigError {
    ZeroAutoClipboardThreshold,
    JitterOutOfRange,
    TypoProbabilityOutOfRange,
    InvalidSafety(ConfigError),
}

/// Non-zero semantic-element threshold at which `Auto` prefers clipboard paste.
#[derive(Debug, Clone, Copy, PartialEq, Eq, PartialOrd, Ord, Hash, Structural)]
pub struct AutoClipboardThreshold {
    value: usize,
}

impl AutoClipboardThreshold {
    #[verifier::type_invariant]
    spec fn non_zero(self) -> bool {
        self.value > 0
    }

    /// The wrapped threshold.
    pub closed spec fn spec_get(self) -> usize {
        self.value
    }

    /// The threshold holding `value`.
    pub closed spec fn spec_new(value: usize) -> Self {
        AutoClipboardThreshold { value }
    }

    /// A threshold is determined by its value.
    pub proof fn lemma_rebuilt(t: Self)
        ensures
            Self::spec_new(t.spec_get()) == t,
    {
    }

    pub fn new(value: usize) -> (r: Result<Self, ProductConfigError>)
        ensures
            value == 0 ==> r == Err::<Self, ProductConfigError>(
                ProductConfigError::ZeroAutoClipboardThreshold,
            ),
            value > 0 ==> r == Ok::<Self, ProductConfigError>(Self::spec_new(value)),
            value > 0 ==> (r matches Ok(t) && t.spec_get() == value),
    {
        if value == 0 {
            Err(ProductConfigError::ZeroAutoClipboardThreshold)
        } else {
            Ok(AutoClipboardThreshold { value })
        }
    }

    #[verifier::when_used_as_spec(spec_get)]
    pub fn get(self) -> (r: usize)
        ensures
            r == self.spec_get(),
            r > 0,
    {
        proof {
            use_type_invariant(&self);
        }
        self.value
    }

    /// The shipped threshold of 256 elements.
    pub fn default_threshold() -> (r: Self)
        ensures
            r.spec_get() == 256,
    {
        AutoClipboardThreshold { value: 256 }
    }
}

impl TryFrom<usize> for AutoClipboardThreshold {
    type Error = ProductConfigError;

    fn try_from(value: usize) -> (r: Result<Self, ProductConfigError>) {
        AutoClipboardThreshold::new(value)
    }
}

impl vstd::std_specs::convert::TryFromSpecImpl<usize> for AutoClipboardThreshold {
    open spec fn obeys_try_from_spec() -> bool {
        true
    }

    open spec fn try_from_spec(value: usize) -> Result<Self, ProductConfigError> {
        if value == 0 {
            Err(ProductConfigError::ZeroAutoClipboardThreshold)
        } else {
            Ok(Self::spec_new(value))
        }
    }
}

/// Validated product configuration. Active sessions retain a copy.
#[derive(Debug, Clone, Copy, PartialEq, Eq)]
pub struct ProductConfig {
    pub enabled: bool,
    pub mode: InjectionMode,
    pub auto_clipboard_threshold: AutoClipboardThreshold,
    pub jitter_percent: u8,
    pub typo_probability_percent: u8,
    pub safety: P1Config,
}

impl ProductConfig {
    /// The first rule, in checking order, that the configuration breaks.
    pub open spec fn violation(self) -> Option<ProductConfigError> {
        match self.safety.first_violation() {
            Some(e) => Some(ProductConfigError::InvalidSafety(e)),
            None => if self.jitter_percent > MAX_JITTER_PERCENT {
                Some(ProductConfigError::JitterOutOfRange)
            } else if self.typo_probability_percent > MAX_TYPO_PROBABILITY_PERCENT {
                Some(ProductConfigError::TypoProbabilityOutOfRange)
            } else {
                None
            },
        }
    }

    pub fn validate(self) -> (r: Result<Self, ProductConfigError>)
        ensures
            r == match self.violation() {
                Some(e) => Err(e),
                None => Ok::<Self, ProductConfigError>(self),
            },
    {
        match self.safety.validate() {
            Ok(_) => {},
            Err(e) => return Err(ProductConfigError::InvalidSafety(e)),
        }
        if self.jitter_percent > MAX_JITTER_PERCENT {
            return Err(ProductConfigError::JitterOutOfRange);
        }
        if self.typo_probability_percent > MAX_TYPO_PROBABILITY_PERCENT {
            return Err(ProductConfigError::TypoProbabilityOutOfRange);
        }
        Ok(self)
    }

    /// A keyboard-only configuration around the given safety bounds.
    pub fn keyboard_only(safety: P1Config) -> (r: Result<Self, ProductConfigError>)
        ensures
            match (r, safety.first_violation()) {
                (Ok(c), None) => c.enabled && c.mode == InjectionMode::Keyboard
                    && c.auto_clipboard_threshold.spec_get() == 256 && c.jitter_percent == 0
                    && c.typo_probability_percent == 0 && c.safety == safety,
                (Err(e), Some(v)) => e == ProductConfigError::InvalidSafety(v),
                _ => false,
            },
    {
        ProductConfig {
            enabled: true,
            mode: InjectionMode::Keyboard,
            auto_clipboard_threshold: AutoClipboardThreshold::default_threshold(),
            jitter_percent: 0,
            typo_probability_percent: 0,
            safety,
        }.validate()
    }
}

impl Default for ProductConfig {
    fn default() -> (r: Self)
        ensures
            r.enabled,
            r.mode == InjectionMode::Auto,
            r.auto_clipboard_threshold.spec_get() == 256,
            r.jitter_percent == 0,
            r.typo_probability_percent == 0,
            r.safety.is_default(),
            r.violation() is None,
    {
        ProductConfig {
            enabled: true,
            mode: InjectionMode::Auto,
            auto_clipboard_threshold: AutoClipboardThreshold::default_threshold(),
            jitter_percent: 0,
            typo_probability_percent: 0,
            safety: P1Config::p1_default(),
        }
    }
}

/// Native-neutral capability snapshot consumed by planning policy.
#[derive(Debug, Clone, Copy, PartialEq, Eq, Structural)]
pub struct ProductCapabilities {
    pub keyboard: PlanCapabilities,
    pub clipboard_paste: CapabilityState,
    pub clipboard_revision_guard: CapabilityState,
}

/// Content-free clipboard plan. The source remains the current OS clipboard.
#[derive(Clone, Copy, PartialEq, Eq, Structural)]
pub struct ClipboardPlan {
    elements: SemanticElementCount,
}

impl ClipboardPlan {
    pub closed spec fn spec_element_count(self) -> SemanticElementCount {
        self.elements
    }

    #[verifier::when_used_as_spec(spec_element_count)]
    pub fn element_count(self) -> (r: SemanticElementCount)
        ensures
            r == self.spec_element_count(),
    {
        self.elements
    }

    /// Content-free diagnostic text.
    pub fn debug_text(self) -> (r: String)
        ensures
            r@ == "ClipboardPlan { elements: "@ + decimal(self.spec_element_count().spec_get() as nat)
                + ", content: \"[REDACTED]\" }"@,
    {
        let mut s = "ClipboardPlan { elements: ".to_owned();
        push_decimal(&mut s, self.elements.get() as u64);
        s.append(", content: \"[REDACTED]\" }");
        s
    }
}

/// Immutable keyboard plan for source code and structured text.
pub struct CodePlan {
    actions: Vec<CodeAction>,
    elements: SemanticElementCount,
    config: P1Config,
    capabilities: PlanCapabilities,
}

impl CodePlan {
    pub closed spec fn spec_actions(&self) -> Seq<CodeAction> {
        self.actions@
    }

    pub closed spec fn spec_element_count(&self) -> SemanticElementCount {
        self.elements
    }

    pub closed spec fn spec_config(&self) -> P1Config {
        self.config
    }

    pub closed spec fn spec_capabilities(&self) -> PlanCapabilities {
        self.capabilities
    }

    pub fn actions(&self) -> (r: &[CodeAction])
        ensures
            r@ == self.spec_actions(),
    {
        self.actions.as_slice()
    }

    pub fn element_count(&self) -> (r: SemanticElementCount)
        ensures
            r == self.spec_element_count(),
    {
        self.elements
    }

    pub fn config(&self) -> (r: P1Config)
        ensures
            r == self.spec_config(),
    {
        self.config
    }

    pub fn capabilities(&self) -> (r: PlanCapabilities)
        ensures
            r == self.spec_capabilities(),
    {
        self.capabilities
    }

    /// Content-free diagnostic text: counts only.
    pub fn debug_text(&self) -> (r: String)
        ensures
            r@ == "CodePlan { elements: "@ + decimal(self.spec_element_count().spec_get() as nat)
                + ", actions: "@ + decimal(self.spec_actions().len()) + ", content: \"[REDACTED]\" }"@,
    {
        let mut s = "CodePlan { elements: ".to_owned();
        push_decimal(&mut s, self.elements.get() as u64);
        s.append(", actions: ");
        push_decimal(&mut s, self.actions.len() as u64);
        s.append(", content: \"[REDACTED]\" }");
        s
    }
}

/// Immutable backend-specific plan for one session.
pub enum InjectionPlan {
    Keyboard(KeyboardPlan),
    Clipboard(ClipboardPlan),
    Code(CodePlan),
}

/// What a plan carries, as mathematical values.
pub enum PlanOutline {
    Keyboard { atoms: Seq<TextAtom>, config: P1Config, capabilities: PlanCapabilities },
    Clipboard { elements: nat },
    Code {
        actions: Seq<CodeAction>,
        elements: nat,
        config: P1Config,
        capabilities: PlanCapabilities,
    },
}

impl InjectionPlan {
    pub open spec fn outline(&self) -> PlanOutline {
        match self {
            InjectionPlan::Keyboard(p) => PlanOutline::Keyboard {
                atoms: p.spec_text(),
                config: p.spec_config(),
                capabilities: p.spec_capabilities(),
            },
            InjectionPlan::Clipboard(p) => PlanOutline::Clipboard {
                elements: p.spec_element_count().spec_get() as nat,
            },
            InjectionPlan::Code(p) => PlanOutline::Code {
                actions: p.spec_actions(),
                elements: p.spec_element_count().spec_get() as nat,
                config: p.spec_config(),
                capabilities: p.spec_capabilities(),
            },
        }
    }

    pub open spec fn spec_backend(&self) -> InjectionBackend {
        match self {
            InjectionPlan::Keyboard(_) => InjectionBackend::Keyboard,
            InjectionPlan::Clipboard(_) => InjectionBackend::Clipboard,
            InjectionPlan::Code(_) => InjectionBackend::Code,
        }
    }

    #[verifier::when_used_as_spec(spec_backend)]
    pub fn backend(&self) -> (r: InjectionBackend)
        ensures
            r == self.spec_backend(),
    {
        match self {
            InjectionPlan::Keyboard(_) => InjectionBackend::Keyboard,
            InjectionPlan::Clipboard(_) => InjectionBackend::Clipboard,
            InjectionPlan::Code(_) => InjectionBackend::Code,
        }
    }

    pub fn element_count(&self) -> (r: SemanticElementCount)
        ensures
            r.spec_get() == match self.outline() {
                PlanOutline::Keyboard { atoms, .. } => atoms.len(),
                PlanOutline::Clipboard { elements } => elements,
                PlanOutline::Code { elements, .. } => elements,
            },
    {
        match self {
            InjectionPlan::Keyboard(plan) => SemanticElementCount::new(plan.text().len()),
            InjectionPlan::Clipboard(plan) => plan.element_count(),
            InjectionPlan::Code(plan) => plan.element_count(),
        }
    }

    /// Content-free diagnostic text.
    pub fn debug_text(&self) -> (r: String)
        ensures
            r@ == match self {
                InjectionPlan::Keyboard(p) => "Keyboard("@ + "KeyboardPlan { elements: "@
                    + decimal(p.spec_text().len()) + ", content: \"[REDACTED]\" }"@ + ")"@,
                InjectionPlan::Clipboard(p) => "Clipboard("@ + "ClipboardPlan { elements: "@
                    + decimal(p.spec_element_count().spec_get() as nat)
                    + ", content: \"[REDACTED]\" }"@ + ")"@,
                InjectionPlan::Code(p) => "Code("@ + "CodePlan { elements: "@ + decimal(
                    p.spec_element_count().spec_get() as nat,
                ) + ", actions: "@ + decimal(p.spec_actions().len())
                    + ", content: \"[REDACTED]\" }"@ + ")"@,
            },
    {
        let (mut s, inner) = match self {
            InjectionPlan::Keyboard(plan) => ("Keyboard(".to_owned(), plan.debug_text()),
            InjectionPlan::Clipboard(plan) => ("Clipboard(".to_owned(), plan.debug_text()),
            InjectionPlan::Code(plan) => ("Code(".to_owned(), plan.debug_text()),
        };
        s.append(inner.as_str());
        s.append(")");
        s
    }
}

#[derive(Debug, Clone, Copy, PartialEq, Eq, Structural)]
pub enum ProductPlanError {
    Disabled,
    InvalidConfiguration(ProductConfigError),
    Empty,
    PayloadTooLarge { limit: SemanticElementLimit },
    Keyboard(PlanError),
    ClipboardCapabilityUnavailable,
    ClipboardCapabilityDegraded,
    ClipboardRevisionUnavailable,
}

// ---------------------------------------------------------------------------
// Mathematical model of backend selection.
// ---------------------------------------------------------------------------

/// The number of semantic elements of a text, or why it is refused: an empty
/// text, or more elements than `limit`.
pub open spec fn inspect_outcome(s: Seq<char>, limit: SemanticElementLimit) -> Result<nat, ProductPlanError> {
    if s.len() == 0 {
        Err(ProductPlanError::Empty)
    } else if elements(s).len() > limit.spec_get() {
        Err(ProductPlanError::PayloadTooLarge { limit })
    } else {
        Ok(elements(s).len())
    }
}

/// The capability that typing the atom needs is fully available.
pub open spec fn atom_typeable(a: TextAtom, caps: PlanCapabilities) -> bool {
    match a {
        TextAtom::Scalar(_) => caps.unicode_text == CapabilityState::Available,
        TextAtom::LineBreak => caps.line_break == CapabilityState::Available,
        TextAtom::Tab => caps.tab == CapabilityState::Available,
    }
}

/// Every element is an accepted keyboard atom whose capability is available.
pub open spec fn elements_typeable(els: Seq<(char, int)>, tab: TabPolicy, caps: PlanCapabilities) -> bool
    decreases els.len(),
{
    if els.len() == 0 {
        true
    } else {
        match classify(els[0].0, els[0].1, tab) {
            Err(_) => false,
            Ok(a) => atom_typeable(a, caps) && elements_typeable(els.drop_first(), tab, caps),
        }
    }
}

/// The keyboard backend could deliver the text: no element is refused, every
/// kind of atom present can be typed, and modifiers can be observed.
pub open spec fn keyboard_eligible(s: Seq<char>, config: P1Config, caps: PlanCapabilities) -> bool {
    elements_typeable(elements(s), config.tab_policy, caps) && caps.modifier_observation
        == CapabilityState::Available
}

/// Why an explicit clipboard plan is refused, if it is.
pub open spec fn clipboard_refusal(caps: ProductCapabilities, revision_available: bool) -> Option<ProductPlanError> {
    match caps.clipboard_paste {
        CapabilityState::Unavailable => Some(ProductPlanError::ClipboardCapabilityUnavailable),
        CapabilityState::Degraded => Some(ProductPlanError::ClipboardCapabilityDegraded),
        CapabilityState::Available => match caps.clipboard_revision_guard {
            CapabilityState::Unavailable => Some(ProductPlanError::ClipboardRevisionUnavailable),
            CapabilityState::Degraded => Some(ProductPlanError::ClipboardCapabilityDegraded),
            CapabilityState::Available => if !revision_available {
                Some(ProductPlanError::ClipboardRevisionUnavailable)
            } else {
                None
            },
        },
    }
}

/// Clipboard paste and its revision guard are fully available now.
pub open spec fn clipboard_available(caps: ProductCapabilities, revision_available: bool) -> bool {
    revision_available && caps.clipboard_paste == CapabilityState::Available
        && caps.clipboard_revision_guard == CapabilityState::Available
}

pub open spec fn keyboard_outcome(s: Seq<char>, config: ProductConfig, caps: ProductCapabilities) -> Result<PlanOutline, ProductPlanError> {
    match spec_keyboard_plan(s, config.safety, caps.keyboard) {
        Ok(atoms) => Ok(
            PlanOutline::Keyboard { atoms, config: config.safety, capabilities: caps.keyboard },
        ),
        Err(e) => Err(ProductPlanError::Keyboard(e)),
    }
}

pub open spec fn code_outcome(s: Seq<char>, config: ProductConfig, caps: ProductCapabilities, n: nat) -> Result<PlanOutline, ProductPlanError> {
    match spec_keyboard_plan(s, config.safety, caps.keyboard) {
        Err(e) => Err(ProductPlanError::Keyboard(e)),
        Ok(atoms) => if caps.keyboard.cursor_right != CapabilityState::Available {
            Err(
                ProductPlanError::Keyboard(
                    capability_error(caps.keyboard.cursor_right, CapabilityRequirement::CursorRight),
                ),
            )
        } else {
            Ok(
                PlanOutline::Code {
                    actions: code_actions(atoms),
                    elements: n,
                    config: config.safety,
                    capabilities: caps.keyboard,
                },
            )
        },
    }
}

/// `Auto` takes the clipboard when it is fully available and the text is not
/// plain ASCII, reaches the threshold, or cannot be typed.
pub open spec fn auto_prefers_clipboard(s: Seq<char>, revision_available: bool, config: ProductConfig, caps: ProductCapabilities, n: nat) -> bool {
    clipboard_available(caps, revision_available) && (!vstd::utf8::is_ascii_chars(s) || n
        >= config.auto_clipboard_threshold.spec_get() || !keyboard_eligible(
        s,
        config.safety,
        caps.keyboard,
    ))
}

/// The plan, or the refusal, for one trigger.
pub open spec fn injection_outcome(s: Seq<char>, revision_available: bool, config: ProductConfig, caps: ProductCapabilities) -> Result<PlanOutline, ProductPlanError> {
    match config.violation() {
        Some(e) => Err(ProductPlanError::InvalidConfiguration(e)),
        None => if !config.enabled {
            Err(ProductPlanError::Disabled)
        } else {
            match inspect_outcome(s, config.safety.total_payload_limit) {
                Err(e) => Err(e),
                Ok(n) => match config.mode {
                    InjectionMode::Keyboard => keyboard_outcome(s, config, caps),
                    InjectionMode::Clipboard => match clipboard_refusal(caps, revision_available) {
                        Some(e) => Err(e),
                        None => Ok(PlanOutline::Clipboard { elements: n }),
                    },
                    InjectionMode::Code => code_outcome(s, config, caps, n),
                    InjectionMode::Auto => if auto_prefers_clipboard(
                        s,
                        revision_available,
                        config,
                        caps,
                        n,
                    ) {
                        Ok(PlanOutline::Clipboard { elements: n })
                    } else {
                        keyboard_outcome(s, config, caps)
                    },
                },
            }
        },
    }
}

// ---------------------------------------------------------------------------
// Executable policy.
// ---------------------------------------------------------------------------

/// Selects exactly one backend and creates an immutable plan.
///
/// Explicit modes never fall back. `Auto` may select clipboard paste only when
/// both paste dispatch and revision guarding are fully available for the
/// current snapshot.
pub fn build_injection_plan(
    text: SensitiveText,
    revision_available: bool,
    config: ProductConfig,
    capabilities: ProductCapabilities,
) -> (r: Result<InjectionPlan, ProductPlanError>)
    ensures
        match (r, injection_outcome(text@, revision_available, config, capabilities)) {
            (Ok(plan), Ok(outline)) => plan.outline() == outline,
            (Err(e1), Err(e2)) => e1 == e2,
            _ => false,
        },
{
    let config = match config.validate() {
        Ok(config) => config,
        Err(e) => return Err(ProductPlanError::InvalidConfiguration(e)),
    };
    if !config.enabled {
        return Err(ProductPlanError::Disabled);
    }
    let elements = match inspect_elements(&text, config.safety.total_payload_limit) {
        Ok(n) => n,
        Err(e) => return Err(e),
    };
    match config.mode {
        InjectionMode::Keyboard => build_keyboard(text, config, capabilities),
        InjectionMode::Clipboard => {
            match require_clipboard(capabilities, revision_available) {
                Ok(()) => {},
                Err(e) => return Err(e),
            }
            Ok(InjectionPlan::Clipboard(ClipboardPlan { elements }))
        },
        InjectionMode::Code => build_code(text, config, capabilities, elements),
        InjectionMode::Auto => {
            let clipboard = clipboard_is_available(capabilities, revision_available);
            let keyboard = keyboard_is_available(&text, config.safety, capabilities.keyboard);
            // Text outside ASCII is safer through the revision-guarded paste
            // path, even when it is short.
            let prefers_clipboard = !text.expose().is_ascii();
            if clipboard && (prefers_clipboard || elements.get()
                >= config.auto_clipboard_threshold.get() || !keyboard) {
                Ok(InjectionPlan::Clipboard(ClipboardPlan { elements }))
            } else {
                build_keyboard(text, config, capabilities)
            }
        },
    }
}

fn build_keyboard(text: SensitiveText, config: ProductConfig, capabilities: ProductCapabilities) -> (r: Result<InjectionPlan, ProductPlanError>)
    ensures
        match (r, keyboard_outcome(text@, config, capabilities)) {
            (Ok(plan), Ok(outline)) => plan.outline() == outline,
            (Err(e1), Err(e2)) => e1 == e2,
            _ => false,
        },
{
    match build_keyboard_plan(text, config.safety, capabilities.keyboard) {
        Ok(plan) => Ok(InjectionPlan::Keyboard(plan)),
        Err(e) => Err(ProductPlanError::Keyboard(e)),
    }
}

fn build_code(
    text: SensitiveText,
    config: ProductConfig,
    capabilities: ProductCapabilities,
    elements: SemanticElementCount,
) -> (r: Result<InjectionPlan, ProductPlanError>)
    ensures
        match (r, code_outcome(text@, config, capabilities, elements.spec_get() as nat)) {
            (Ok(plan), Ok(outline)) => plan.outline() == outline,
            (Err(e1), Err(e2)) => e1 == e2,
            _ => false,
        },
{
    let keyboard = match build_keyboard_plan(text, config.safety, capabilities.keyboard) {
        Ok(plan) => plan,
        Err(e) => return Err(ProductPlanError::Keyboard(e)),
    };
    let actions = build_code_actions(keyboard.text().atoms());
    match require_keyboard_capability(
        capabilities.keyboard.cursor_right,
        CapabilityRequirement::CursorRight,
    ) {
        Ok(()) => {},
        Err(e) => return Err(e),
    }
    Ok(
        InjectionPlan::Code(
            CodePlan {
                actions,
                elements,
                config: keyboard.config(),
                capabilities: keyboard.capabilities(),
            },
        ),
    )
}

fn require_keyboard_capability(state: CapabilityState, requirement: CapabilityRequirement) -> (r: Result<(), ProductPlanError>)
    ensures
        state == CapabilityState::Available ==> r is Ok,
        state != CapabilityState::Available ==> r == Err::<(), ProductPlanError>(
            ProductPlanError::Keyboard(capability_error(state, requirement)),
        ),
{
    match state {
        CapabilityState::Available => Ok(()),
        CapabilityState::Degraded => Err(
            ProductPlanError::Keyboard(PlanError::CapabilityDegraded(requirement)),
        ),
        CapabilityState::Unavailable => Err(
            ProductPlanError::Keyboard(PlanError::CapabilityUnavailable(requirement)),
        ),
    }
}

fn require_clipboard(capabilities: ProductCapabilities, revision_available: bool) -> (r: Result<(), ProductPlanError>)
    ensures
        match clipboard_refusal(capabilities, revision_available) {
            Some(e) => r == Err::<(), ProductPlanError>(e),
            None => r is Ok,
        },
{
    match capabilities.clipboard_paste {
        CapabilityState::Unavailable => {
            return Err(ProductPlanError::ClipboardCapabilityUnavailable);
        },
        CapabilityState::Degraded => {
            return Err(ProductPlanError::ClipboardCapabilityDegraded);
        },
        CapabilityState::Available => {},
    }
    match capabilities.clipboard_revision_guard {
        CapabilityState::Unavailable => {
            return Err(ProductPlanError::ClipboardRevisionUnavailable);
        },
        CapabilityState::Degraded => {
            return Err(ProductPlanError::ClipboardCapabilityDegraded);
        },
        CapabilityState::Available => {},
    }
    if !revision_available {
        return Err(ProductPlanError::ClipboardRevisionUnavailable);
    }
    Ok(())
}

fn clipboard_is_available(capabilities: ProductCapabilities, revision_available: bool) -> (r: bool)
    ensures
        r == clipboard_available(capabilities, revision_available),
{
    revision_available && capabilities.clipboard_paste == CapabilityState::Available
        && capabilities.clipboard_revision_guard == CapabilityState::Available
}

/// The number of characters in the element at `i`: two for CR LF, else one.
fn element_width_at(chars: &Vec<char>, i: usize) -> (w: usize)
    requires
        i < chars@.len(),
    ensures
        w == element_width(chars@.skip(i as int)),
        i + w <= chars@.len(),
{
    let n = chars.len();
    if chars[i] == '\r' && i + 1 < n && chars[i + 1] == '\n' {
        2
    } else {
        1
    }
}

proof fn lemma_element_step(s: Seq<char>, i: int, w: int)
    requires
        0 <= i < s.len(),
        w == element_width(s.skip(i)),
        i + w <= s.len(),
    ensures
        elements_from(s.skip(i), i)[0] == (s[i], i),
        elements_from(s.skip(i), i).drop_first() =~= elements_from(s.skip(i + w), i + w),
        elements_from(s.skip(i), i).len() == 1 + elements_from(s.skip(i + w), i + w).len(),
{
    let rest = s.skip(i);
    assert(rest[0] == s[i]);
    assert(rest.skip(w) =~= s.skip(i + w));
}

fn keyboard_is_available(text: &SensitiveText, config: P1Config, capabilities: PlanCapabilities) -> (r: bool)
    ensures
        r == keyboard_eligible(text@, config, capabilities),
{
    let chars = chars_of(text.expose());
    let ghost s = chars@;
    let tab = config.tab_policy;
    let mut contains_scalar = false;
    let mut contains_line_break = false;
    let mut contains_tab = false;
    let unicode_ok = capabilities.unicode_text == CapabilityState::Available;
    let line_break_ok = capabilities.line_break == CapabilityState::Available;
    let tab_ok = capabilities.tab == CapabilityState::Available;
    let mut i: usize = 0;
    assert(s.skip(0) =~= s);
    while i < chars.len()
        invariant
            s == chars@,
            s == text@,
            i <= s.len(),
            tab == config.tab_policy,
            unicode_ok == (capabilities.unicode_text == CapabilityState::Available),
            line_break_ok == (capabilities.line_break == CapabilityState::Available),
            tab_ok == (capabilities.tab == CapabilityState::Available),
            elements_typeable(elements(s), tab, capabilities) == ((!contains_scalar || unicode_ok)
                && (!contains_line_break || line_break_ok) && (!contains_tab || tab_ok)
                && elements_typeable(elements_from(s.skip(i as int), i as int), tab, capabilities)),
        decreases s.len() - i,
    {
        let value = chars[i];
        let width = element_width_at(&chars, i);
        proof {
            lemma_element_step(s, i as int, width as int);
        }
        if value == '\r' || value == '\n' {
            contains_line_break = true;
        } else if value == '\t' {
            match tab {
                TabPolicy::Reject => return false,
                TabPolicy::Allow => {
                    contains_tab = true;
                },
            }
        } else if is_control(value) {
            return false;
        } else {
            contains_scalar = true;
        }
        i = i + width;
    }
    assert(s.skip(i as int) =~= Seq::<char>::empty());
    (!contains_scalar || unicode_ok) && (!contains_line_break || line_break_ok) && (!contains_tab
        || tab_ok) && capabilities.modifier_observation == CapabilityState::Available
}

fn inspect_elements(text: &SensitiveText, limit: SemanticElementLimit) -> (r: Result<SemanticElementCount, ProductPlanError>)
    ensures
        match (r, inspect_outcome(text@, limit)) {
            (Ok(c), Ok(n)) => c.spec_get() == n,
            (Err(e1), Err(e2)) => e1 == e2,
            _ => false,
        },
{
    if text.is_empty() {
        return Err(ProductPlanError::Empty);
    }
    let chars = chars_of(text.expose());
    let ghost s = chars@;
    let mut count: usize = 0;
    let mut i: usize = 0;
    assert(s.skip(0) =~= s);
    while i < chars.len()
        invariant
            s == chars@,
            s == text@,
            s.len() > 0,
            i <= s.len(),
            count <= limit.spec_get(),
            elements(s).len() == count + elements_from(s.skip(i as int), i as int).len(),
        decreases s.len() - i,
    {
        let width = element_width_at(&chars, i);
        proof {
            lemma_element_step(s, i as int, width as int);
        }
        if count >= limit.get() {
            return Err(ProductPlanError::PayloadTooLarge { limit });
        }
        count = count + 1;
        i = i + width;
    }
    assert(s.skip(i as int) =~= Seq::<char>::empty());
    Ok(SemanticElementCount::new(count))
}

// ---------------------------------------------------------------------------
// Laws of backend selection.
// ---------------------------------------------------------------------------

/// An explicit mode never falls back: a plan for `Keyboard`, `Clipboard` or
/// `Code` mode uses that backend.
pub proof fn law_explicit_modes_never_fall_back(
    s: Seq<char>,
    revision_available: bool,
    config: ProductConfig,
    caps: ProductCapabilities,
)
    requires
        config.mode != InjectionMode::Auto,
        injection_outcome(s, revision_available, config, caps) is Ok,
    ensures
        match injection_outcome(s, revision_available, config, caps)->Ok_0 {
            PlanOutline::Keyboard { .. } => config.mode == InjectionMode::Keyboard,
            PlanOutline::Clipboard { .. } => config.mode == InjectionMode::Clipboard,
            PlanOutline::Code { .. } => config.mode == InjectionMode::Code,
        },
{
}

/// `Auto` selects clipboard paste only when paste dispatch and revision
/// guarding are both fully available and the revision can be read.
pub proof fn law_auto_clipboard_needs_guarded_paste(
    s: Seq<char>,
    revision_available: bool,
    config: ProductConfig,
    caps: ProductCapabilities,
)
    requires
        config.mode == InjectionMode::Auto,
        injection_outcome(s, revision_available, config, caps) matches Ok(
            PlanOutline::Clipboard { .. },
        ),
    ensures
        revision_available,
        caps.clipboard_paste == CapabilityState::Available,
        caps.clipboard_revision_guard == CapabilityState::Available,
{
}

/// A valid configuration that is switched off refuses every trigger.
pub proof fn law_disabled_refuses(
    s: Seq<char>,
    revision_available: bool,
    config: ProductConfig,
    caps: ProductCapabilities,
)
    requires
        config.violation() is None,
        !config.enabled,
    ensures
        injection_outcome(s, revision_available, config, caps) == Err::<PlanOutline, ProductPlanError>(
            ProductPlanError::Disabled,
        ),
{
}

/// Keyboard and Code modes are keyboard-based: their outcome does not depend
/// on clipboard paste, its revision guard, or revision evidence.
pub proof fn law_keyboard_modes_ignore_clipboard(
    s: Seq<char>,
    revision_a: bool,
    revision_b: bool,
    config: ProductConfig,
    caps_a: ProductCapabilities,
    caps_b: ProductCapabilities,
)
    requires
        config.mode == InjectionMode::Keyboard || config.mode == InjectionMode::Code,
        caps_a.keyboard == caps_b.keyboard,
    ensures
        injection_outcome(s, revision_a, config, caps_a) == injection_outcome(
            s,
            revision_b,
            config,
            caps_b,
        ),
{
}

/// With clipboard paste fully available, `Auto` sends every text that is not
/// plain ASCII through the clipboard.
pub proof fn law_auto_pastes_non_ascii(
    s: Seq<char>,
    config: ProductConfig,
    caps: ProductCapabilities,
)
    requires
        config.mode == InjectionMode::Auto,
        config.violation() is None,
        config.enabled,
        inspect_outcome(s, config.safety.total_payload_limit) is Ok,
        clipboard_available(caps, true),
        !vstd::utf8::is_ascii_chars(s),
    ensures
        injection_outcome(s, true, config, caps) matches Ok(PlanOutline::Clipboard { .. }),
{
}


/// Code mode makes the same plan whether lines end in LF or in CR LF.
pub proof fn law_line_endings_make_identical_code_plans(
    s: Seq<char>,
    revision_available: bool,
    config: ProductConfig,
    caps: ProductCapabilities,
)
    requires
        crate::normalization::has_no_crlf(s),
        config.mode == InjectionMode::Code,
    ensures
        injection_outcome(s, revision_available, config, caps) is Ok == injection_outcome(
            crate::normalization::with_crlf(s),
            revision_available,
            config,
            caps,
        ) is Ok,
        injection_outcome(s, revision_available, config, caps) is Ok ==> injection_outcome(
            s,
            revision_available,
            config,
            caps,
        ) == injection_outcome(crate::normalization::with_crlf(s), revision_available, config, caps),
{
    crate::normalization::lemma_crlf_elements(s, 0, 0);
    if s.len() > 0 {
        crate::normalization::lemma_crlf_front(s);
    }
    crate::normalization::law_line_endings_normalize_alike(s, config.safety);
}

} // verus!
