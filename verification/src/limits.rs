//! Strongly typed native and semantic work bounds.
use vstd::prelude::*;

verus! {

/// Identifies the unit and purpose of a rejected bound.
#[derive(Debug, Clone, Copy, PartialEq, Eq, Hash, Structural)]
pub enum BoundKind {
    NativeClipboardBytes,
    SemanticElements,
    DispatchElements,
    RetryAttempts,
    NativeEvents,
}

/// A content-free bound construction or conversion error.
#[derive(Debug, Clone, Copy, PartialEq, Eq, Structural)]
pub enum BoundError {
    Zero(BoundKind),
    ExceedsPlatformU32 { kind: BoundKind, value: usize },
}

/// Upper bound on the bytes of one native clipboard read; never zero.
#[derive(Debug, Clone, Copy, PartialEq, Eq, PartialOrd, Ord, Hash, Structural)]
pub struct NativeByteLimit {
    value: usize,
}

impl NativeByteLimit {
    #[verifier::type_invariant]
    spec fn non_zero(self) -> bool {
        self.value > 0
    }

    /// The wrapped bound.
    pub closed spec fn spec_get(self) -> usize {
        self.value
    }

    /// Accepts every non-zero value; zero is rejected with its bound kind.
    pub fn new(value: usize) -> (r: Result<Self, BoundError>)
        ensures
            value == 0 ==> r == Err::<Self, BoundError>(BoundError::Zero(BoundKind::NativeClipboardBytes)),
            value != 0 ==> (r matches Ok(limit) && limit.spec_get() == value),
    {
        if value == 0 {
            Err(BoundError::Zero(BoundKind::NativeClipboardBytes))
        } else {
            Ok(NativeByteLimit { value })
        }
    }

    #[verifier::when_used_as_spec(spec_get)]
    pub fn get(self) -> (r: usize)
        ensures
            r == self.spec_get(),
            r > 0,
    {
        proof {
            use_type_invariant(&self);
        }
        self.value
    }

    /// Whether a measured byte count fits within this bound.
    pub fn allows(self, count: ByteCount) -> (r: bool)
        ensures
            r == (count.spec_get() <= self.spec_get()),
    {
        count.get() <= self.get()
    }
}

/// Upper bound on the semantic elements of one payload; never zero.
#[derive(Debug, Clone, Copy, PartialEq, Eq, PartialOrd, Ord, Hash, Structural)]
pub struct SemanticElementLimit {
    value: usize,
}

impl SemanticElementLimit {
    #[verifier::type_invariant]
    spec fn non_zero(self) -> bool {
        self.value > 0
    }

    /// The wrapped bound.
    pub closed spec fn spec_get(self) -> usize {
        self.value
    }

    /// Accepts every non-zero value; zero is rejected with its bound kind.
    pub fn new(value: usize) -> (r: Result<Self, BoundError>)
        ensures
            value == 0 ==> r == Err::<Self, BoundError>(BoundError::Zero(BoundKind::SemanticElements)),
            value != 0 ==> (r matches Ok(limit) && limit.spec_get() == value),
    {
        if value == 0 {
            Err(BoundError::Zero(BoundKind::SemanticElements))
        } else {
            Ok(SemanticElementLimit { value })
        }
    }

    #[verifier::when_used_as_spec(spec_get)]
    pub fn get(self) -> (r: usize)
        ensures
            r == self.spec_get(),
            r > 0,
    {
        proof {
            use_type_invariant(&self);
        }
        self.value
    }

    /// Whether a semantic element count fits within this bound.
    pub fn allows(self, count: SemanticElementCount) -> (r: bool)
        ensures
            r == (count.spec_get() <= self.spec_get()),
    {
        count.get() <= self.get()
    }
}

/// Upper bound on the semantic elements of one native dispatch; never zero.
#[derive(Debug, Clone, Copy, PartialEq, Eq, PartialOrd, Ord, Hash, Structural)]
pub struct DispatchBatchLimit {
    value: usize,
}

impl DispatchBatchLimit {
    #[verifier::type_invariant]
    spec fn non_zero(self) -> bool {
        self.value > 0
    }

    /// The wrapped bound.
    pub closed spec fn spec_get(self) -> usize {
        self.value
    }

    /// Accepts every non-zero value; zero is rejected with its bound kind.
    pub fn new(value: usize) -> (r: Result<Self, BoundError>)
        ensures
            value == 0 ==> r == Err::<Self, BoundError>(BoundError::Zero(BoundKind::DispatchElements)),
            value != 0 ==> (r matches Ok(limit) && limit.spec_get() == value),
    {
        if value == 0 {
            Err(BoundError::Zero(BoundKind::DispatchElements))
        } else {
            Ok(DispatchBatchLimit { value })
        }
    }

    #[verifier::when_used_as_spec(spec_get)]
    pub fn get(self) -> (r: usize)
        ensures
            r == self.spec_get(),
            r > 0,
    {
        proof {
            use_type_invariant(&self);
        }
        self.value
    }

    /// Whether a semantic element count fits within one dispatch.
    pub fn allows(self, count: SemanticElementCount) -> (r: bool)
        ensures
            r == (count.spec_get() <= self.spec_get()),
    {
        count.get() <= self.get()
    }
}

/// Upper bound on bounded retry attempts; never zero.
#[derive(Debug, Clone, Copy, PartialEq, Eq, PartialOrd, Ord, Hash, Structural)]
pub struct RetryAttemptLimit {
    value: usize,
}

impl RetryAttemptLimit {
    #[verifier::type_invariant]
    spec fn non_zero(self) -> bool {
        self.value > 0
    }

    /// The wrapped bound.
    pub closed spec fn spec_get(self) -> usize {
        self.value
    }

    /// Accepts every non-zero value; zero is rejected with its bound kind.
    pub fn new(value: usize) -> (r: Result<Self, BoundError>)
        ensures
            value == 0 ==> r == Err::<Self, BoundError>(BoundError::Zero(BoundKind::RetryAttempts)),
            value != 0 ==> (r matches Ok(limit) && limit.spec_get() == value),
    {
        if value == 0 {
            Err(BoundError::Zero(BoundKind::RetryAttempts))
        } else {
            Ok(RetryAttemptLimit { value })
        }
    }

    #[verifier::when_used_as_spec(spec_get)]
    pub fn get(self) -> (r: usize)
        ensures
            r == self.spec_get(),
            r > 0,
    {
        proof {
            use_type_invariant(&self);
        }
        self.value
    }
}

/// A measured number of bytes.
#[derive(Debug, Clone, Copy, PartialEq, Eq, PartialOrd, Ord, Hash, Structural)]
pub struct ByteCount {
    value: usize,
}

impl ByteCount {
    pub closed spec fn spec_get(self) -> usize {
        self.value
    }

    /// The count holding `value`.
    pub closed spec fn spec_new(value: usize) -> Self {
        ByteCount { value }
    }

    pub fn new(value: usize) -> (r: Self)
        ensures
            r.spec_get() == value,
            r == Self::spec_new(value),
    {
        ByteCount { value }
    }

    #[verifier::when_used_as_spec(spec_get)]
    pub fn get(self) -> (r: usize)
        ensures
            r == self.spec_get(),
    {
        self.value
    }
}

/// A measured number of UTF-16 code units.
#[derive(Debug, Clone, Copy, PartialEq, Eq, PartialOrd, Ord, Hash, Structural)]
pub struct Utf16UnitCount {
    value: usize,
}

impl Utf16UnitCount {
    pub closed spec fn spec_get(self) -> usize {
        self.value
    }

    /// The count holding `value`.
    pub closed spec fn spec_new(value: usize) -> Self {
        Utf16UnitCount { value }
    }

    pub fn new(value: usize) -> (r: Self)
        ensures
            r.spec_get() == value,
            r == Self::spec_new(value),
    {
        Utf16UnitCount { value }
    }

    #[verifier::when_used_as_spec(spec_get)]
    pub fn get(self) -> (r: usize)
        ensures
            r == self.spec_get(),
    {
        self.value
    }
}

/// A measured number of normalized semantic text elements.
#[derive(Debug, Clone, Copy, PartialEq, Eq, PartialOrd, Ord, Hash, Structural)]
pub struct SemanticElementCount {
    value: usize,
}

impl SemanticElementCount {
    pub closed spec fn spec_get(self) -> usize {
        self.value
    }

    /// The count holding `value`.
    pub closed spec fn spec_new(value: usize) -> Self {
        SemanticElementCount { value }
    }

    pub fn new(value: usize) -> (r: Self)
        ensures
            r.spec_get() == value,
            r == Self::spec_new(value),
    {
        SemanticElementCount { value }
    }

    #[verifier::when_used_as_spec(spec_get)]
    pub fn get(self) -> (r: usize)
        ensures
            r == self.spec_get(),
    {
        self.value
    }
}

/// A native event count accepted by platform APIs using a `u32` count.
#[derive(Debug, Clone, Copy, PartialEq, Eq, PartialOrd, Ord, Hash, Structural)]
pub struct NativeEventCount {
    value: u32,
}

impl NativeEventCount {
    pub closed spec fn spec_get(self) -> u32 {
        self.value
    }

    /// The count holding `value`.
    pub closed spec fn spec_new(value: u32) -> Self {
        NativeEventCount { value }
    }

    pub fn new(value: u32) -> (r: Self)
        ensures
            r.spec_get() == value,
            r == Self::spec_new(value),
    {
        NativeEventCount { value }
    }

    #[verifier::when_used_as_spec(spec_get)]
    pub fn get(self) -> (r: u32)
        ensures
            r == self.spec_get(),
    {
        self.value
    }

    /// Checked conversion from a platform-neutral count; values above `u32::MAX`
    /// are rejected with the offending value.
    pub fn try_from_usize(value: usize) -> (r: Result<Self, BoundError>)
        ensures
            value <= u32::MAX ==> r == Ok::<Self, BoundError>(Self::spec_new(value as u32)),
            value > u32::MAX ==> r == Err::<Self, BoundError>(
                BoundError::ExceedsPlatformU32 { kind: BoundKind::NativeEvents, value },
            ),
    {
        if value <= 0xFFFF_FFFFusize {
            Ok(NativeEventCount { value: value as u32 })
        } else {
            Err(BoundError::ExceedsPlatformU32 { kind: BoundKind::NativeEvents, value })
        }
    }
}

impl TryFrom<usize> for NativeEventCount {
    type Error = BoundError;

    fn try_from(value: usize) -> (r: Result<Self, BoundError>) {
        NativeEventCount::try_from_usize(value)
    }
}

impl vstd::std_specs::convert::TryFromSpecImpl<usize> for NativeEventCount {
    open spec fn obeys_try_from_spec() -> bool {
        true
    }

    open spec fn try_from_spec(value: usize) -> Result<Self, BoundError> {
        if value <= u32::MAX {
            Ok(Self::spec_new(value as u32))
        } else {
            Err(BoundError::ExceedsPlatformU32 { kind: BoundKind::NativeEvents, value })
        }
    }
}

} // verus!
