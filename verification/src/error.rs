//! Failures of the pipeline and how they become transport errors.

use vstd::prelude::*;
use vstd::std_specs::convert::FromSpec;

verus! {

/// The status code of a rejection for a bad request.
pub const BAD_REQUEST: u16 = 400;

/// Which stage of the pipeline failed.
#[derive(Clone, Copy, Debug, PartialEq, Eq, Structural)]
pub enum FailureKind {
    Decode,
    Validation,
}

/// A failure of the pipeline, with the detail that the failing stage
/// reported: `D` from the structural decoder, `V` from validation.
#[derive(Debug, PartialEq, Eq)]
pub enum InternalError<D, V> {
    /// The raw query does not decode into the target type.
    DecodeFailure(D),
    /// The query decoded, and the decoded value broke a rule of its type.
    ValidationFailure(V),
}

impl<D, V> InternalError<D, V> {
    /// The stage that failed, by the variant of the failure.
    pub open spec fn spec_kind(&self) -> FailureKind {
        match self {
            InternalError::DecodeFailure(_) => FailureKind::Decode,
            InternalError::ValidationFailure(_) => FailureKind::Validation,
        }
    }

    /// The stage that failed.
    #[verifier::when_used_as_spec(spec_kind)]
    pub fn kind(&self) -> (kind: FailureKind)
        ensures
            kind == self.spec_kind(),
    {
        match self {
            InternalError::DecodeFailure(_) => FailureKind::Decode,
            InternalError::ValidationFailure(_) => FailureKind::Validation,
        }
    }
}

/// The transport error of the default conversion: a rejection as a bad
/// request that keeps the failure it stands for, so that a decode failure
/// and a validation failure stay apart.
#[derive(Debug, PartialEq, Eq)]
pub struct BadRequest<D, V> {
    pub cause: InternalError<D, V>,
}

impl<D, V> BadRequest<D, V> {
    /// The status code of the rejection, `BAD_REQUEST` whatever the cause.
    pub fn status(&self) -> (code: u16)
        ensures
            code == BAD_REQUEST,
    {
        BAD_REQUEST
    }

    /// The stage whose failure is rejected.
    pub fn kind(&self) -> (kind: FailureKind)
        ensures
            kind == self.cause.kind(),
    {
        self.cause.kind()
    }
}

impl<D, V> From<InternalError<D, V>> for BadRequest<D, V> {
    /// The default conversion: the failure becomes the rejection's cause.
    fn from(cause: InternalError<D, V>) -> (rejection: Self) {
        BadRequest { cause }
    }
}

impl<D, V> vstd::std_specs::convert::FromSpecImpl<InternalError<D, V>> for BadRequest<D, V> {
    open spec fn obeys_from_spec() -> bool {
        true
    }

    open spec fn from_spec(cause: InternalError<D, V>) -> Self {
        BadRequest { cause }
    }
}

/// What `bridge` may return for `err`: with a hook, a result of the hook on
/// `err` and `ctx`; without one, the result of the transport error's own
/// conversion from `err`.
pub open spec fn bridged<D, V, C, E, H>(
    err: InternalError<D, V>,
    hook: Option<&H>,
    ctx: &C,
    out: E,
) -> bool where H: Fn(InternalError<D, V>, &C) -> E, E: From<InternalError<D, V>> {
    match hook {
        Some(h) => h.ensures((err, ctx), out),
        None => {
            &&& call_ensures(E::from, (err,), out)
            &&& E::obeys_from_spec() ==> out == E::from_spec(err)
        },
    }
}

/// Turns a failure of the pipeline into the transport error `E`.
///
/// Where a hook is configured it is called with the failure and the request
/// context, and its result is returned as it is. Otherwise the failure goes
/// through `E`'s conversion from `InternalError`.
pub fn bridge<D, V, C, E, H>(err: InternalError<D, V>, hook: Option<&H>, ctx: &C) -> (out: E) where
    H: Fn(InternalError<D, V>, &C) -> E,
    E: From<InternalError<D, V>>,

    requires
        hook matches Some(h) ==> h.requires((err, ctx)),
    ensures
        bridged(err, hook, ctx, out),
{
    match hook {
        Some(h) => h(err, ctx),
        None => E::from(err),
    }
}

} // verus!
