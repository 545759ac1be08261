//! The extraction pipeline: decode, validate, hand over or recover.

use vstd::prelude::*;
use crate::config::{resolve, resolved, RouteConfig, StructuralConfig};
use crate::error::{bridge, bridged, InternalError};
use crate::query::ValidateQsQuery;

verus! {

/// A type that the structural decoder can produce from a raw query.
///
/// The query grammar is the implementor's; the pipeline only asks for a
/// value of the type and takes what comes back.
pub trait Decodable: Sized {
    /// What the decoder reports when the query does not decode.
    type DecodeError;

    /// Decodes `raw` under the settings in `config`.
    fn decode(raw: &str, config: &StructuralConfig) -> Result<Self, Self::DecodeError>;
}

/// A type that declares rules its values have to meet.
pub trait Validatable {
    /// What validation reports about a value that breaks a rule.
    type ValidationError;

    /// Checks the value against the rules of its type.
    fn validate(&self) -> Result<(), Self::ValidationError>;
}

/// `decoded` is a result that `T`'s decoder can give for `raw` under
/// `config`.
pub open spec fn decode_yields<T: Decodable>(
    raw: &str,
    config: &StructuralConfig,
    decoded: Result<T, T::DecodeError>,
) -> bool {
    call_ensures(T::decode, (raw, config), decoded)
}

/// `verdict` is a result that `T`'s validation can give for `value`.
pub open spec fn validate_yields<T: Validatable>(
    value: &T,
    verdict: Result<(), T::ValidationError>,
) -> bool {
    call_ensures(T::validate, (value,), verdict)
}

/// `outcome` is a possible end of decoding `raw` under `config` and
/// validating what was decoded:
/// - a wrapper, over a value that the decoder gave and validation accepted;
/// - a decode failure, with the detail that the decoder gave;
/// - a validation failure, with the detail that validation gave for a
///   value that the decoder gave.
pub open spec fn pipeline_yields<T: Decodable + Validatable>(
    raw: &str,
    config: &StructuralConfig,
    outcome: Result<ValidateQsQuery<T>, InternalError<T::DecodeError, T::ValidationError>>,
) -> bool {
    match outcome {
        Ok(wrapped) => {
            &&& decode_yields::<T>(raw, config, Ok(wrapped@))
            &&& validate_yields::<T>(&wrapped@, Ok(()))
        },
        Err(InternalError::DecodeFailure(detail)) => decode_yields::<T>(raw, config, Err(detail)),
        Err(InternalError::ValidationFailure(detail)) => exists|value: T|
            {
                &&& #[trigger] decode_yields::<T>(raw, config, Ok(value))
                &&& validate_yields::<T>(&value, Err(detail))
            },
    }
}

/// `out` is a possible result of an extraction: a wrapper that the pipeline
/// can end with, or a transport error that the error bridge can give for a
/// failure that the pipeline can end with.
pub open spec fn extract_yields<T, C, E, H>(
    raw: &str,
    config: &StructuralConfig,
    hook: Option<&H>,
    ctx: &C,
    out: Result<ValidateQsQuery<T>, E>,
) -> bool where
    T: Decodable + Validatable,
    H: Fn(InternalError<T::DecodeError, T::ValidationError>, &C) -> E,
    E: From<InternalError<T::DecodeError, T::ValidationError>>,
{
    match out {
        Ok(wrapped) => pipeline_yields::<T>(raw, config, Ok(wrapped)),
        Err(rejection) => exists|err: InternalError<T::DecodeError, T::ValidationError>|
            {
                &&& #[trigger] pipeline_yields::<T>(raw, config, Err(err))
                &&& bridged(err, hook, ctx, rejection)
            },
    }
}

/// The last step for a decoded value, given the verdict of its validation:
/// an accepted value is wrapped and handed over, a refused one is dropped
/// and only the verdict's detail goes on, as a validation failure.
pub fn finalize<T, D, V>(value: T, verdict: Result<(), V>) -> (outcome: Result<
    ValidateQsQuery<T>,
    InternalError<D, V>,
>)
    ensures
        match verdict {
            Ok(_) => outcome matches Ok(wrapped) && wrapped@ == value,
            Err(detail) => outcome == Err::<ValidateQsQuery<T>, InternalError<D, V>>(
                InternalError::ValidationFailure(detail),
            ),
        },
{
    match verdict {
        Ok(_) => Ok(ValidateQsQuery::wrap(value)),
        Err(detail) => Err(InternalError::ValidationFailure(detail)),
    }
}

/// The unit type has one value.
proof fn unit_is_unique(unit: ())
    ensures
        unit == (),
{
}

/// Decodes `raw` under `config` and validates the decoded value, stopping at
/// the first failure.
pub fn decode_and_validate<T: Decodable + Validatable>(
    raw: &str,
    config: &StructuralConfig,
) -> (outcome: Result<ValidateQsQuery<T>, InternalError<T::DecodeError, T::ValidationError>>)
    ensures
        pipeline_yields::<T>(raw, config, outcome),
{
    match T::decode(raw, config) {
        Err(detail) => Err(InternalError::DecodeFailure(detail)),
        Ok(value) => {
            let verdict = value.validate();
            proof {
                assert(decode_yields::<T>(raw, config, Ok(value)));
                if let Ok(unit) = verdict {
                    unit_is_unique(unit);
                }
            }
            finalize(value, verdict)
        },
    }
}

/// Extracts a validated `T` from `raw`, or the transport error for the
/// failure: decode, validate, and on a failure of either, bridge.
pub fn extract<T, C, E, H>(
    raw: &str,
    config: &StructuralConfig,
    hook: Option<&H>,
    ctx: &C,
) -> (out: Result<ValidateQsQuery<T>, E>) where
    T: Decodable + Validatable,
    H: Fn(InternalError<T::DecodeError, T::ValidationError>, &C) -> E,
    E: From<InternalError<T::DecodeError, T::ValidationError>>,

    requires
        hook matches Some(h) ==> forall|err: InternalError<T::DecodeError, T::ValidationError>|
            #[trigger] pipeline_yields::<T>(raw, config, Err(err)) ==> h.requires((err, ctx)),
    ensures
        extract_yields::<T, C, E, H>(raw, config, hook, ctx, out),
{
    match decode_and_validate::<T>(raw, config) {
        Ok(wrapped) => Ok(wrapped),
        Err(err) => {
            Err(bridge(err, hook, ctx))
        },
    }
}

impl<T: Decodable + Validatable> ValidateQsQuery<T> {
    /// Extracts a validated `T` from the raw query of a request.
    ///
    /// `route` is the route configuration attached to the request, if any;
    /// it decides the decoding settings and the error hook as `resolve`
    /// says, with `default` as the process-wide settings. `ctx` is the
    /// request context, which is handed to the hook untouched.
    pub fn from_request<C, E, H>(
        raw: &str,
        route: Option<&RouteConfig<H>>,
        default: &StructuralConfig,
        ctx: &C,
    ) -> (out: Result<Self, E>) where
        H: Fn(InternalError<T::DecodeError, T::ValidationError>, &C) -> E,
        E: From<InternalError<T::DecodeError, T::ValidationError>>,

        requires
            resolved(route, *default).1 matches Some(h) ==> forall|
                err: InternalError<T::DecodeError, T::ValidationError>,
            |
                #[trigger] pipeline_yields::<T>(raw, &resolved(route, *default).0, Err(err))
                    ==> h.requires((err, ctx)),
        ensures
            extract_yields::<T, C, E, H>(
                raw,
                &resolved(route, *default).0,
                resolved(route, *default).1,
                ctx,
                out,
            ),
    {
        let (config, hook) = resolve(route, default);
        extract::<T, C, E, H>(raw, &config, hook, ctx)
    }
}

} // verus!
