//! What holds of every extraction, proved from the contracts of the
//! pipeline.

use vstd::prelude::*;
use vstd::std_specs::convert::FromSpec;
use crate::config::{resolved, RouteConfig, StructuralConfig};
use crate::error::{bridged, BadRequest, FailureKind, InternalError};
use crate::pipeline::{
    decode_yields, extract_yields, pipeline_yields, validate_yields, Decodable, Validatable,
};
use crate::query::ValidateQsQuery;

verus! {

/// A query that decodes to `value`, where `value` passes validation, is
/// extracted, and the wrapper holds `value`.
pub proof fn valid_query_is_extracted<T, C, E, H>(
    raw: &str,
    config: &StructuralConfig,
    hook: Option<&H>,
    ctx: &C,
    value: T,
    out: Result<ValidateQsQuery<T>, E>,
) where
    T: Decodable + Validatable,
    H: Fn(InternalError<T::DecodeError, T::ValidationError>, &C) -> E,
    E: From<InternalError<T::DecodeError, T::ValidationError>>,

    requires
        extract_yields::<T, C, E, H>(raw, config, hook, ctx, out),
        forall|decoded: Result<T, T::DecodeError>| #[trigger]
            decode_yields::<T>(raw, config, decoded) ==> decoded == Ok::<T, T::DecodeError>(value),
        forall|verdict: Result<(), T::ValidationError>| #[trigger]
            validate_yields::<T>(&value, verdict) ==> verdict is Ok,
    ensures
        out matches Ok(wrapped) && wrapped@ == value,
{
}

/// Whatever an extraction exposes is a value that the decoder gave for the
/// query and that validation accepted.
pub proof fn exposed_value_was_decoded_and_accepted<T, C, E, H>(
    raw: &str,
    config: &StructuralConfig,
    hook: Option<&H>,
    ctx: &C,
    out: Result<ValidateQsQuery<T>, E>,
) where
    T: Decodable + Validatable,
    H: Fn(InternalError<T::DecodeError, T::ValidationError>, &C) -> E,
    E: From<InternalError<T::DecodeError, T::ValidationError>>,

    requires
        extract_yields::<T, C, E, H>(raw, config, hook, ctx, out),
    ensures
        out matches Ok(wrapped) ==> decode_yields::<T>(raw, config, Ok(wrapped@))
            && validate_yields::<T>(&wrapped@, Ok(())),
{
}

/// A query that does not decode is rejected, with a transport error that
/// the bridge gives for a decode failure.
pub proof fn undecodable_query_is_rejected<T, C, E, H>(
    raw: &str,
    config: &StructuralConfig,
    hook: Option<&H>,
    ctx: &C,
    out: Result<ValidateQsQuery<T>, E>,
) where
    T: Decodable + Validatable,
    H: Fn(InternalError<T::DecodeError, T::ValidationError>, &C) -> E,
    E: From<InternalError<T::DecodeError, T::ValidationError>>,

    requires
        extract_yields::<T, C, E, H>(raw, config, hook, ctx, out),
        forall|value: T| !#[trigger] decode_yields::<T>(raw, config, Ok(value)),
    ensures
        out matches Err(rejection) && exists|detail: T::DecodeError|
            {
                &&& #[trigger] decode_yields::<T>(raw, config, Err(detail))
                &&& bridged(InternalError::DecodeFailure(detail), hook, ctx, rejection)
            },
{
}

/// A query that decodes only to values that validation refuses is rejected,
/// with a transport error that the bridge gives for a validation failure:
/// the refused value itself goes nowhere.
pub proof fn invalid_value_is_never_exposed<T, C, E, H>(
    raw: &str,
    config: &StructuralConfig,
    hook: Option<&H>,
    ctx: &C,
    out: Result<ValidateQsQuery<T>, E>,
) where
    T: Decodable + Validatable,
    H: Fn(InternalError<T::DecodeError, T::ValidationError>, &C) -> E,
    E: From<InternalError<T::DecodeError, T::ValidationError>>,

    requires
        extract_yields::<T, C, E, H>(raw, config, hook, ctx, out),
        forall|detail: T::DecodeError| !#[trigger] decode_yields::<T>(raw, config, Err(detail)),
        forall|value: T| #[trigger]
            decode_yields::<T>(raw, config, Ok(value)) ==> !validate_yields::<T>(&value, Ok(())),
    ensures
        out matches Err(rejection) && exists|detail: T::ValidationError|
            {
                &&& #[trigger] pipeline_yields::<T>(
                    raw,
                    config,
                    Err(InternalError::ValidationFailure(detail)),
                )
                &&& bridged(InternalError::ValidationFailure(detail), hook, ctx, rejection)
            },
{
}

/// Without a hook, and with `BadRequest` as the transport error, a query
/// that does not decode is rejected as a decode failure, with a detail that
/// the decoder gave: the rejection cannot be taken for that of a validation
/// failure.
pub proof fn undecodable_query_is_told_apart<T, C, H>(
    raw: &str,
    config: &StructuralConfig,
    ctx: &C,
    out: Result<ValidateQsQuery<T>, BadRequest<T::DecodeError, T::ValidationError>>,
) where
    T: Decodable + Validatable,
    H: Fn(InternalError<T::DecodeError, T::ValidationError>, &C) -> BadRequest<
        T::DecodeError,
        T::ValidationError,
    >,

    requires
        extract_yields::<T, C, BadRequest<T::DecodeError, T::ValidationError>, H>(
            raw,
            config,
            None,
            ctx,
            out,
        ),
        forall|value: T| !#[trigger] decode_yields::<T>(raw, config, Ok(value)),
    ensures
        out matches Err(rejection) && rejection.cause matches InternalError::DecodeFailure(detail)
            && decode_yields::<T>(raw, config, Err(detail)),
        out matches Err(rejection) && rejection.cause.kind() == FailureKind::Decode,
{
}

/// Without a hook, and with `BadRequest` as the transport error, the
/// rejection is the failure itself under the status of a bad request, so the
/// kind of the rejection is the kind of the failure.
pub proof fn default_rejection_keeps_the_failure<D, V, C, H>(
    err: InternalError<D, V>,
    ctx: &C,
    rejection: BadRequest<D, V>,
) where H: Fn(InternalError<D, V>, &C) -> BadRequest<D, V>
    requires
        bridged::<D, V, C, BadRequest<D, V>, H>(err, None, ctx, rejection),
    ensures
        rejection == (BadRequest { cause: err }),
        rejection.cause.kind() == err.kind(),
{
}

/// The default rejection of a decode failure is never the default rejection
/// of a validation failure.
pub proof fn default_rejections_differ_by_kind<D, V>(decode_detail: D, validation_detail: V)
    ensures
        BadRequest::<D, V>::from_spec(InternalError::DecodeFailure(decode_detail)).cause.kind()
            == FailureKind::Decode,
        BadRequest::<D, V>::from_spec(
            InternalError::ValidationFailure(validation_detail),
        ).cause.kind() == FailureKind::Validation,
        BadRequest::<D, V>::from_spec(InternalError::DecodeFailure(decode_detail))
            != BadRequest::<D, V>::from_spec(InternalError::ValidationFailure(validation_detail)),
{
}

/// Two configurations that differ only in the hook give, for a query that
/// fails, each what its own hook returns for a failure of the query and the
/// request context; and the configuration without a hook gives the
/// transport error's own conversion of a failure of the query.
pub proof fn hook_decides_the_rejection<T, C, E, H1, H2>(
    raw: &str,
    config: &StructuralConfig,
    first: &H1,
    second: &H2,
    ctx: &C,
    with_first: Result<ValidateQsQuery<T>, E>,
    with_second: Result<ValidateQsQuery<T>, E>,
    without: Result<ValidateQsQuery<T>, E>,
) where
    T: Decodable + Validatable,
    H1: Fn(InternalError<T::DecodeError, T::ValidationError>, &C) -> E,
    H2: Fn(InternalError<T::DecodeError, T::ValidationError>, &C) -> E,
    E: From<InternalError<T::DecodeError, T::ValidationError>>,

    requires
        forall|wrapped: ValidateQsQuery<T>| !#[trigger] pipeline_yields::<T>(raw, config, Ok(wrapped)),
        extract_yields::<T, C, E, H1>(raw, config, Some(first), ctx, with_first),
        extract_yields::<T, C, E, H2>(raw, config, Some(second), ctx, with_second),
        extract_yields::<T, C, E, H1>(raw, config, None, ctx, without),
    ensures
        with_first matches Err(rejection) && exists|
            err: InternalError<T::DecodeError, T::ValidationError>,
        |
            {
                &&& #[trigger] pipeline_yields::<T>(raw, config, Err(err))
                &&& first.ensures((err, ctx), rejection)
            },
        with_second matches Err(rejection) && exists|
            err: InternalError<T::DecodeError, T::ValidationError>,
        |
            {
                &&& #[trigger] pipeline_yields::<T>(raw, config, Err(err))
                &&& second.ensures((err, ctx), rejection)
            },
        without matches Err(rejection) && exists|
            err: InternalError<T::DecodeError, T::ValidationError>,
        |
            {
                &&& #[trigger] pipeline_yields::<T>(raw, config, Err(err))
                &&& call_ensures(E::from, (err,), rejection)
                &&& E::obeys_from_spec() ==> rejection == E::from_spec(err)
            },
{
}

/// With a route configuration attached, an extraction from a request is an
/// extraction under the route's settings and hook, whatever the process-wide
/// default is; so a query that does not decode under the route's settings is
/// rejected, also where it would decode under the default.
pub proof fn route_settings_govern_decoding<T, C, E, H>(
    raw: &str,
    route: &RouteConfig<H>,
    default: StructuralConfig,
    ctx: &C,
    out: Result<ValidateQsQuery<T>, E>,
) where
    T: Decodable + Validatable,
    H: Fn(InternalError<T::DecodeError, T::ValidationError>, &C) -> E,
    E: From<InternalError<T::DecodeError, T::ValidationError>>,

    requires
        extract_yields::<T, C, E, H>(
            raw,
            &resolved(Some(route), default).0,
            resolved(Some(route), default).1,
            ctx,
            out,
        ),
    ensures
        resolved(Some(route), default).0 == route.structural_config,
        extract_yields::<T, C, E, H>(
            raw,
            &route.structural_config,
            resolved(Some(route), default).1,
            ctx,
            out,
        ),
        out matches Ok(wrapped) ==> decode_yields::<T>(
            raw,
            &route.structural_config,
            Ok(wrapped@),
        ),
        (forall|value: T| !#[trigger] decode_yields::<T>(raw, &route.structural_config, Ok(value)))
            ==> out is Err,
{
}

/// Without a route configuration, an extraction from a request is an
/// extraction under the process-wide default, without a hook.
pub proof fn default_settings_apply_without_a_route<T, C, E, H>(
    raw: &str,
    default: StructuralConfig,
    ctx: &C,
    out: Result<ValidateQsQuery<T>, E>,
) where
    T: Decodable + Validatable,
    H: Fn(InternalError<T::DecodeError, T::ValidationError>, &C) -> E,
    E: From<InternalError<T::DecodeError, T::ValidationError>>,

    requires
        extract_yields::<T, C, E, H>(
            raw,
            &resolved::<H>(None, default).0,
            resolved::<H>(None, default).1,
            ctx,
            out,
        ),
    ensures
        extract_yields::<T, C, E, H>(raw, &default, None, ctx, out),
{
}

/// Two extractions of one query under one configuration end alike, both
/// with a wrapper or both with a transport error, as long as the decoder
/// gives one result for the query and validation one verdict, accept or
/// refuse, for a decoded value.
pub proof fn extraction_is_repeatable<T, C, E, H>(
    raw: &str,
    config: &StructuralConfig,
    hook: Option<&H>,
    ctx: &C,
    once: Result<ValidateQsQuery<T>, E>,
    again: Result<ValidateQsQuery<T>, E>,
) where
    T: Decodable + Validatable,
    H: Fn(InternalError<T::DecodeError, T::ValidationError>, &C) -> E,
    E: From<InternalError<T::DecodeError, T::ValidationError>>,

    requires
        extract_yields::<T, C, E, H>(raw, config, hook, ctx, once),
        extract_yields::<T, C, E, H>(raw, config, hook, ctx, again),
        forall|a: Result<T, T::DecodeError>, b: Result<T, T::DecodeError>|
            #[trigger] decode_yields::<T>(raw, config, a) && #[trigger] decode_yields::<T>(
                raw,
                config,
                b,
            ) ==> a == b,
        forall|value: T, a: Result<(), T::ValidationError>, b: Result<(), T::ValidationError>|
            decode_yields::<T>(raw, config, Ok(value)) && #[trigger] validate_yields::<T>(
                &value,
                a,
            ) && #[trigger] validate_yields::<T>(&value, b) ==> (a is Ok <==> b is Ok),
    ensures
        once is Ok <==> again is Ok,
{
}

} // verus!
