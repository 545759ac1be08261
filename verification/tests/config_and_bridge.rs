use validated_query::config::DEFAULT_MAX_DEPTH;
use validated_query::error::BAD_REQUEST;
use validated_query::{
    bridge, resolve, BadRequest, FailureKind, InternalError, RouteConfig, StructuralConfig,
};

type Failure = InternalError<String, Vec<String>>;
type Hook = fn(Failure, &u32) -> (u16, String);

/// A transport error of the test's own: a status and a body.
#[derive(Debug, PartialEq)]
struct Plain(u16, String);

impl From<Failure> for Plain {
    fn from(err: Failure) -> Self {
        match err {
            InternalError::DecodeFailure(detail) => Plain(400, detail),
            InternalError::ValidationFailure(details) => Plain(400, details.join(",")),
        }
    }
}

#[test]
fn process_default_allows_depth_five_and_is_strict() {
    let config = StructuralConfig::default();
    assert_eq!(DEFAULT_MAX_DEPTH, 5);
    assert_eq!(config.max_depth, 5);
    assert!(config.strict);
    assert_eq!(config, StructuralConfig::new(5, true));
}

#[test]
fn new_config_holds_what_it_was_given() {
    let config = StructuralConfig::new(0, false);
    assert_eq!(config.max_depth, 0);
    assert!(!config.strict);
    let wide = StructuralConfig::new(usize::MAX, true);
    assert_eq!(wide.max_depth, usize::MAX);
    assert!(wide.strict);
}

#[test]
fn new_route_has_default_settings_and_no_hook() {
    let route: RouteConfig<Hook> = RouteConfig::new();
    assert_eq!(route.structural_config, StructuralConfig::default());
    assert!(route.error_hook.is_none());
    let other: RouteConfig<Hook> = RouteConfig::default();
    assert_eq!(other.structural_config, StructuralConfig::default());
    assert!(other.error_hook.is_none());
}

#[test]
fn route_builders_change_one_option_each() {
    let route: RouteConfig<u8> = RouteConfig::new().with_error_hook(7);
    assert_eq!(route.structural_config, StructuralConfig::default());
    assert_eq!(route.error_hook, Some(7));
    let route = route.with_structural_config(StructuralConfig::new(2, false));
    assert_eq!(route.structural_config, StructuralConfig::new(2, false));
    assert_eq!(route.error_hook, Some(7));
    let route = route.with_error_hook(9);
    assert_eq!(route.structural_config, StructuralConfig::new(2, false));
    assert_eq!(route.error_hook, Some(9));
}

#[test]
fn resolve_without_a_route_gives_the_default_and_no_hook() {
    let default = StructuralConfig::new(3, false);
    let (config, hook) = resolve::<u8>(None, &default);
    assert_eq!(config, default);
    assert_eq!(hook, None);
}

#[test]
fn resolve_with_a_route_gives_its_settings_and_hook() {
    let default = StructuralConfig::new(3, false);
    let route: RouteConfig<u8> = RouteConfig::new()
        .with_structural_config(StructuralConfig::new(1, true))
        .with_error_hook(42);
    let (config, hook) = resolve(Some(&route), &default);
    assert_eq!(config, StructuralConfig::new(1, true));
    assert_eq!(hook, Some(&42));
}

#[test]
fn resolve_with_a_hookless_route_gives_no_hook() {
    let default = StructuralConfig::new(3, false);
    let route: RouteConfig<u8> =
        RouteConfig::new().with_structural_config(StructuralConfig::new(8, true));
    let (config, hook) = resolve(Some(&route), &default);
    assert_eq!(config, StructuralConfig::new(8, true));
    assert_eq!(hook, None);
}

#[test]
fn resolve_lends_the_route_hook() {
    let route: RouteConfig<String> = RouteConfig::new().with_error_hook(String::from("hook"));
    let default = StructuralConfig::default();
    let (_, first) = resolve(Some(&route), &default);
    let (_, second) = resolve(Some(&route), &default);
    let kept = route.error_hook.as_ref().expect("the route keeps its hook");
    assert!(std::ptr::eq(first.expect("lent"), kept));
    assert!(std::ptr::eq(second.expect("lent again"), kept));
}

#[test]
fn kind_tells_the_stages_apart() {
    let decode: Failure = InternalError::DecodeFailure(String::from("bad"));
    let validation: Failure = InternalError::ValidationFailure(vec![String::from("id")]);
    assert_eq!(decode.kind(), FailureKind::Decode);
    assert_eq!(validation.kind(), FailureKind::Validation);
    assert_ne!(decode.kind(), validation.kind());
}

#[test]
fn bad_request_keeps_its_cause() {
    let rejection: BadRequest<String, Vec<String>> =
        BadRequest::from(InternalError::ValidationFailure(vec![String::from("id")]));
    assert_eq!(BAD_REQUEST, 400);
    assert_eq!(rejection.status(), 400);
    assert_eq!(rejection.kind(), FailureKind::Validation);
    assert_eq!(rejection.cause, InternalError::ValidationFailure(vec![String::from("id")]));
    let other: BadRequest<String, Vec<String>> =
        BadRequest::from(InternalError::DecodeFailure(String::from("id")));
    assert_eq!(other.status(), 400);
    assert_eq!(other.kind(), FailureKind::Decode);
    assert_eq!(other.cause, InternalError::DecodeFailure(String::from("id")));
}

#[test]
fn bridge_without_a_hook_converts() {
    let none: Option<&fn(Failure, &u32) -> Plain> = None;
    let out: Plain = bridge(InternalError::DecodeFailure(String::from("depth")), none, &1);
    assert_eq!(out, Plain(400, String::from("depth")));
    let out: Plain = bridge(
        InternalError::ValidationFailure(vec![String::from("id"), String::from("page")]),
        none,
        &1,
    );
    assert_eq!(out, Plain(400, String::from("id,page")));
}

#[test]
fn bridge_without_a_hook_gives_a_bad_request() {
    let none: Option<&fn(Failure, &u32) -> BadRequest<String, Vec<String>>> = None;
    let out = bridge(InternalError::DecodeFailure(String::from("depth")), none, &1);
    assert_eq!(out, BadRequest { cause: InternalError::DecodeFailure(String::from("depth")) });
}

#[test]
fn bridge_with_a_hook_returns_what_the_hook_returns() {
    let hook = |err: Failure, ctx: &u32| match err {
        InternalError::DecodeFailure(detail) => Plain(500 + *ctx as u16, detail),
        InternalError::ValidationFailure(details) => Plain(422, details.concat()),
    };
    let out = bridge(InternalError::DecodeFailure(String::from("depth")), Some(&hook), &3);
    assert_eq!(out, Plain(503, String::from("depth")));
    let out = bridge(
        InternalError::ValidationFailure(vec![String::from("a"), String::from("b")]),
        Some(&hook),
        &3,
    );
    assert_eq!(out, Plain(422, String::from("ab")));
}
