use imgproxy::allowlist::HostAllowlist;
use imgproxy::errors::Error;
use imgproxy::fetch::check_response_meta;
use imgproxy::pipeline::{parse_mode, plan_request, Mode, ResizeRequest};
use imgproxy::urlhost::ParsedUrl;

fn allowlist() -> HostAllowlist {
    HostAllowlist::new(vec!["good.example".to_string()])
}

fn url(s: &str) -> ParsedUrl {
    ParsedUrl::parse(s).expect("test URL must parse")
}

#[test]
fn mode_defaults_to_fit() {
    assert_eq!(parse_mode(&None), Ok(Mode::Fit));
}

#[test]
fn mode_accepts_fit_and_fill_only() {
    assert_eq!(parse_mode(&Some("fit".to_string())), Ok(Mode::Fit));
    assert_eq!(parse_mode(&Some("fill".to_string())), Ok(Mode::Fill));
    assert_eq!(parse_mode(&Some("flip".to_string())), Err(Error::InvalidInput));
    assert_eq!(parse_mode(&Some("FIT".to_string())), Err(Error::InvalidInput));
    assert_eq!(parse_mode(&Some("".to_string())), Err(Error::InvalidInput));
}

#[test]
fn url_parsing_rejects_non_urls() {
    assert!(ParsedUrl::parse("not a url").is_none());
    assert!(ParsedUrl::parse("").is_none());
    assert!(ParsedUrl::parse("https://good.example/img.jpg").is_some());
}

#[test]
fn is_allowed_matches_exactly() {
    let allow = allowlist();
    assert!(allow.is_allowed(&url("https://good.example/img.jpg")));
    assert!(!allow.is_allowed(&url("https://evil.example/img.jpg")));
    assert!(!allow.is_allowed(&url("https://sub.good.example/img.jpg")));
    assert!(!allow.is_allowed(&url("https://good.example.evil/img.jpg")));
}

#[test]
fn is_allowed_is_false_without_host() {
    let allow = allowlist();
    // mailto and data URLs parse but carry no host component.
    assert!(!allow.is_allowed(&url("mailto:someone@good.example")));
    assert!(!allow.is_allowed(&url("data:text/plain,hello")));
}

#[test]
fn plan_accepts_a_valid_request() {
    let req = ResizeRequest {
        url: url("https://good.example/img.jpg"),
        mode: Some("fill".to_string()),
        height: Some(100),
        width: Some(200),
    };
    assert_eq!(plan_request(&req, &allowlist()), Ok(Mode::Fill));
}

#[test]
fn plan_rejects_unknown_mode_before_host() {
    // Even with a forbidden host, a bad mode is reported first and nothing
    // would be fetched.
    let req = ResizeRequest {
        url: url("https://evil.example/img.jpg"),
        mode: Some("stretch".to_string()),
        height: None,
        width: None,
    };
    assert_eq!(plan_request(&req, &allowlist()), Err(Error::InvalidInput));
}

#[test]
fn plan_rejects_zero_dimensions() {
    let req = ResizeRequest {
        url: url("https://good.example/img.jpg"),
        mode: None,
        height: Some(0),
        width: Some(200),
    };
    assert_eq!(plan_request(&req, &allowlist()), Err(Error::InvalidInput));
}

#[test]
fn plan_rejects_forbidden_host() {
    let req = ResizeRequest {
        url: url("https://evil.example/img.jpg"),
        mode: Some("fit".to_string()),
        height: Some(100),
        width: Some(200),
    };
    assert_eq!(plan_request(&req, &allowlist()), Err(Error::ForbiddenHost));
}

#[test]
fn plan_rejects_hostless_url() {
    let req = ResizeRequest {
        url: url("mailto:someone@good.example"),
        mode: None,
        height: None,
        width: None,
    };
    assert_eq!(plan_request(&req, &allowlist()), Err(Error::ForbiddenHost));
}

#[test]
fn response_meta_rejects_error_statuses() {
    assert_eq!(check_response_meta(404, Some(1000)), Err(Error::Upstream));
    assert_eq!(check_response_meta(500, Some(1000)), Err(Error::Upstream));
    assert_eq!(check_response_meta(301, Some(1000)), Err(Error::Upstream));
    assert_eq!(check_response_meta(199, Some(1000)), Err(Error::Upstream));
}

#[test]
fn response_meta_requires_a_positive_declared_length() {
    assert_eq!(check_response_meta(200, None), Err(Error::SizeUnknown));
    assert_eq!(check_response_meta(200, Some(0)), Err(Error::SizeUnknown));
    assert_eq!(check_response_meta(204, None), Err(Error::SizeUnknown));
}

#[test]
fn response_meta_checks_status_before_length() {
    assert_eq!(check_response_meta(404, None), Err(Error::Upstream));
    assert_eq!(check_response_meta(500, Some(0)), Err(Error::Upstream));
}

#[test]
fn response_meta_passes_success_with_length() {
    assert_eq!(check_response_meta(200, Some(1)), Ok(1));
    assert_eq!(check_response_meta(200, Some(123456)), Ok(123456));
    assert_eq!(check_response_meta(299, Some(7)), Ok(7));
}
