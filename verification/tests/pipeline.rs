//! End-to-end pipeline scenarios: the deterministic metric source double
//! feeding the classifier and the renderer, and the decisions of every
//! endpoint.

use badger::api::FakeApi;
use badger::badge::BadgeFont;
use badger::handler::{coverage, health, issues, Reply};

/// A minimal TrueType font with a handful of glyphs and full metric
/// tables: enough for the renderer's text measurement. Kept inline so the
/// suite needs no file access.
fn font_bytes() -> Vec<u8> {
    vec![
        0, 1, 0, 0, 0, 7, 0, 64, 0, 2, 0, 48, 99, 109, 97, 112,
        0, 9, 0, 118, 0, 0, 1, 0, 0, 0, 0, 44, 103, 108, 121, 102,
        241, 203, 102, 152, 0, 0, 1, 52, 0, 0, 0, 92, 104, 101, 97, 100,
        242, 53, 221, 248, 0, 0, 0, 124, 0, 0, 0, 54, 104, 104, 101, 97,
        6, 97, 0, 202, 0, 0, 0, 180, 0, 0, 0, 36, 104, 109, 116, 120,
        4, 116, 0, 106, 0, 0, 0, 248, 0, 0, 0, 8, 108, 111, 99, 97,
        0, 46, 0, 20, 0, 0, 1, 44, 0, 0, 0, 6, 109, 97, 120, 112,
        0, 5, 0, 11, 0, 0, 0, 216, 0, 0, 0, 32, 0, 1, 0, 0,
        0, 1, 0, 0, 245, 156, 41, 68, 95, 15, 60, 245, 0, 2, 3, 232,
        0, 0, 0, 0, 180, 146, 244, 0, 0, 0, 0, 0, 220, 47, 166, 92,
        0, 6, 0, 0, 2, 88, 2, 188, 0, 0, 0, 3, 0, 2, 0, 0,
        0, 0, 0, 0, 0, 1, 0, 0, 4, 0, 254, 112, 0, 0, 2, 88,
        0, 6, 255, 255, 2, 88, 0, 1, 0, 0, 0, 0, 0, 0, 0, 0,
        0, 0, 0, 0, 0, 0, 0, 2, 0, 1, 0, 0, 0, 2, 0, 11,
        0, 2, 0, 0, 0, 0, 0, 0, 0, 0, 0, 0, 0, 0, 0, 0,
        0, 0, 0, 0, 0, 0, 0, 0, 2, 88, 0, 100, 2, 28, 0, 6,
        0, 0, 0, 1, 0, 0, 0, 3, 0, 0, 0, 12, 0, 4, 0, 32,
        0, 0, 0, 4, 0, 4, 0, 1, 0, 0, 0, 65, 255, 255, 0, 0,
        0, 65, 255, 255, 255, 192, 0, 1, 0, 0, 0, 0, 0, 0, 0, 20,
        0, 46, 0, 0, 0, 2, 0, 100, 0, 0, 2, 88, 2, 188, 0, 3,
        0, 7, 0, 0, 51, 17, 33, 17, 37, 33, 17, 33, 100, 1, 244, 254,
        52, 1, 164, 254, 92, 2, 188, 253, 68, 40, 2, 108, 0, 2, 0, 6,
        0, 0, 2, 29, 2, 144, 0, 2, 0, 10, 0, 0, 19, 51, 3, 1,
        19, 51, 19, 35, 39, 35, 7, 173, 196, 99, 254, 248, 218, 96, 221, 89,
        62, 239, 66, 1, 11, 1, 64, 253, 181, 2, 144, 253, 112, 200, 200, 0,
    ]
}

fn font() -> BadgeFont {
    BadgeFont::from_bytes(font_bytes()).expect("the embedded font must parse")
}

fn fetch_coverage(repo: &str) -> Reply {
    let api = FakeApi();
    coverage(api.coverage_for(repo.to_string()), &font())
}

fn fetch_issues(repo: &str) -> Reply {
    let api = FakeApi();
    issues(api.issues_for(repo.to_string()), &font())
}

#[test]
fn test_coverage_get() {
    let resp = fetch_coverage("u");
    assert!(200 <= resp.status && resp.status < 300);
}

#[test]
fn test_coverage_not_found() {
    let resp = fetch_coverage("404");
    assert_eq!(resp.status, 404);
}

#[test]
fn test_problem_get() {
    let resp = fetch_issues("u");
    assert!(200 <= resp.status && resp.status < 300);
}

#[test]
fn test_problem_not_found() {
    let resp = fetch_issues("404");
    assert_eq!(resp.status, 404);
}

#[test]
fn coverage_ninety_renders_brightgreen_badge() {
    let resp = fetch_coverage("90");
    assert_eq!(resp.status, 200);
    assert_eq!(resp.content_type.as_deref(), Some("image/svg+xml;charset=utf-8"));
    assert_eq!(resp.cache_control.as_deref(), Some("max-age=300, s-maxage=300"));
    assert!(resp.body.contains("<svg"));
    assert!(resp.body.contains("90%"));
    // brightgreen resolves to #4c1, written as rgba(68,204,17,1)
    assert!(resp.body.contains("rgba(68,204,17,1)"));
}

#[test]
fn coverage_unknown_value_degrades_gracefully() {
    let resp = fetch_coverage("u");
    assert_eq!(resp.status, 200);
    assert!(resp.body.contains("unknown"));
    // lightgrey resolves to #9f9f9f, written as rgba(159,159,159,1)
    assert!(resp.body.contains("rgba(159,159,159,1)"));
}

#[test]
fn issues_unknown_value_degrades_gracefully() {
    let resp = fetch_issues("u");
    assert_eq!(resp.status, 200);
    assert!(resp.body.contains("unknown"));
    assert!(resp.body.contains("rgba(159,159,159,1)"));
}

#[test]
fn issues_one_renders_important_badge() {
    let resp = fetch_issues("1");
    assert_eq!(resp.status, 200);
    assert!(resp.body.contains("issues: 1"));
    // important is an alias of orange #fe7d37, written as rgba(254,125,55,1)
    assert!(resp.body.contains("rgba(254,125,55,1)"));
}

#[test]
fn internal_error_gets_marker_content_type() {
    let resp = fetch_coverage("somewhere-else");
    assert_eq!(resp.status, 500);
    assert_eq!(resp.body, "internal error");
    assert_eq!(resp.content_type.as_deref(), Some("Error"));
}

#[test]
fn not_found_body_and_headers() {
    let resp = fetch_issues("404");
    assert_eq!(resp.status, 404);
    assert_eq!(resp.body, "not found");
    assert!(resp.content_type.is_none());
    assert!(resp.cache_control.is_none());
}

#[test]
fn render_is_deterministic() {
    let first = fetch_coverage("90");
    let second = fetch_coverage("90");
    assert_eq!(first.body, second.body);
    let third = fetch_issues("1");
    let fourth = fetch_issues("1");
    assert_eq!(third.body, fourth.body);
}

#[test]
fn render_output_is_an_svg_document_not_the_label() {
    let resp = fetch_coverage("90");
    assert_ne!(resp.body, "90%");
    assert_ne!(resp.body, "coverage");
    assert!(resp.body.starts_with("<svg"));
    assert!(resp.body.ends_with("</svg>"));
}

#[test]
fn health_is_ok_regardless_of_the_source() {
    let resp = health();
    assert_eq!(resp.status, 200);
    assert_eq!(resp.body, "Ok");
    assert_eq!(resp.content_type.as_deref(), Some("text/plain"));
}
