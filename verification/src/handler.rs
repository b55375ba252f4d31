//! The request decision core: what response each badge endpoint returns
//! for each outcome of the metric fetch. The HTTP runtime performs the
//! fetch and the wire transfer; every decision in between is made and
//! verified here.

use vstd::prelude::*;
use vstd::string::StringExecFns;
use crate::errors::MyError;
use crate::badge::{BadgeFont, badge_for, rendered_badge, has_printable, is_control_char};
use crate::formatters::{
    format_coverage, format_issues, spec_metric_value, spec_coverage_color, spec_coverage_label,
    spec_issues_color,
};

verus! {

/// An HTTP response as the pipeline decides it: status, the headers the
/// pipeline sets (absent means the runtime's default), and the body.
pub struct Reply {
    pub status: u16,
    pub content_type: Option<String>,
    pub cache_control: Option<String>,
    pub body: String,
}

/// A successful badge response carrying the given SVG document: status
/// 200, the SVG content type, and a five-minute shared/private cache
/// allowance.
pub open spec fn is_svg_reply(r: Reply, body: Seq<char>) -> bool {
    &&& r.status == 200
    &&& r.content_type is Some
    &&& r.content_type->0@ == "image/svg+xml;charset=utf-8"@
    &&& r.cache_control is Some
    &&& r.cache_control->0@ == "max-age=300, s-maxage=300"@
    &&& r.body@ == body
}

/// The response surfacing an upstream error: its status code and short
/// body, and on internal errors the deliberate content-type marker that
/// the error-handling layer stamps on the response.
pub open spec fn is_error_reply(r: Reply, e: MyError) -> bool {
    &&& r.status == e.spec_status_code()
    &&& r.body@ == e.spec_message()
    &&& r.cache_control is None
    &&& e == MyError::InternalError ==> r.content_type is Some && r.content_type->0@ == "Error"@
    &&& e == MyError::NotFound ==> r.content_type is None
}

/// Wrap a rendered badge as a cacheable SVG response.
pub fn response_for_svg(svg: String) -> (r: Reply)
    ensures
        is_svg_reply(r, svg@),
{
    Reply {
        status: 200,
        content_type: Some(String::from_str("image/svg+xml;charset=utf-8")),
        cache_control: Some(String::from_str("max-age=300, s-maxage=300")),
        body: svg,
    }
}

/// The plain response for an upstream error: its status code and its
/// short human-readable message, nothing else set.
pub fn error_response(e: &MyError) -> (r: Reply)
    ensures
        r.status == e.spec_status_code(),
        r.body@ == e.spec_message(),
        r.content_type is None,
        r.cache_control is None,
{
    Reply {
        status: e.status_code(),
        content_type: None,
        cache_control: None,
        body: e.message(),
    }
}

/// Stamp the content-type marker that distinguishes error responses for
/// upstream monitoring; everything else is left as it was.
pub fn add_error_header(res: &mut Reply)
    ensures
        final(res).content_type is Some,
        final(res).content_type->0@ == "Error"@,
        final(res).status == old(res).status,
        final(res).cache_control == old(res).cache_control,
        final(res).body == old(res).body,
{
    res.content_type = Some(String::from_str("Error"));
}

/// The error branch shared by both badge endpoints: surface the error
/// with its status and body, stamping the content-type marker on
/// internal errors as the error-handling layer does.
fn reply_for_error(e: &MyError) -> (r: Reply)
    ensures
        is_error_reply(r, *e),
{
    let mut r = error_response(e);
    if r.status == 500 {
        add_error_header(&mut r);
    }
    r
}

/// Every coverage label has a character that text measurement keeps: the
/// 'u' of "unknown", or the final '%'.
proof fn lemma_coverage_label_printable(v: int)
    ensures
        has_printable(spec_coverage_label(v)),
{
    if v == -1 {
        reveal_strlit("unknown");
        assert(!is_control_char("unknown"@[0]));
    } else {
        reveal_strlit("%");
        let s = spec_coverage_label(v);
        assert(s[s.len() - 1] == '%');
        assert(!is_control_char(s[s.len() - 1]));
    }
}

/// The coverage endpoint's decision: for a fetched raw value, classify it
/// and respond with the rendered badge; for a fetch error, surface that
/// error.
pub fn coverage(fetch: Result<String, MyError>, font: &BadgeFont) -> (r: Reply)
    ensures
        fetch is Ok ==> is_svg_reply(
            r,
            rendered_badge(
                font.spec_bytes(),
                "coverage"@,
                spec_coverage_label(spec_metric_value(fetch->Ok_0@)),
                spec_coverage_color(spec_metric_value(fetch->Ok_0@)),
            ),
        ),
        fetch is Err ==> is_error_reply(r, fetch->Err_0),
{
    match fetch {
        Ok(value) => {
            let (color, label) = format_coverage(value);
            proof {
                reveal_strlit("coverage");
                assert(!is_control_char("coverage"@[0]));
                lemma_coverage_label_printable(spec_metric_value(value@));
            }
            let svg = badge_for(font, "coverage", label.as_str(), color.as_str());
            response_for_svg(svg)
        },
        Err(e) => reply_for_error(&e),
    }
}

/// The issues endpoint's decision: like coverage, but the badge shows the
/// raw value itself. The fetched value must have a character that text
/// measurement keeps; the renderer cannot lay out a label without one.
pub fn issues(fetch: Result<String, MyError>, font: &BadgeFont) -> (r: Reply)
    requires
        fetch is Ok ==> has_printable(fetch->Ok_0@),
    ensures
        fetch is Ok ==> is_svg_reply(
            r,
            rendered_badge(
                font.spec_bytes(),
                "issues"@,
                fetch->Ok_0@,
                spec_issues_color(spec_metric_value(fetch->Ok_0@)),
            ),
        ),
        fetch is Err ==> is_error_reply(r, fetch->Err_0),
{
    match fetch {
        Ok(value) => {
            let (color, label) = format_issues(value);
            proof {
                reveal_strlit("issues");
                assert(!is_control_char("issues"@[0]));
            }
            let svg = badge_for(font, "issues", label.as_str(), color.as_str());
            response_for_svg(svg)
        },
        Err(e) => reply_for_error(&e),
    }
}

/// The liveness endpoint: a fixed plain-text response, touching no
/// pipeline component.
pub fn health() -> (r: Reply)
    ensures
        r.status == 200,
        r.content_type is Some,
        r.content_type->0@ == "text/plain"@,
        r.cache_control is None,
        r.body@ == "Ok"@,
{
    Reply {
        status: 200,
        content_type: Some(String::from_str("text/plain")),
        cache_control: None,
        body: String::from_str("Ok"),
    }
}

} // verus!
