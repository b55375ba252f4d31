//! The classification rules: mapping a raw metric string to the color token
//! and label text drawn on a badge, one rule per metric kind.
//!
//! Both rules are total: any unparseable raw value degrades to the
//! "unknown" classification instead of failing.

use vstd::prelude::*;
use vstd::string::StringExecFns;
use crate::numbers::{spec_parse_i8, dec_i8, parse_i8, i8_to_string, lemma_parse_dec_i8};

verus! {

/// The parsed value of a raw metric string, with -1 as the sentinel for
/// anything that does not parse as a signed 8-bit integer.
pub open spec fn spec_metric_value(s: Seq<char>) -> int {
    match spec_parse_i8(s) {
        Some(v) => v,
        None => -1,
    }
}

/// The color token for a parsed coverage value.
pub open spec fn spec_coverage_color(v: int) -> Seq<char> {
    if v == -1 {
        "lightgrey"@
    } else if 90 <= v && v <= 100 {
        "brightgreen"@
    } else if 70 <= v && v <= 89 {
        "green"@
    } else if 50 <= v && v <= 69 {
        "yellow"@
    } else {
        "red"@
    }
}

/// The label text for a parsed coverage value: the value re-rendered with a
/// percent sign, or "unknown" for the sentinel.
pub open spec fn spec_coverage_label(v: int) -> Seq<char> {
    if v == -1 {
        "unknown"@
    } else {
        dec_i8(v) + "%"@
    }
}

/// The color token for a parsed issue count.
pub open spec fn spec_issues_color(v: int) -> Seq<char> {
    if v == -1 {
        "lightgrey"@
    } else if v == 0 {
        "brightgreen"@
    } else {
        "important"@
    }
}

/// Classify a raw coverage value as a (color, label) pair. The label shows
/// the parsed value, so "090" is displayed as "90%".
pub fn format_coverage(cov: String) -> (r: (String, String))
    ensures
        r.0@ == spec_coverage_color(spec_metric_value(cov@)),
        r.1@ == spec_coverage_label(spec_metric_value(cov@)),
{
    let parsed_coverage: i8 = match parse_i8(cov.as_str()) {
        Some(v) => v,
        None => -1,
    };
    let color: &'static str = if parsed_coverage == -1 {
        "lightgrey"
    } else if 90 <= parsed_coverage && parsed_coverage <= 100 {
        "brightgreen"
    } else if 70 <= parsed_coverage && parsed_coverage <= 89 {
        "green"
    } else if 50 <= parsed_coverage && parsed_coverage <= 69 {
        "yellow"
    } else {
        "red"
    };
    let label: String = if parsed_coverage == -1 {
        String::from_str("unknown")
    } else {
        let mut l = i8_to_string(parsed_coverage);
        l.append("%");
        l
    };
    (String::from_str(color), label)
}

/// Classify a raw issue count as a (color, label) pair. The label is the
/// raw string exactly as given, even when it parses (so "007" is classified
/// by its value 7 but displayed as "007").
pub fn format_issues(num: String) -> (r: (String, String))
    ensures
        r.0@ == spec_issues_color(spec_metric_value(num@)),
        r.1 == num,
{
    let parsed: i8 = match parse_i8(num.as_str()) {
        Some(v) => v,
        None => -1,
    };
    let color: &'static str = if parsed == -1 {
        "lightgrey"
    } else if parsed == 0 {
        "brightgreen"
    } else {
        "important"
    };
    (String::from_str(color), num)
}

/// For every signed 8-bit value, classifying its decimal rendering as
/// coverage picks the color of its range — brightgreen exactly on 90..100,
/// green exactly on 70..89, yellow exactly on 50..69, red otherwise — and
/// labels it "{value}%". The sentinel value -1 is excluded: its rendering
/// "-1" is classified as unknown by design.
pub proof fn lemma_coverage_classification(v: int)
    requires
        -128 <= v <= 127,
        v != -1,
    ensures
        spec_metric_value(dec_i8(v)) == v,
        spec_coverage_color(v) == "brightgreen"@ <==> 90 <= v <= 100,
        spec_coverage_color(v) == "green"@ <==> 70 <= v <= 89,
        spec_coverage_color(v) == "yellow"@ <==> 50 <= v <= 69,
        spec_coverage_color(v) == "red"@ <==> (v < 50 || v > 100),
        spec_coverage_label(v) == dec_i8(v) + "%"@,
{
    lemma_parse_dec_i8(v);
    reveal_strlit("lightgrey");
    reveal_strlit("brightgreen");
    reveal_strlit("green");
    reveal_strlit("yellow");
    reveal_strlit("red");
    assert("brightgreen"@.len() == 11);
    assert("green"@.len() == 5);
    assert("yellow"@.len() == 6);
    assert("red"@.len() == 3);
    assert("lightgrey"@.len() == 9);
}

/// Any raw value that does not parse as a signed 8-bit integer — the empty
/// string and every non-numeric string among them — is classified as
/// coverage (lightgrey, "unknown").
pub proof fn lemma_coverage_unknown(s: Seq<char>)
    requires
        spec_parse_i8(s) is None,
    ensures
        spec_coverage_color(spec_metric_value(s)) == "lightgrey"@,
        spec_coverage_label(spec_metric_value(s)) == "unknown"@,
{
}

/// The issue-count color: brightgreen exactly when the raw value parses to
/// 0, important for every other parsed value, lightgrey when the raw value
/// does not parse. The parsed value -1 is excluded from the "important"
/// clause: it coincides with the unparseable sentinel and is classified
/// lightgrey by design.
pub proof fn lemma_issues_classification(s: Seq<char>)
    ensures
        spec_parse_i8(s) == Some(0int) ==> spec_issues_color(spec_metric_value(s))
            == "brightgreen"@,
        (spec_parse_i8(s) is Some && spec_parse_i8(s)->0 != 0 && spec_parse_i8(s)->0 != -1)
            ==> spec_issues_color(spec_metric_value(s)) == "important"@,
        spec_parse_i8(s) is None ==> spec_issues_color(spec_metric_value(s)) == "lightgrey"@,
{
}

} // verus!
