//! Badge composition: the bundled font and the renderer that turns a
//! (label, message, color) triple into a finished SVG document.
//!
//! The vector-path engine and the font parser are outside collaborators;
//! what they compute is deterministic in the font bytes and the strings,
//! and is given a name here so that the pipeline's contracts can speak of
//! the exact image produced.

use vstd::prelude::*;

verus! {

#[verifier::external_type_specification]
#[verifier::external_body]
pub struct ExFontArc(ab_glyph::FontArc);

/// The SVG badge document produced for a font (given by its raw bytes), a
/// label, a message, and a message-segment color token; a pure function of
/// these four values.
pub uninterp spec fn rendered_badge(
    font: Seq<u8>,
    label: Seq<char>,
    message: Seq<char>,
    color: Seq<char>,
) -> Seq<char>;

/// A character of Unicode category Cc, which the renderer's text
/// measurement skips.
pub open spec fn is_control_char(c: char) -> bool {
    (c as int) < 32 || (127 <= c as int && c as int <= 159)
}

/// The renderer can measure the text: at least one character survives the
/// control-character filter.
pub open spec fn has_printable(s: Seq<char>) -> bool {
    exists|i: int| 0 <= i < s.len() && !is_control_char(#[trigger] s[i])
}

/// The process-wide badge font: the raw bytes it was parsed from and the
/// parsed handle the renderer consumes. Loaded once at startup and shared
/// read-only; the bytes identify the font in every rendering contract.
pub struct BadgeFont {
    bytes: Vec<u8>,
    handle: ab_glyph::FontArc,
}

impl BadgeFont {
    /// The raw bytes this font was parsed from.
    pub closed spec fn spec_bytes(self) -> Seq<u8> {
        self.bytes@
    }

    /// Relies on ab_glyph::FontArc::try_from_vec for parsing the bytes
    /// into a font handle; which byte sequences parse is the font
    /// library's decision, so no success is promised.
    #[verifier::external_body]
    pub fn from_bytes(data: Vec<u8>) -> (r: Option<BadgeFont>)
        ensures
            r is Some ==> r->0.spec_bytes() == data@,
    {
        match ab_glyph::FontArc::try_from_vec(data.clone()) {
            Ok(handle) => Some(BadgeFont { bytes: data, handle }),
            Err(_) => None,
        }
    }
}

/// Relies on shield_maker::Renderer::render: the plastic-style SVG badge
/// for the given font, label, message and message color, deterministic in
/// those values (the renderer reads nothing else). Its text measurement
/// requires some printable character in each text segment.
#[verifier::external_body]
pub(crate) fn badge_for(font: &BadgeFont, label: &str, message: &str, color: &str) -> (r: String)
    requires
        has_printable(label@),
        has_printable(message@),
    ensures
        r@ == rendered_badge(font.spec_bytes(), label@, message@, color@),
{
    let meta = shield_maker::Metadata {
        style: shield_maker::Style::Plastic,
        label,
        message,
        font: font.handle.clone(),
        font_family: shield_maker::FontFamily::Default,
        label_color: None,
        color: Some(color),
    };
    shield_maker::Renderer::render(&meta)
}

/// Rendering reads nothing but its inputs: two renderings from the same
/// font bytes, label, message and color are byte-identical.
pub proof fn lemma_render_deterministic(
    font: Seq<u8>,
    label: Seq<char>,
    message: Seq<char>,
    color: Seq<char>,
    r1: Seq<char>,
    r2: Seq<char>,
)
    requires
        r1 == rendered_badge(font, label, message, color),
        r2 == rendered_badge(font, label, message, color),
    ensures
        r1 == r2,
{
}

} // verus!
