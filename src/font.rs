//! Measuring the text: how many pixels wide it renders in the matrix font.

use vstd::prelude::*;
use embedded_graphics::prelude::Point;
use u8g2_fonts::fonts::u8g2_font_standardized3x5_tr;
use u8g2_fonts::types::VerticalPosition;
use u8g2_fonts::FontRenderer;
use u8g2_fonts::LookupError;

verus! {

/// The longest text, in characters, that is measured. The font crate adds up
/// glyph advances (at most 128 pixels each) and line heights (at most 255) in
/// `i32` coordinates; below this length the sums stay far from overflow.
pub const MAX_TEXT_LEN: usize = 4194304;

/// What the font reports for a text: the width of the bounding box of its
/// drawn pixels (`None` when nothing is drawn), or the first character the
/// font has no glyph for.
pub uninterp spec fn text_extent(text: Seq<char>) -> Result<Option<u32>, char>;

/// Relies on `u8g2_fonts::FontRenderer::get_rendered_dimensions` with the
/// 3x5 standardized font: its result depends on the characters alone, and an
/// empty text draws nothing, so it has no bounding box. Its coordinates are
/// `i32`, so the text is kept short enough that they cannot overflow.
#[verifier::external_body]
fn rendered_extent(text: &str) -> (r: Result<Option<u32>, char>)
    requires
        text@.len() <= MAX_TEXT_LEN,
    ensures
        r == text_extent(text@),
        text@.len() == 0 ==> (r is Ok && r->Ok_0 is None),
{
    let renderer = FontRenderer::new::<u8g2_font_standardized3x5_tr>();
    match renderer.get_rendered_dimensions(text, Point::zero(), VerticalPosition::Top) {
        Ok(d) => Ok(d.bounding_box.map(|b| b.size.width)),
        Err(LookupError::GlyphNotFound(c)) => Err(c),
    }
}

/// Why a text cannot be animated.
#[derive(Clone, Copy, Debug, PartialEq, Eq, Structural)]
pub enum MeasureError {
    /// The font has no glyph for this character.
    GlyphNotFound(char),
    /// The text has more than `MAX_TEXT_LEN` characters.
    TextTooLong,
}

/// The scroll range for what the font reported: the bounding box's width, 0
/// when nothing is drawn.
pub open spec fn width_of_extent(e: Result<Option<u32>, char>) -> Result<u32, MeasureError> {
    match e {
        Ok(Some(w)) => Ok(w),
        Ok(None) => Ok(0),
        Err(c) => Err(MeasureError::GlyphNotFound(c)),
    }
}

/// The scroll range for what the font reported about a text.
pub fn content_width_from_extent(e: Result<Option<u32>, char>) -> (r: Result<u32, MeasureError>)
    ensures
        r == width_of_extent(e),
{
    match e {
        Ok(Some(w)) => Ok(w),
        Ok(None) => Ok(0),
        Err(c) => Err(MeasureError::GlyphNotFound(c)),
    }
}

/// The scroll range for a text: too long a text is refused, any other is
/// measured.
pub open spec fn width_of_text(text: Seq<char>) -> Result<u32, MeasureError> {
    if text.len() > MAX_TEXT_LEN {
        Err(MeasureError::TextTooLong)
    } else {
        width_of_extent(text_extent(text))
    }
}

/// The width in pixels that `text` renders to, which is the range the offset
/// bounces over. An empty text has width 0; a text of more than
/// `MAX_TEXT_LEN` characters is refused.
pub fn content_width(text: &str) -> (r: Result<u32, MeasureError>)
    ensures
        r == width_of_text(text@),
        text@.len() == 0 ==> r == Ok::<u32, MeasureError>(0),
        text@.len() > MAX_TEXT_LEN <==> r == Err::<u32, MeasureError>(MeasureError::TextTooLong),
{
    if text.unicode_len() > MAX_TEXT_LEN {
        return Err(MeasureError::TextTooLong);
    }
    let e = rendered_extent(text);
    content_width_from_extent(e)
}

} // verus!
