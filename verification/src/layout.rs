//! Screen geometry: centring panels and choosing how a countdown is drawn.
use vstd::prelude::*;
use crate::glyphs::{
    digit_glyph, digit_glyph_spec, font_height, font_width, glyph_list_rows, glyph_rows,
    lemma_fonts_fixed_size, lines_view, scale_digit_lines, scaled, stitch_glyphs, stitched,
    DigitFont,
};

verus! {

/// A rectangle of terminal cells, as `ratatui::layout::Rect` holds it.
#[derive(Clone, Copy, Debug, PartialEq, Eq, Structural)]
pub struct Rect {
    pub x: u16,
    pub y: u16,
    pub width: u16,
    pub height: u16,
}

/// The cell sizes that `tui_big_text::PixelSize` offers.
#[derive(Clone, Copy, Debug, PartialEq, Eq, Structural)]
pub enum PixelSize {
    Full,
    HalfHeight,
    HalfWidth,
    Quadrant,
    ThirdHeight,
    Sextant,
    QuarterHeight,
    Octant,
}

pub open spec fn sat_sub(a: int, b: int) -> int {
    if a >= b { a - b } else { 0 }
}

pub open spec fn min(a: int, b: int) -> int {
    if a <= b { a } else { b }
}

pub open spec fn max(a: int, b: int) -> int {
    if a >= b { a } else { b }
}

/// The width a panel of requested width `width` gets inside `area`.
pub open spec fn centered_width(area: Rect, width: u16) -> int {
    min(max(min(width as int, sat_sub(area.width as int, 4)), 20), area.width as int)
}

/// The height a panel of requested height `height` gets inside `area`.
pub open spec fn centered_height(area: Rect, height: u16) -> int {
    min(max(min(height as int, sat_sub(area.height as int, 2)), 10), area.height as int)
}

/// Whether `area` is large enough to hold a centred panel.
pub open spec fn can_center(area: Rect) -> bool {
    area.width >= 20 && area.height >= 10
}

/// The centred panel: the whole area when it is too small, else a panel of the requested
/// size clamped to the area (but at least 20 by 10), centred in it.
pub open spec fn centered_rect_spec(area: Rect, width: u16, height: u16) -> Rect {
    if !can_center(area) {
        area
    } else {
        let w = centered_width(area, width);
        let h = centered_height(area, height);
        Rect {
            x: (area.x + (area.width - w) / 2) as u16,
            y: (area.y + (area.height - h) / 2) as u16,
            width: w as u16,
            height: h as u16,
        }
    }
}

/// Whether the centred panel's corner is representable (the corner is an unsaturated
/// sum, so one beyond `u16::MAX` would overflow).
pub open spec fn centered_rect_fits(area: Rect, width: u16, height: u16) -> bool {
    can_center(area) ==> {
        &&& area.x + (area.width - centered_width(area, width)) / 2 <= u16::MAX
        &&& area.y + (area.height - centered_height(area, height)) / 2 <= u16::MAX
    }
}

/// Centres a panel of the requested size in `area`.
pub fn centered_rect(area: Rect, width: u16, height: u16) -> (r: Rect)
    requires
        centered_rect_fits(area, width, height),
    ensures
        r == centered_rect_spec(area, width, height),
{
    if area.width < 20 || area.height < 10 {
        return area;
    }
    let w = width.min(area.width.saturating_sub(4)).max(20).min(area.width);
    let h = height.min(area.height.saturating_sub(2)).max(10).min(area.height);
    Rect {
        x: area.x + area.width.saturating_sub(w) / 2,
        y: area.y + area.height.saturating_sub(h) / 2,
        width: w,
        height: h,
    }
}

/// A centred panel lies inside its area and is at most as large as requested, unless the
/// area is too small or the request is smaller than the 20 by 10 minimum.
pub proof fn lemma_centered_rect_inside(area: Rect, width: u16, height: u16)
    requires
        centered_rect_fits(area, width, height),
    ensures
        ({
            let r = centered_rect_spec(area, width, height);
            &&& area.x <= r.x
            &&& r.x + r.width <= area.x + area.width
            &&& area.y <= r.y
            &&& r.y + r.height <= area.y + area.height
            &&& can_center(area) ==> r.width <= max(width as int, 20) && r.height <= max(
                height as int,
                10,
            )
            &&& can_center(area) ==> r.width >= 20 && r.height >= 10
        }),
{
}

/// The width of one character of big text, in cells, for a pixel size.
pub open spec fn glyph_cell_width(p: PixelSize) -> int {
    match p {
        PixelSize::Full | PixelSize::HalfHeight => 8,
        PixelSize::HalfWidth | PixelSize::Quadrant => 4,
        PixelSize::ThirdHeight => 8,
        PixelSize::Sextant => 3,
        PixelSize::QuarterHeight => 8,
        PixelSize::Octant => 4,
    }
}

/// `u16` arithmetic that stops at the bounds.
pub open spec fn sat_u16(v: int) -> int {
    if v > u16::MAX { u16::MAX as int } else if v < 0 { 0 } else { v }
}

/// The width of a text in big characters: the character count (as a `u16`) times the
/// glyph width, plus one cell between characters, all saturating.
pub open spec fn text_width_spec(text: Seq<char>, p: PixelSize) -> int {
    let n = (text.len() as u16) as int;
    sat_u16(sat_u16(n * glyph_cell_width(p)) + sat_sub(n, 1))
}

pub fn text_width_for_pixel_size(text: &str, pixel_size: PixelSize) -> (r: u16)
    ensures
        r == text_width_spec(text@, pixel_size),
{
    let chars: u16 = #[verifier::truncate] (text.unicode_len() as u16);
    let glyph_width: u16 = match pixel_size {
        PixelSize::Full | PixelSize::HalfHeight => 8,
        PixelSize::HalfWidth | PixelSize::Quadrant => 4,
        PixelSize::ThirdHeight => 8,
        PixelSize::Sextant => 3,
        PixelSize::QuarterHeight => 8,
        PixelSize::Octant => 4,
    };
    assert(chars as u32 * glyph_width as u32 <= 65535 * 8) by (nonlinear_arith)
        requires
            glyph_width <= 8,
    ;
    let product: u32 = chars as u32 * glyph_width as u32;
    let scaled: u16 = if product > 0xffff { 0xffff } else { product as u16 };
    scaled.saturating_add(chars.saturating_sub(1))
}

/// The height of big text, in cells, for a pixel size.
pub open spec fn text_height_spec(p: PixelSize) -> int {
    match p {
        PixelSize::Full | PixelSize::HalfWidth => 8,
        PixelSize::HalfHeight | PixelSize::Quadrant => 4,
        PixelSize::ThirdHeight => 3,
        PixelSize::Sextant => 3,
        PixelSize::QuarterHeight | PixelSize::Octant => 2,
    }
}

pub fn text_height_for_pixel_size(pixel_size: PixelSize) -> (r: u16)
    ensures
        r == text_height_spec(pixel_size),
{
    match pixel_size {
        PixelSize::Full | PixelSize::HalfWidth => 8,
        PixelSize::HalfHeight | PixelSize::Quadrant => 4,
        PixelSize::ThirdHeight => 3,
        PixelSize::Sextant => 3,
        PixelSize::QuarterHeight | PixelSize::Octant => 2,
    }
}

/// Whether big text in the pixel size fits the area (with a cell of margin on each side).
pub open spec fn fits_pixel_size(area: Rect, text: Seq<char>, p: PixelSize) -> bool {
    area.width >= text_width_spec(text, p) + 2 && area.height >= text_height_spec(p)
}

/// Whether the countdown is drawn as plain text: the area is under 8 rows, or too narrow
/// for quadrant-sized big text.
pub open spec fn use_plain_spec(area: Rect, text: Seq<char>) -> bool {
    area.height < 8 || area.width < text_width_spec(text, PixelSize::Quadrant) + 2
}

pub fn should_use_plain_countdown(area: Rect, text: &str) -> (r: bool)
    requires
        text_width_spec(text@, PixelSize::Quadrant) + 2 <= u16::MAX,
    ensures
        r == use_plain_spec(area, text@),
{
    area.height < 8 || area.width < text_width_for_pixel_size(text, PixelSize::Quadrant) + 2
}

/// The first of full, half-height, half-width, quadrant and sextant sizes whose big text
/// fits the area; quadrant when none does.
pub open spec fn pixel_size_spec(area: Rect, text: Seq<char>) -> PixelSize {
    if fits_pixel_size(area, text, PixelSize::Full) {
        PixelSize::Full
    } else if fits_pixel_size(area, text, PixelSize::HalfHeight) {
        PixelSize::HalfHeight
    } else if fits_pixel_size(area, text, PixelSize::HalfWidth) {
        PixelSize::HalfWidth
    } else if fits_pixel_size(area, text, PixelSize::Quadrant) {
        PixelSize::Quadrant
    } else if fits_pixel_size(area, text, PixelSize::Sextant) {
        PixelSize::Sextant
    } else {
        PixelSize::Quadrant
    }
}

pub fn countdown_pixel_size(area: Rect, text: &str) -> (r: PixelSize)
    requires
        text_width_spec(text@, PixelSize::Full) + 2 <= u16::MAX,
    ensures
        r == pixel_size_spec(area, text@),
{
    let candidates = [
        PixelSize::Full,
        PixelSize::HalfHeight,
        PixelSize::HalfWidth,
        PixelSize::Quadrant,
        PixelSize::Sextant,
    ];
    let mut i: usize = 0;
    while i < 5
        invariant
            i <= 5,
            candidates@ == seq![
                PixelSize::Full,
                PixelSize::HalfHeight,
                PixelSize::HalfWidth,
                PixelSize::Quadrant,
                PixelSize::Sextant,
            ],
            text_width_spec(text@, PixelSize::Full) + 2 <= u16::MAX,
            forall|j: int| 0 <= j < i ==> !fits_pixel_size(area, text@, #[trigger] candidates@[j]),
        decreases 5 - i,
    {
        let candidate = candidates[i];
        if area.width >= text_width_for_pixel_size(text, candidate) + 2
            && area.height >= text_height_for_pixel_size(candidate) {
            return candidate;
        }
        i = i + 1;
    }
    PixelSize::Quadrant
}

/// The glyphs of the characters of a text, or `None` when the font lacks one of them.
pub open spec fn text_glyphs(font: DigitFont, text: Seq<char>) -> Option<Seq<Seq<Seq<char>>>>
    decreases text.len(),
{
    if text.len() == 0 {
        Some(Seq::empty())
    } else {
        match (text_glyphs(font, text.drop_last()), digit_glyph_spec(font, text.last())) {
            (Some(gs), Some(g)) => Some(gs.push(g)),
            _ => None,
        }
    }
}

/// The summed width of the first rows of the glyphs.
pub open spec fn first_rows_width(gs: Seq<Seq<Seq<char>>>) -> nat
    decreases gs.len(),
{
    if gs.len() == 0 {
        0
    } else {
        first_rows_width(gs.drop_last()) + (if gs.last().len() > 0 { gs.last()[0].len() } else { 0 })
    }
}

/// The height of glyphs side by side: the rows of the first glyph.
pub open spec fn glyphs_height(gs: Seq<Seq<Seq<char>>>) -> int {
    if gs.len() == 0 { 0 } else { gs[0].len() as int }
}

/// The width of glyphs side by side: their first rows plus one space between glyphs.
pub open spec fn glyphs_width(gs: Seq<Seq<Seq<char>>>) -> int {
    first_rows_width(gs) + sat_sub(gs.len() as int, 1)
}

/// The largest integer enlargement that fits the area, at least 1.
pub open spec fn digit_scale(area: Rect, bw: int, bh: int) -> int {
    let max_x = max(sat_sub(area.width as int, 4) / bw, 1);
    let max_y = max(sat_sub(area.height as int, 2) / bh, 1);
    max(min(max_x, max_y), 1)
}

/// The lines of the countdown in a digit font, when it can be drawn that way: the area
/// has at least 8 rows, the font has every character, and the text fits at least at
/// scale 1.
pub open spec fn digit_lines_spec(area: Rect, text: Seq<char>, font: DigitFont) -> Option<Seq<Seq<char>>> {
    if area.height < 8 {
        None
    } else {
        match text_glyphs(font, text) {
            None => None,
            Some(gs) => {
                let bh = glyphs_height(gs);
                let bw = glyphs_width(gs);
                if bh == 0 || bw == 0 {
                    None
                } else {
                    let scale = digit_scale(area, bw, bh);
                    if scale == 1 && area.width < (bw as u16) {
                        None
                    } else {
                        Some(scaled(stitched(gs), scale as nat))
                    }
                }
            }
        }
    }
}

/// The rectangle the digit lines are drawn in: full width, vertically centred.
pub open spec fn digit_target(area: Rect, lines: Seq<Seq<char>>) -> Rect {
    let dh = (lines.len() as u16) as int;
    Rect {
        x: area.x,
        y: (area.y + sat_sub(area.height as int, dh) / 2) as u16,
        width: area.width,
        height: min(dh, area.height as int) as u16,
    }
}

/// Whether the centred digit rectangle's top row is representable.
pub open spec fn digit_target_fits(area: Rect, text: Seq<char>, font: DigitFont) -> bool {
    digit_lines_spec(area, text, font) matches Some(lines) ==> area.y + sat_sub(
        area.height as int,
        (lines.len() as u16) as int,
    ) / 2 <= u16::MAX
}

/// Every glyph of a text has the font's height.
proof fn lemma_text_glyphs_height(font: DigitFont, text: Seq<char>)
    ensures
        text_glyphs(font, text) matches Some(gs) ==> gs.len() == text.len() && (forall|i: int|
            0 <= i < gs.len() ==> (#[trigger] gs[i]).len() == font_height(font) && gs[i][0].len()
                == font_width(font)) && (forall|i: int, r: int|
            0 <= i < gs.len() && 0 <= r < font_height(font) ==> (#[trigger] gs[i][r]).len()
                == font_width(font)),
        (forall|i: int| 0 <= i < text.len() ==> crate::glyphs::is_glyph_char(#[trigger] text[i]))
            ==> text_glyphs(font, text) is Some,
    decreases text.len(),
{
    if text.len() > 0 {
        let t = text.drop_last();
        assert forall|i: int| 0 <= i < t.len() && (forall|i: int| 0 <= i < text.len()
            ==> crate::glyphs::is_glyph_char(#[trigger] text[i])) implies crate::glyphs::is_glyph_char(#[trigger] t[i]) by {
            assert(t[i] == text[i]);
        }
        lemma_text_glyphs_height(font, t);
        lemma_fonts_fixed_size(font, text.last());
        if (forall|i: int| 0 <= i < text.len() ==> crate::glyphs::is_glyph_char(#[trigger] text[i])) {
            assert(crate::glyphs::is_glyph_char(text[text.len() - 1]));
        }
    }
}

proof fn lemma_first_rows_width(gs: Seq<Seq<Seq<char>>>, w: nat)
    requires
        forall|i: int| 0 <= i < gs.len() ==> (#[trigger] gs[i]).len() > 0 && gs[i][0].len() == w,
    ensures
        first_rows_width(gs) == gs.len() * w,
    decreases gs.len(),
{
    if gs.len() > 0 {
        let t = gs.drop_last();
        assert forall|i: int| 0 <= i < t.len() implies (#[trigger] t[i]).len() > 0 && t[i][0].len() == w by {
            assert(t[i] == gs[i]);
        }
        lemma_first_rows_width(t, w);
        assert(gs.len() * w == (gs.len() - 1) * w + w) by (nonlinear_arith);
    }
}

/// Digits scaled up to the area fit in it: when a countdown is drawn in a digit font,
/// its lines are no more than the area's rows and none is wider than the area (for texts
/// whose unscaled glyph row fits in a `u16`, since the width test reads it as one).
pub proof fn lemma_digit_countdown_fits(area: Rect, text: Seq<char>, font: DigitFont)
    requires
        text.len() * (font_width(font) + 1) <= u16::MAX + 1,
    ensures
        digit_lines_spec(area, text, font) matches Some(lines) ==> lines.len() <= area.height
            && forall|j: int| 0 <= j < lines.len() ==> (#[trigger] lines[j]).len() <= area.width,
{
    lemma_text_glyphs_height(font, text);
    if let Some(lines) = digit_lines_spec(area, text, font) {
        let gs = text_glyphs(font, text)->0;
        let h = font_height(font);
        let w = font_width(font);
        lemma_first_rows_width(gs, w);
        crate::glyphs::lemma_stitched_size(gs, h, w);
        let bw = glyphs_width(gs);
        let bh = glyphs_height(gs);
        let k = digit_scale(area, bw, bh);
        assert(bw == gs.len() * w + gs.len() - 1);
        crate::glyphs::lemma_scaled_size(stitched(gs), k as nat, bw as nat);
        if k > 1 {
            assert(k * bw <= sat_sub(area.width as int, 4)) by (nonlinear_arith)
                requires
                    k <= sat_sub(area.width as int, 4) / bw,
                    bw > 0,
                    sat_sub(area.width as int, 4) >= 0,
            ;
            assert(bh * k <= sat_sub(area.height as int, 2)) by (nonlinear_arith)
                requires
                    k <= sat_sub(area.height as int, 2) / bh,
                    bh > 0,
                    sat_sub(area.height as int, 2) >= 0,
            ;
            assert(bw * k == k * bw) by (nonlinear_arith);
        } else {
            assert(bw * 1 == bw);
            assert(bh * 1 == bh);
        }
        assert(bw == text.len() * (w + 1) - 1) by (nonlinear_arith)
            requires
                bw == gs.len() * w + gs.len() - 1,
                gs.len() == text.len(),
        ;
        assert(bw * k <= area.width);
        assert(forall|j: int| 0 <= j < lines.len() ==> (#[trigger] lines[j]).len() == bw * k);
    }
}

/// A countdown drawn in a digit font keeps its size while its digits change: two texts of
/// equal length made of digits, `':'` and `'.'` are, in the same area and font, either
/// both drawn in the digit font with the same number of lines of the same width, or both
/// not.
pub proof fn lemma_digit_countdown_steady(area: Rect, t1: Seq<char>, t2: Seq<char>, font: DigitFont)
    requires
        t1.len() == t2.len(),
        forall|i: int| 0 <= i < t1.len() ==> crate::glyphs::is_glyph_char(#[trigger] t1[i]),
        forall|i: int| 0 <= i < t2.len() ==> crate::glyphs::is_glyph_char(#[trigger] t2[i]),
    ensures
        digit_lines_spec(area, t1, font) is Some <==> digit_lines_spec(area, t2, font) is Some,
        digit_lines_spec(area, t1, font) matches Some(l1) ==> (digit_lines_spec(area, t2, font) matches Some(l2)
            && l1.len() == l2.len() && forall|j: int| 0 <= j < l1.len() ==> (#[trigger] l1[j]).len()
            == l2[j].len()),
{
    lemma_text_glyphs_height(font, t1);
    lemma_text_glyphs_height(font, t2);
    let gs1 = text_glyphs(font, t1)->0;
    let gs2 = text_glyphs(font, t2)->0;
    let h = font_height(font);
    let w = font_width(font);
    lemma_first_rows_width(gs1, w);
    lemma_first_rows_width(gs2, w);
    if gs1.len() > 0 {
        crate::glyphs::lemma_stitched_size(gs1, h, w);
        crate::glyphs::lemma_stitched_size(gs2, h, w);
        let bw = glyphs_width(gs1);
        let bh = glyphs_height(gs1);
        if bh != 0 && bw != 0 {
            let k = digit_scale(area, bw, bh);
            let row = gs1.len() * w + gs1.len() - 1;
            crate::glyphs::lemma_scaled_size(stitched(gs1), k as nat, row as nat);
            crate::glyphs::lemma_scaled_size(stitched(gs2), k as nat, row as nat);
        }
    }
}

/// The lines of a countdown drawn in a digit font and the rectangle they go in; `None`
/// when it cannot be drawn that way.
pub fn digit_countdown_layout(area: Rect, text: &str, font: DigitFont) -> (r: Option<(Vec<String>, Rect)>)
    requires
        text@.len() < usize::MAX / 8,
        digit_target_fits(area, text@, font),
    ensures
        match digit_lines_spec(area, text@, font) {
            None => r is None,
            Some(lines) => r matches Some((v, rect)) && lines_view(v@) == lines && rect
                == digit_target(area, lines),
        },
{
    if area.height < 8 {
        return None;
    }
    let n = text.unicode_len();
    let mut glyphs: Vec<&'static [&'static str]> = Vec::new();
    let mut i: usize = 0;
    while i < n
        invariant
            n == text@.len(),
            i <= n,
            text_glyphs(font, text@.take(i as int)) == Some(glyph_list_rows(glyphs@)),
        decreases n - i,
    {
        let ch = text.get_char(i);
        proof {
            let t = text@.take(i + 1);
            assert(t.drop_last() =~= text@.take(i as int));
            assert(t.last() == ch);
        }
        match digit_glyph(font, ch) {
            Some(g) => {
                glyphs.push(g);
                assert(glyph_list_rows(glyphs@) =~= glyph_list_rows(glyphs@.drop_last()).push(glyph_rows(g)));
            },
            None => {
                proof {
                    lemma_text_glyphs_none_extends(font, text@, (i + 1) as int);
                }
                return None;
            },
        }
        i = i + 1;
    }
    assert(text@.take(n as int) =~= text@);
    let ghost gs = glyph_list_rows(glyphs@);
    proof {
        lemma_text_glyphs_height(font, text@);
    }
    let count = glyphs.len();
    let base_height: usize = if count == 0 { 0 } else { glyphs[0].len() };
    let mut widths: usize = 0;
    let mut k: usize = 0;
    while k < count
        invariant
            count == glyphs@.len(),
            gs == glyph_list_rows(glyphs@),
            count == n,
            n < usize::MAX / 8,
            k <= count,
            widths == first_rows_width(gs.take(k as int)),
            widths <= 5 * k,
            forall|j: int| 0 <= j < gs.len() ==> (#[trigger] gs[j]).len() == font_height(font) && gs[j][0].len()
                == font_width(font),
        decreases count - k,
    {
        let g = glyphs[k];
        proof {
            let t = gs.take(k + 1);
            assert(t.drop_last() =~= gs.take(k as int));
            assert(t.last() == gs[k as int]);
            assert(gs[k as int] == glyph_rows(g));
        }
        let w = if g.len() > 0 { g[0].unicode_len() } else { 0 };
        widths = widths + w;
        k = k + 1;
    }
    assert(gs.take(count as int) =~= gs);
    let base_width = widths + count.saturating_sub(1);
    if base_height == 0 || base_width == 0 {
        return None;
    }
    let max_x = (area.width.saturating_sub(4) as usize / base_width).max(1);
    let max_y = (area.height.saturating_sub(2) as usize / base_height).max(1);
    let scale = max_x.min(max_y).max(1);
    if scale == 1 && area.width < #[verifier::truncate] (base_width as u16) {
        return None;
    }
    assert forall|j: int| 0 <= j < glyphs@.len() implies (#[trigger] glyphs@[j])@.len()
        >= glyphs@[0]@.len() by {
        assert(gs[j] == glyph_rows(glyphs@[j]));
        assert(gs[0] == glyph_rows(glyphs@[0]));
    }
    let base_lines = stitch_glyphs(glyphs.as_slice());
    let lines = scale_digit_lines(base_lines, scale);
    let digit_height: u16 = #[verifier::truncate] (lines.len() as u16);
    let target = Rect {
        x: area.x,
        y: area.y + area.height.saturating_sub(digit_height) / 2,
        width: area.width,
        height: digit_height.min(area.height),
    };
    Some((lines, target))
}

proof fn lemma_text_glyphs_none_extends(font: DigitFont, text: Seq<char>, i: int)
    requires
        0 < i <= text.len(),
        digit_glyph_spec(font, text[i - 1]) is None,
    ensures
        text_glyphs(font, text) is None,
    decreases text.len(),
{
    if i < text.len() {
        lemma_text_glyphs_none_extends(font, text.drop_last(), i);
    } else {
        assert(text.last() == text[i - 1]);
    }
}

/// How a countdown is drawn.
pub enum CountdownRender {
    /// In a digit font: these lines, in this rectangle.
    Digits(Vec<String>, Rect),
    /// As one line of plain bold text.
    Plain,
    /// As big text in this pixel size.
    Big(PixelSize),
}

/// Whether a countdown can be planned without overflowing a `u16` (text widths and row
/// positions are unsaturated sums).
pub open spec fn render_plan_fits(area: Rect, text: Seq<char>, font: DigitFont) -> bool {
    &&& digit_target_fits(area, text, font)
    &&& digit_lines_spec(area, text, font) is None ==> {
        &&& text_width_spec(text, PixelSize::Quadrant) + 2 <= u16::MAX
        &&& !use_plain_spec(area, text) ==> text_width_spec(text, PixelSize::Full) + 2 <= u16::MAX
    }
}

/// Chooses how to draw a countdown: in the digit font when it fits, else as plain text
/// when the area is small, else as big text of the largest size that fits.
pub fn countdown_render_plan(area: Rect, text: &str, font: DigitFont) -> (r: CountdownRender)
    requires
        text@.len() < usize::MAX / 8,
        render_plan_fits(area, text@, font),
    ensures
        match digit_lines_spec(area, text@, font) {
            Some(lines) => r matches CountdownRender::Digits(v, rect) && lines_view(v@) == lines
                && rect == digit_target(area, lines),
            None => if use_plain_spec(area, text@) {
                r is Plain
            } else {
                r == CountdownRender::Big(pixel_size_spec(area, text@))
            },
        },
{
    if let Some((lines, target)) = digit_countdown_layout(area, text, font) {
        return CountdownRender::Digits(lines, target);
    }
    if should_use_plain_countdown(area, text) {
        return CountdownRender::Plain;
    }
    CountdownRender::Big(countdown_pixel_size(area, text))
}

} // verus!
