//! The three built-in digit fonts and the assembly of glyphs into scaled lines.
//!
//! Every glyph of a font has the same number of rows and every row the same width, so a
//! countdown drawn in one font keeps its width while its digits change.
use vstd::prelude::*;
use crate::text::push_char;

verus! {

broadcast use vstd::string::group_string_axioms;

/// A digit font.
#[derive(Clone, Copy, Debug, PartialEq, Eq, Structural)]
pub enum DigitFont {
    Tube,
    Block,
    Compact,
}

/// The rows of a glyph, as character sequences.
pub open spec fn glyph_rows(g: &[&str]) -> Seq<Seq<char>> {
    g@.map_values(|s: &str| s@)
}

/// The characters that every font draws: the ten digits, `':'` and `'.'`.
pub open spec fn is_glyph_char(c: char) -> bool {
    ('0' <= c && c <= '9') || c == ':' || c == '.'
}

/// The rows of the `tube` glyph of a character; `None` for a character the font lacks.
pub open spec fn tube_glyph_spec(ch: char) -> Option<Seq<Seq<char>>> {
    if ch == '0' {
        Some(seq![" ███ "@, "█   █"@, "█   █"@, "█   █"@, "█   █"@, "█   █"@, " ███ "@])
    } else if ch == '1' {
        Some(seq!["  █  "@, " ██  "@, "  █  "@, "  █  "@, "  █  "@, "  █  "@, "█████"@])
    } else if ch == '2' {
        Some(seq!["████ "@, "    █"@, "    █"@, " ███ "@, "█    "@, "█    "@, "█████"@])
    } else if ch == '3' {
        Some(seq!["████ "@, "    █"@, "    █"@, " ███ "@, "    █"@, "    █"@, "████ "@])
    } else if ch == '4' {
        Some(seq!["█   █"@, "█   █"@, "█   █"@, "█████"@, "    █"@, "    █"@, "    █"@])
    } else if ch == '5' {
        Some(seq!["█████"@, "█    "@, "█    "@, "████ "@, "    █"@, "    █"@, "████ "@])
    } else if ch == '6' {
        Some(seq![" ███ "@, "█    "@, "█    "@, "████ "@, "█   █"@, "█   █"@, " ███ "@])
    } else if ch == '7' {
        Some(seq!["█████"@, "    █"@, "   █ "@, "  █  "@, " █   "@, "█    "@, "█    "@])
    } else if ch == '8' {
        Some(seq![" ███ "@, "█   █"@, "█   █"@, " ███ "@, "█   █"@, "█   █"@, " ███ "@])
    } else if ch == '9' {
        Some(seq![" ███ "@, "█   █"@, "█   █"@, " ████"@, "    █"@, "    █"@, " ███ "@])
    } else if ch == ':' {
        Some(seq!["     "@, "  █  "@, "  █  "@, "     "@, "  █  "@, "  █  "@, "     "@])
    } else if ch == '.' {
        Some(seq!["     "@, "     "@, "     "@, "     "@, "     "@, " ██  "@, " ██  "@])
    } else {
        None
    }
}

pub fn tube_glyph(ch: char) -> (r: Option<&'static [&'static str]>)
    ensures
        r is Some == tube_glyph_spec(ch) is Some,
        r matches Some(g) ==> glyph_rows(g) == tube_glyph_spec(ch)->0,
{
    if ch == '0' {
        let g: &'static [&'static str] = &[" ███ ", "█   █", "█   █", "█   █", "█   █", "█   █", " ███ "];
        assert(glyph_rows(g) =~= tube_glyph_spec(ch)->0);
        Some(g)
    } else if ch == '1' {
        let g: &'static [&'static str] = &["  █  ", " ██  ", "  █  ", "  █  ", "  █  ", "  █  ", "█████"];
        assert(glyph_rows(g) =~= tube_glyph_spec(ch)->0);
        Some(g)
    } else if ch == '2' {
        let g: &'static [&'static str] = &["████ ", "    █", "    █", " ███ ", "█    ", "█    ", "█████"];
        assert(glyph_rows(g) =~= tube_glyph_spec(ch)->0);
        Some(g)
    } else if ch == '3' {
        let g: &'static [&'static str] = &["████ ", "    █", "    █", " ███ ", "    █", "    █", "████ "];
        assert(glyph_rows(g) =~= tube_glyph_spec(ch)->0);
        Some(g)
    } else if ch == '4' {
        let g: &'static [&'static str] = &["█   █", "█   █", "█   █", "█████", "    █", "    █", "    █"];
        assert(glyph_rows(g) =~= tube_glyph_spec(ch)->0);
        Some(g)
    } else if ch == '5' {
        let g: &'static [&'static str] = &["█████", "█    ", "█    ", "████ ", "    █", "    █", "████ "];
        assert(glyph_rows(g) =~= tube_glyph_spec(ch)->0);
        Some(g)
    } else if ch == '6' {
        let g: &'static [&'static str] = &[" ███ ", "█    ", "█    ", "████ ", "█   █", "█   █", " ███ "];
        assert(glyph_rows(g) =~= tube_glyph_spec(ch)->0);
        Some(g)
    } else if ch == '7' {
        let g: &'static [&'static str] = &["█████", "    █", "   █ ", "  █  ", " █   ", "█    ", "█    "];
        assert(glyph_rows(g) =~= tube_glyph_spec(ch)->0);
        Some(g)
    } else if ch == '8' {
        let g: &'static [&'static str] = &[" ███ ", "█   █", "█   █", " ███ ", "█   █", "█   █", " ███ "];
        assert(glyph_rows(g) =~= tube_glyph_spec(ch)->0);
        Some(g)
    } else if ch == '9' {
        let g: &'static [&'static str] = &[" ███ ", "█   █", "█   █", " ████", "    █", "    █", " ███ "];
        assert(glyph_rows(g) =~= tube_glyph_spec(ch)->0);
        Some(g)
    } else if ch == ':' {
        let g: &'static [&'static str] = &["     ", "  █  ", "  █  ", "     ", "  █  ", "  █  ", "     "];
        assert(glyph_rows(g) =~= tube_glyph_spec(ch)->0);
        Some(g)
    } else if ch == '.' {
        let g: &'static [&'static str] = &["     ", "     ", "     ", "     ", "     ", " ██  ", " ██  "];
        assert(glyph_rows(g) =~= tube_glyph_spec(ch)->0);
        Some(g)
    } else {
        None
    }
}

/// The rows of the `block` glyph of a character; `None` for a character the font lacks.
pub open spec fn block_glyph_spec(ch: char) -> Option<Seq<Seq<char>>> {
    if ch == '0' {
        Some(seq!["█████"@, "█   █"@, "█  ██"@, "█ █ █"@, "██  █"@, "█   █"@, "█████"@])
    } else if ch == '1' {
        Some(seq!["  █  "@, " ██  "@, "█ █  "@, "  █  "@, "  █  "@, "  █  "@, "█████"@])
    } else if ch == '2' {
        Some(seq!["█████"@, "    █"@, "    █"@, "█████"@, "█    "@, "█    "@, "█████"@])
    } else if ch == '3' {
        Some(seq!["█████"@, "    █"@, "    █"@, " ████"@, "    █"@, "    █"@, "█████"@])
    } else if ch == '4' {
        Some(seq!["█   █"@, "█   █"@, "█   █"@, "█████"@, "    █"@, "    █"@, "    █"@])
    } else if ch == '5' {
        Some(seq!["█████"@, "█    "@, "█    "@, "█████"@, "    █"@, "    █"@, "█████"@])
    } else if ch == '6' {
        Some(seq!["█████"@, "█    "@, "█    "@, "█████"@, "█   █"@, "█   █"@, "█████"@])
    } else if ch == '7' {
        Some(seq!["█████"@, "    █"@, "   █ "@, "  █  "@, " █   "@, "█    "@, "█    "@])
    } else if ch == '8' {
        Some(seq!["█████"@, "█   █"@, "█   █"@, "█████"@, "█   █"@, "█   █"@, "█████"@])
    } else if ch == '9' {
        Some(seq!["█████"@, "█   █"@, "█   █"@, "█████"@, "    █"@, "    █"@, "█████"@])
    } else if ch == ':' {
        Some(seq!["     "@, " ██  "@, " ██  "@, "     "@, " ██  "@, " ██  "@, "     "@])
    } else if ch == '.' {
        Some(seq!["     "@, "     "@, "     "@, "     "@, "     "@, " ██  "@, " ██  "@])
    } else {
        None
    }
}

pub fn block_glyph(ch: char) -> (r: Option<&'static [&'static str]>)
    ensures
        r is Some == block_glyph_spec(ch) is Some,
        r matches Some(g) ==> glyph_rows(g) == block_glyph_spec(ch)->0,
{
    if ch == '0' {
        let g: &'static [&'static str] = &["█████", "█   █", "█  ██", "█ █ █", "██  █", "█   █", "█████"];
        assert(glyph_rows(g) =~= block_glyph_spec(ch)->0);
        Some(g)
    } else if ch == '1' {
        let g: &'static [&'static str] = &["  █  ", " ██  ", "█ █  ", "  █  ", "  █  ", "  █  ", "█████"];
        assert(glyph_rows(g) =~= block_glyph_spec(ch)->0);
        Some(g)
    } else if ch == '2' {
        let g: &'static [&'static str] = &["█████", "    █", "    █", "█████", "█    ", "█    ", "█████"];
        assert(glyph_rows(g) =~= block_glyph_spec(ch)->0);
        Some(g)
    } else if ch == '3' {
        let g: &'static [&'static str] = &["█████", "    █", "    █", " ████", "    █", "    █", "█████"];
        assert(glyph_rows(g) =~= block_glyph_spec(ch)->0);
        Some(g)
    } else if ch == '4' {
        let g: &'static [&'static str] = &["█   █", "█   █", "█   █", "█████", "    █", "    █", "    █"];
        assert(glyph_rows(g) =~= block_glyph_spec(ch)->0);
        Some(g)
    } else if ch == '5' {
        let g: &'static [&'static str] = &["█████", "█    ", "█    ", "█████", "    █", "    █", "█████"];
        assert(glyph_rows(g) =~= block_glyph_spec(ch)->0);
        Some(g)
    } else if ch == '6' {
        let g: &'static [&'static str] = &["█████", "█    ", "█    ", "█████", "█   █", "█   █", "█████"];
        assert(glyph_rows(g) =~= block_glyph_spec(ch)->0);
        Some(g)
    } else if ch == '7' {
        let g: &'static [&'static str] = &["█████", "    █", "   █ ", "  █  ", " █   ", "█    ", "█    "];
        assert(glyph_rows(g) =~= block_glyph_spec(ch)->0);
        Some(g)
    } else if ch == '8' {
        let g: &'static [&'static str] = &["█████", "█   █", "█   █", "█████", "█   █", "█   █", "█████"];
        assert(glyph_rows(g) =~= block_glyph_spec(ch)->0);
        Some(g)
    } else if ch == '9' {
        let g: &'static [&'static str] = &["█████", "█   █", "█   █", "█████", "    █", "    █", "█████"];
        assert(glyph_rows(g) =~= block_glyph_spec(ch)->0);
        Some(g)
    } else if ch == ':' {
        let g: &'static [&'static str] = &["     ", " ██  ", " ██  ", "     ", " ██  ", " ██  ", "     "];
        assert(glyph_rows(g) =~= block_glyph_spec(ch)->0);
        Some(g)
    } else if ch == '.' {
        let g: &'static [&'static str] = &["     ", "     ", "     ", "     ", "     ", " ██  ", " ██  "];
        assert(glyph_rows(g) =~= block_glyph_spec(ch)->0);
        Some(g)
    } else {
        None
    }
}

/// The rows of the `compact` glyph of a character; `None` for a character the font lacks.
pub open spec fn compact_glyph_spec(ch: char) -> Option<Seq<Seq<char>>> {
    if ch == '0' {
        Some(seq!["███"@, "█ █"@, "█ █"@, "█ █"@, "███"@])
    } else if ch == '1' {
        Some(seq![" █ "@, "██ "@, " █ "@, " █ "@, "███"@])
    } else if ch == '2' {
        Some(seq!["███"@, "  █"@, "███"@, "█  "@, "███"@])
    } else if ch == '3' {
        Some(seq!["███"@, "  █"@, " ██"@, "  █"@, "███"@])
    } else if ch == '4' {
        Some(seq!["█ █"@, "█ █"@, "███"@, "  █"@, "  █"@])
    } else if ch == '5' {
        Some(seq!["███"@, "█  "@, "███"@, "  █"@, "███"@])
    } else if ch == '6' {
        Some(seq!["███"@, "█  "@, "███"@, "█ █"@, "███"@])
    } else if ch == '7' {
        Some(seq!["███"@, "  █"@, " █ "@, "█  "@, "█  "@])
    } else if ch == '8' {
        Some(seq!["███"@, "█ █"@, "███"@, "█ █"@, "███"@])
    } else if ch == '9' {
        Some(seq!["███"@, "█ █"@, "███"@, "  █"@, "███"@])
    } else if ch == ':' {
        Some(seq!["   "@, " █ "@, "   "@, " █ "@, "   "@])
    } else if ch == '.' {
        Some(seq!["   "@, "   "@, "   "@, "   "@, " █ "@])
    } else {
        None
    }
}

pub fn compact_glyph(ch: char) -> (r: Option<&'static [&'static str]>)
    ensures
        r is Some == compact_glyph_spec(ch) is Some,
        r matches Some(g) ==> glyph_rows(g) == compact_glyph_spec(ch)->0,
{
    if ch == '0' {
        let g: &'static [&'static str] = &["███", "█ █", "█ █", "█ █", "███"];
        assert(glyph_rows(g) =~= compact_glyph_spec(ch)->0);
        Some(g)
    } else if ch == '1' {
        let g: &'static [&'static str] = &[" █ ", "██ ", " █ ", " █ ", "███"];
        assert(glyph_rows(g) =~= compact_glyph_spec(ch)->0);
        Some(g)
    } else if ch == '2' {
        let g: &'static [&'static str] = &["███", "  █", "███", "█  ", "███"];
        assert(glyph_rows(g) =~= compact_glyph_spec(ch)->0);
        Some(g)
    } else if ch == '3' {
        let g: &'static [&'static str] = &["███", "  █", " ██", "  █", "███"];
        assert(glyph_rows(g) =~= compact_glyph_spec(ch)->0);
        Some(g)
    } else if ch == '4' {
        let g: &'static [&'static str] = &["█ █", "█ █", "███", "  █", "  █"];
        assert(glyph_rows(g) =~= compact_glyph_spec(ch)->0);
        Some(g)
    } else if ch == '5' {
        let g: &'static [&'static str] = &["███", "█  ", "███", "  █", "███"];
        assert(glyph_rows(g) =~= compact_glyph_spec(ch)->0);
        Some(g)
    } else if ch == '6' {
        let g: &'static [&'static str] = &["███", "█  ", "███", "█ █", "███"];
        assert(glyph_rows(g) =~= compact_glyph_spec(ch)->0);
        Some(g)
    } else if ch == '7' {
        let g: &'static [&'static str] = &["███", "  █", " █ ", "█  ", "█  "];
        assert(glyph_rows(g) =~= compact_glyph_spec(ch)->0);
        Some(g)
    } else if ch == '8' {
        let g: &'static [&'static str] = &["███", "█ █", "███", "█ █", "███"];
        assert(glyph_rows(g) =~= compact_glyph_spec(ch)->0);
        Some(g)
    } else if ch == '9' {
        let g: &'static [&'static str] = &["███", "█ █", "███", "  █", "███"];
        assert(glyph_rows(g) =~= compact_glyph_spec(ch)->0);
        Some(g)
    } else if ch == ':' {
        let g: &'static [&'static str] = &["   ", " █ ", "   ", " █ ", "   "];
        assert(glyph_rows(g) =~= compact_glyph_spec(ch)->0);
        Some(g)
    } else if ch == '.' {
        let g: &'static [&'static str] = &["   ", "   ", "   ", "   ", " █ "];
        assert(glyph_rows(g) =~= compact_glyph_spec(ch)->0);
        Some(g)
    } else {
        None
    }
}

/// The glyph of a character in a font.
pub open spec fn digit_glyph_spec(font: DigitFont, ch: char) -> Option<Seq<Seq<char>>> {
    match font {
        DigitFont::Tube => tube_glyph_spec(ch),
        DigitFont::Block => block_glyph_spec(ch),
        DigitFont::Compact => compact_glyph_spec(ch),
    }
}

pub fn digit_glyph(font: DigitFont, ch: char) -> (r: Option<&'static [&'static str]>)
    ensures
        r is Some == digit_glyph_spec(font, ch) is Some,
        r matches Some(g) ==> glyph_rows(g) == digit_glyph_spec(font, ch)->0,
{
    match font {
        DigitFont::Tube => tube_glyph(ch),
        DigitFont::Block => block_glyph(ch),
        DigitFont::Compact => compact_glyph(ch),
    }
}

/// The number of rows of every glyph of a font.
pub open spec fn font_height(font: DigitFont) -> nat {
    match font {
        DigitFont::Compact => 5,
        _ => 7,
    }
}

/// The width, in characters, of every row of every glyph of a font.
pub open spec fn font_width(font: DigitFont) -> nat {
    match font {
        DigitFont::Compact => 3,
        _ => 5,
    }
}

/// Each font is fixed-size: a character has a glyph exactly when it is a digit, `':'` or
/// `'.'`, and every glyph of the font has `font_height` rows of `font_width` characters.
pub proof fn lemma_fonts_fixed_size(font: DigitFont, ch: char)
    ensures
        digit_glyph_spec(font, ch) is Some <==> is_glyph_char(ch),
        digit_glyph_spec(font, ch) matches Some(g) ==> g.len() == font_height(font) && (forall|r: int|
            0 <= r < g.len() ==> #[trigger] g[r].len() == font_width(font)),
{
    reveal_strlit("   ");
    reveal_strlit("     ");
    reveal_strlit("    █");
    reveal_strlit("   █ ");
    reveal_strlit("  █");
    reveal_strlit("  █  ");
    reveal_strlit(" █ ");
    reveal_strlit(" █   ");
    reveal_strlit(" ██");
    reveal_strlit(" ██  ");
    reveal_strlit(" ███ ");
    reveal_strlit(" ████");
    reveal_strlit("█  ");
    reveal_strlit("█    ");
    reveal_strlit("█   █");
    reveal_strlit("█  ██");
    reveal_strlit("█ █");
    reveal_strlit("█ █  ");
    reveal_strlit("█ █ █");
    reveal_strlit("██ ");
    reveal_strlit("██  █");
    reveal_strlit("███");
    reveal_strlit("████ ");
    reveal_strlit("█████");
}

/// Row `r` of each glyph, joined by single spaces (`join(" ")`).
pub open spec fn joined_row(gs: Seq<Seq<Seq<char>>>, r: int) -> Seq<char>
    decreases gs.len(),
{
    if gs.len() == 0 {
        Seq::empty()
    } else if gs.len() == 1 {
        gs[0][r]
    } else {
        joined_row(gs.drop_last(), r) + seq![' '] + gs.last()[r]
    }
}

/// The glyphs side by side: as many lines as the first glyph has rows, line `r` holding
/// row `r` of every glyph, one space between glyphs.
pub open spec fn stitched(gs: Seq<Seq<Seq<char>>>) -> Seq<Seq<char>> {
    let height = if gs.len() == 0 { 0 } else { gs[0].len() };
    Seq::new(height, |r: int| joined_row(gs, r))
}

/// The rows of each glyph of a list.
pub open spec fn glyph_list_rows(glyphs: Seq<&[&str]>) -> Seq<Seq<Seq<char>>> {
    glyphs.map_values(|g: &[&str]| glyph_rows(g))
}

/// The characters of each line of a list.
pub open spec fn lines_view(lines: Seq<String>) -> Seq<Seq<char>> {
    lines.map_values(|l: String| l@)
}

/// Places glyphs side by side, one space apart. Every glyph must have at least as many
/// rows as the first.
pub fn stitch_glyphs(glyphs: &[&[&str]]) -> (r: Vec<String>)
    requires
        forall|i: int| 0 <= i < glyphs@.len() ==> (#[trigger] glyphs@[i])@.len() >= glyphs@[0]@.len(),
    ensures
        lines_view(r@) == stitched(glyph_list_rows(glyphs@)),
{
    let ghost gs = glyph_list_rows(glyphs@);
    let n = glyphs.len();
    let height: usize = if n == 0 { 0 } else { glyphs[0].len() };
    let mut out: Vec<String> = Vec::new();
    let mut row: usize = 0;
    while row < height
        invariant
            gs == glyph_list_rows(glyphs@),
            n == glyphs@.len(),
            height == (if n == 0 { 0 } else { glyphs@[0]@.len() }),
            forall|i: int| 0 <= i < glyphs@.len() ==> (#[trigger] glyphs@[i])@.len() >= glyphs@[0]@.len(),
            row <= height,
            out@.len() == row,
            forall|k: int| 0 <= k < row ==> (#[trigger] out@[k])@ == joined_row(gs, k),
        decreases height - row,
    {
        let mut line = String::new();
        let mut i: usize = 0;
        while i < n
            invariant
                gs == glyph_list_rows(glyphs@),
                n == glyphs@.len(),
                n > 0,
                height == glyphs@[0]@.len(),
                forall|j: int| 0 <= j < glyphs@.len() ==> (#[trigger] glyphs@[j])@.len() >= glyphs@[0]@.len(),
                row < height,
                i <= n,
                line@ == joined_row(gs.take(i as int), row as int),
            decreases n - i,
        {
            let g = glyphs[i];
            if i > 0 {
                line.append(" ");
            }
            line.append(g[row]);
            proof {
                let t = gs.take(i + 1);
                assert(t.drop_last() =~= gs.take(i as int));
                assert(t.last() == glyph_rows(g));
                assert(glyph_rows(g)[row as int] == g@[row as int]@);
                reveal_strlit(" ");
                if i == 0 {
                    assert(line@ =~= joined_row(t, row as int));
                } else {
                    assert(line@ =~= joined_row(t, row as int));
                }
            }
            i = i + 1;
        }
        assert(gs.take(n as int) =~= gs);
        out.push(line);
        row = row + 1;
    }
    proof {
        assert(lines_view(out@) =~= stitched(gs));
    }
    out
}

/// Each character of a line repeated `k` times.
pub open spec fn widened(l: Seq<char>, k: nat) -> Seq<char>
    decreases l.len(),
{
    if l.len() == 0 {
        Seq::empty()
    } else {
        widened(l.drop_last(), k) + Seq::new(k, |j: int| l.last())
    }
}

/// Each line widened `k` times and then repeated `k` times.
pub open spec fn scaled(ls: Seq<Seq<char>>, k: nat) -> Seq<Seq<char>>
    decreases ls.len(),
{
    if ls.len() == 0 {
        Seq::empty()
    } else {
        scaled(ls.drop_last(), k) + Seq::new(k, |j: int| widened(ls.last(), k))
    }
}

/// Enlarges lines of text by an integer factor in both directions.
pub fn scale_digit_lines(lines: Vec<String>, scale: usize) -> (r: Vec<String>)
    ensures
        lines_view(r@) == scaled(lines_view(lines@), scale as nat),
{
    let ghost ls = lines_view(lines@);
    let mut out: Vec<String> = Vec::new();
    let mut i: usize = 0;
    while i < lines.len()
        invariant
            ls == lines_view(lines@),
            i <= lines@.len(),
            lines_view(out@) == scaled(ls.take(i as int), scale as nat),
        decreases lines@.len() - i,
    {
        let line = lines[i].as_str();
        let n = line.unicode_len();
        let mut wide = String::new();
        let mut c: usize = 0;
        while c < n
            invariant
                n == line@.len(),
                c <= n,
                wide@ == widened(line@.take(c as int), scale as nat),
            decreases n - c,
        {
            let ch = line.get_char(c);
            let mut k: usize = 0;
            let ghost before = wide@;
            while k < scale
                invariant
                    k <= scale,
                    wide@ == before + Seq::new(k as nat, |j: int| ch),
                decreases scale - k,
            {
                push_char(&mut wide, ch);
                k = k + 1;
                assert(wide@ =~= before + Seq::new(k as nat, |j: int| ch));
            }
            proof {
                let t = line@.take(c + 1);
                assert(t.drop_last() =~= line@.take(c as int));
                assert(t.last() == ch);
            }
            c = c + 1;
        }
        assert(line@.take(n as int) =~= line@);
        let ghost before_out = out@;
        let mut k: usize = 0;
        while k < scale
            invariant
                k <= scale,
                out@.len() == before_out.len() + k,
                forall|j: int| 0 <= j < before_out.len() ==> out@[j] == before_out[j],
                forall|j: int| before_out.len() <= j < out@.len() ==> (#[trigger] out@[j])@ == wide@,
            decreases scale - k,
        {
            out.push(wide.clone());
            k = k + 1;
        }
        proof {
            let t = ls.take(i + 1);
            assert(t.drop_last() =~= ls.take(i as int));
            assert(t.last() == lines@[i as int]@);
            assert(lines_view(out@) =~= lines_view(before_out) + Seq::new(scale as nat, |j: int| widened(t.last(), scale as nat)));
        }
        i = i + 1;
    }
    assert(ls.take(lines@.len() as int) =~= ls);
    out
}

proof fn lemma_joined_row_len(gs: Seq<Seq<Seq<char>>>, r: int, w: nat)
    requires
        gs.len() >= 1,
        forall|i: int| 0 <= i < gs.len() ==> (#[trigger] gs[i])[r].len() == w,
    ensures
        joined_row(gs, r).len() == gs.len() * w + gs.len() - 1,
    decreases gs.len(),
{
    if gs.len() > 1 {
        let t = gs.drop_last();
        assert forall|i: int| 0 <= i < t.len() implies (#[trigger] t[i])[r].len() == w by {
            assert(t[i] == gs[i]);
        }
        lemma_joined_row_len(t, r, w);
        assert(gs.len() * w == (gs.len() - 1) * w + w) by (nonlinear_arith);
    }
}

/// Glyphs of equal size side by side: as many lines as a glyph has rows, each as wide as
/// the glyphs together plus one space between neighbours.
pub proof fn lemma_stitched_size(gs: Seq<Seq<Seq<char>>>, h: nat, w: nat)
    requires
        gs.len() >= 1,
        forall|i: int| 0 <= i < gs.len() ==> (#[trigger] gs[i]).len() == h,
        forall|i: int, r: int| 0 <= i < gs.len() && 0 <= r < h ==> (#[trigger] gs[i][r]).len() == w,
    ensures
        stitched(gs).len() == h,
        forall|r: int| 0 <= r < h ==> (#[trigger] stitched(gs)[r]).len() == gs.len() * w + gs.len() - 1,
{
    assert forall|r: int| 0 <= r < h implies (#[trigger] stitched(gs)[r]).len() == gs.len() * w
        + gs.len() - 1 by {
        assert forall|i: int| 0 <= i < gs.len() implies (#[trigger] gs[i])[r].len() == w by {
            assert(gs[i][r].len() == w);
        }
        lemma_joined_row_len(gs, r, w);
    }
}

proof fn lemma_widened_len(l: Seq<char>, k: nat)
    ensures
        widened(l, k).len() == l.len() * k,
    decreases l.len(),
{
    if l.len() > 0 {
        lemma_widened_len(l.drop_last(), k);
        assert(l.len() * k == (l.len() - 1) * k + k) by (nonlinear_arith);
    }
}

/// Enlarging lines of equal width by `k`: `k` times as many lines, each `k` times as wide.
pub proof fn lemma_scaled_size(ls: Seq<Seq<char>>, k: nat, w: nat)
    requires
        forall|i: int| 0 <= i < ls.len() ==> (#[trigger] ls[i]).len() == w,
    ensures
        scaled(ls, k).len() == ls.len() * k,
        forall|j: int| 0 <= j < scaled(ls, k).len() ==> (#[trigger] scaled(ls, k)[j]).len() == w * k,
    decreases ls.len(),
{
    if ls.len() > 0 {
        let t = ls.drop_last();
        assert forall|i: int| 0 <= i < t.len() implies (#[trigger] t[i]).len() == w by {
            assert(t[i] == ls[i]);
        }
        lemma_scaled_size(t, k, w);
        lemma_widened_len(ls.last(), k);
        assert(ls.len() * k == (ls.len() - 1) * k + k) by (nonlinear_arith);
        let s = scaled(ls, k);
        let st = scaled(t, k);
        assert forall|j: int| 0 <= j < s.len() implies (#[trigger] s[j]).len() == w * k by {
            if j < st.len() {
                assert(s[j] == st[j]);
            } else {
                assert(s[j] == widened(ls.last(), k));
                assert(w * k == k * w) by (nonlinear_arith);
            }
        }
    }
}

/// Whether the cell at row `r`, column `k` of a glyph is inked.
spec fn ink(g: Seq<Seq<char>>, r: int, k: int) -> int {
    if g[r][k] == '█' { 1 } else { 0 }
}

/// A few cells of a `tube` glyph, read as the bits of a number.
spec fn tube_probe(g: Seq<Seq<char>>) -> int {
    1 * ink(g, 0, 0) + 2 * ink(g, 0, 1) + 4 * ink(g, 1, 4) + 8 * ink(g, 3, 1) + 16 * ink(g, 4, 0) + 32 * ink(g, 0, 2) + 64 * ink(g, 1, 2)
}

proof fn lemma_tube_probes()
    ensures
        tube_probe(tube_glyph_spec('0')->0) == 54,
        tube_probe(tube_glyph_spec('1')->0) == 96,
        tube_probe(tube_glyph_spec('2')->0) == 63,
        tube_probe(tube_glyph_spec('3')->0) == 47,
        tube_probe(tube_glyph_spec('4')->0) == 13,
        tube_probe(tube_glyph_spec('5')->0) == 43,
        tube_probe(tube_glyph_spec('6')->0) == 58,
        tube_probe(tube_glyph_spec('7')->0) == 39,
        tube_probe(tube_glyph_spec('8')->0) == 62,
        tube_probe(tube_glyph_spec('9')->0) == 46,
        tube_probe(tube_glyph_spec(':')->0) == 64,
        tube_probe(tube_glyph_spec('.')->0) == 0,
{
    reveal_strlit("     ");
    reveal_strlit("    █");
    reveal_strlit("   █ ");
    reveal_strlit("  █  ");
    reveal_strlit(" █   ");
    reveal_strlit(" ██  ");
    reveal_strlit(" ███ ");
    reveal_strlit(" ████");
    reveal_strlit("█    ");
    reveal_strlit("█   █");
    reveal_strlit("████ ");
    reveal_strlit("█████");
}

/// A few cells of a `block` glyph, read as the bits of a number.
spec fn block_probe(g: Seq<Seq<char>>) -> int {
    1 * ink(g, 0, 0) + 2 * ink(g, 0, 2) + 4 * ink(g, 4, 1) + 8 * ink(g, 1, 0) + 16 * ink(g, 4, 0) + 32 * ink(g, 1, 4)
}

proof fn lemma_block_probes()
    ensures
        block_probe(block_glyph_spec('0')->0) == 63,
        block_probe(block_glyph_spec('1')->0) == 2,
        block_probe(block_glyph_spec('2')->0) == 51,
        block_probe(block_glyph_spec('3')->0) == 35,
        block_probe(block_glyph_spec('4')->0) == 41,
        block_probe(block_glyph_spec('5')->0) == 11,
        block_probe(block_glyph_spec('6')->0) == 27,
        block_probe(block_glyph_spec('7')->0) == 39,
        block_probe(block_glyph_spec('8')->0) == 59,
        block_probe(block_glyph_spec('9')->0) == 43,
        block_probe(block_glyph_spec(':')->0) == 4,
        block_probe(block_glyph_spec('.')->0) == 0,
{
    reveal_strlit("     ");
    reveal_strlit("    █");
    reveal_strlit("   █ ");
    reveal_strlit("  █  ");
    reveal_strlit(" █   ");
    reveal_strlit(" ██  ");
    reveal_strlit(" ████");
    reveal_strlit("█    ");
    reveal_strlit("█   █");
    reveal_strlit("█  ██");
    reveal_strlit("█ █  ");
    reveal_strlit("█ █ █");
    reveal_strlit("██  █");
    reveal_strlit("█████");
}

/// A few cells of a `compact` glyph, read as the bits of a number.
spec fn compact_probe(g: Seq<Seq<char>>) -> int {
    1 * ink(g, 0, 0) + 2 * ink(g, 0, 1) + 4 * ink(g, 4, 1) + 8 * ink(g, 1, 0) + 16 * ink(g, 3, 0) + 32 * ink(g, 1, 2) + 64 * ink(g, 2, 1)
}

proof fn lemma_compact_probes()
    ensures
        compact_probe(compact_glyph_spec('0')->0) == 63,
        compact_probe(compact_glyph_spec('1')->0) == 78,
        compact_probe(compact_glyph_spec('2')->0) == 119,
        compact_probe(compact_glyph_spec('3')->0) == 103,
        compact_probe(compact_glyph_spec('4')->0) == 105,
        compact_probe(compact_glyph_spec('5')->0) == 79,
        compact_probe(compact_glyph_spec('6')->0) == 95,
        compact_probe(compact_glyph_spec('7')->0) == 115,
        compact_probe(compact_glyph_spec('8')->0) == 127,
        compact_probe(compact_glyph_spec('9')->0) == 111,
        compact_probe(compact_glyph_spec(':')->0) == 0,
        compact_probe(compact_glyph_spec('.')->0) == 4,
{
    reveal_strlit("   ");
    reveal_strlit("  █");
    reveal_strlit(" █ ");
    reveal_strlit(" ██");
    reveal_strlit("█  ");
    reveal_strlit("█ █");
    reveal_strlit("██ ");
    reveal_strlit("███");
}

/// Within a font, no two characters share a glyph: each digit, `':'` and `'.'` is drawn
/// differently from every other.
pub proof fn lemma_glyphs_distinct(font: DigitFont, c1: char, c2: char)
    requires
        is_glyph_char(c1),
        is_glyph_char(c2),
        c1 != c2,
    ensures
        digit_glyph_spec(font, c1) != digit_glyph_spec(font, c2),
{
    match font {
        DigitFont::Tube => lemma_tube_probes(),
        DigitFont::Block => lemma_block_probes(),
        DigitFont::Compact => lemma_compact_probes(),
    }
}

/// The `8` of every font is a closed figure with a bar across its middle: it reads the
/// same upside down, and its middle row is its top row, unlike the rows just below the top.
pub proof fn lemma_eight_has_middle_bar(font: DigitFont)
    ensures
        ({
            let g = digit_glyph_spec(font, '8')->0;
            let h = g.len() as int;
            &&& forall|r: int| 0 <= r < h ==> #[trigger] g[r] == g[h - 1 - r]
            &&& g[h / 2] == g[0]
            &&& g[1] != g[0]
        }),
{
    reveal_strlit(" ███ ");
    reveal_strlit("█   █");
    reveal_strlit("█████");
    reveal_strlit("███");
    reveal_strlit("█ █");
    assert(" ███ "@[0] != "█   █"@[0]);
    assert("█████"@[1] != "█   █"@[1]);
    assert("███"@[1] != "█ █"@[1]);
}

/// A glyph turned half a turn: its rows in reverse order, each read backwards.
pub open spec fn half_turn(g: Seq<Seq<char>>) -> Seq<Seq<char>> {
    g.reverse().map_values(|row: Seq<char>| row.reverse())
}

/// In every font the digits look as on a display turned upside down: `6` is `9` turned
/// half a turn, and `0` and `8` are unchanged by the half turn.
pub proof fn lemma_glyph_half_turns(font: DigitFont)
    ensures
        half_turn(digit_glyph_spec(font, '9')->0) == digit_glyph_spec(font, '6')->0,
        half_turn(digit_glyph_spec(font, '0')->0) == digit_glyph_spec(font, '0')->0,
        half_turn(digit_glyph_spec(font, '8')->0) == digit_glyph_spec(font, '8')->0,
{
    reveal_strlit("    █");
    reveal_strlit("  █");
    reveal_strlit(" ███ ");
    reveal_strlit(" ████");
    reveal_strlit("█  ");
    reveal_strlit("█    ");
    reveal_strlit("█   █");
    reveal_strlit("█  ██");
    reveal_strlit("█ █");
    reveal_strlit("█ █ █");
    reveal_strlit("██  █");
    reveal_strlit("███");
    reveal_strlit("████ ");
    reveal_strlit("█████");
    let g9 = digit_glyph_spec(font, '9')->0;
    let g0 = digit_glyph_spec(font, '0')->0;
    let g8 = digit_glyph_spec(font, '8')->0;
    let g6 = digit_glyph_spec(font, '6')->0;
    assert forall|r: int| 0 <= r < g6.len() implies #[trigger] half_turn(g9)[r] == g6[r] by {
        assert(half_turn(g9)[r] =~= g6[r]);
    }
    assert(half_turn(g9) =~= g6);
    assert forall|r: int| 0 <= r < g0.len() implies #[trigger] half_turn(g0)[r] == g0[r] by {
        assert(half_turn(g0)[r] =~= g0[r]);
    }
    assert(half_turn(g0) =~= g0);
    assert forall|r: int| 0 <= r < g8.len() implies #[trigger] half_turn(g8)[r] == g8[r] by {
        assert(half_turn(g8)[r] =~= g8[r]);
    }
    assert(half_turn(g8) =~= g8);
}

} // verus!
