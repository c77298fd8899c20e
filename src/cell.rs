use vstd::prelude::*;

use crate::color::{color_rgb, rgb, to_rgb, Color};
use crate::style::{glyph_bits, into_glyph_bits, StyleAttributes};

verus! {

/// Foreground used where a cell's foreground is `Reset`: white.
pub const DEFAULT_FG: u32 = 0xFFFFFF;

/// Background used where a cell's background is `Reset`: black.
pub const DEFAULT_BG: u32 = 0x000000;

/// One character position of the text-UI buffer.
#[derive(Debug)]
pub struct Cell {
    /// The visible glyph, one grapheme cluster.
    pub symbol: String,
    pub fg: Color,
    pub bg: Color,
    pub modifier: StyleAttributes,
}

impl Default for Cell {
    /// A space with no color set and no style.
    fn default() -> (r: Cell)
        ensures
            r.symbol@ == seq![' '],
            r.fg == Color::Reset,
            r.bg == Color::Reset,
            r.modifier == (StyleAttributes {
                bold: false,
                italic: false,
                underlined: false,
                crossed_out: false,
                reversed: false,
            }),
    {
        let symbol = " ".to_owned();
        proof {
            reveal_strlit(" ");
            assert(symbol@ =~= seq![' ']);
        }
        Cell { symbol, fg: Color::Reset, bg: Color::Reset, modifier: StyleAttributes::empty() }
    }
}

/// The record the renderer takes for one cell.
#[derive(Debug)]
pub struct EncodedCell {
    pub symbol: String,
    pub style_bits: u16,
    pub fg_rgb: u32,
    pub bg_rgb: u32,
}

/// An encoded cell as values: the glyph's characters, the style field and the
/// two colors.
pub struct EncodedCellView {
    pub symbol: Seq<char>,
    pub style_bits: u16,
    pub fg_rgb: u32,
    pub bg_rgb: u32,
}

impl View for EncodedCell {
    type V = EncodedCellView;

    open spec fn view(&self) -> EncodedCellView {
        EncodedCellView {
            symbol: self.symbol@,
            style_bits: self.style_bits,
            fg_rgb: self.fg_rgb,
            bg_rgb: self.bg_rgb,
        }
    }
}

/// Resolved (foreground, background) of a cell: `Reset` falls back to white on
/// black, and reverse video swaps the two after resolution.
pub open spec fn resolved_colors(fg: Color, bg: Color, attrs: StyleAttributes) -> (int, int) {
    let f = color_rgb(fg, DEFAULT_FG as int);
    let b = color_rgb(bg, DEFAULT_BG as int);
    if attrs.reversed {
        (b, f)
    } else {
        (f, b)
    }
}

/// The record the renderer takes for a cell: its glyph unchanged, the packed
/// style field and the resolved, possibly swapped, colors.
pub open spec fn encoded(cell: Cell) -> EncodedCellView {
    let (f, b) = resolved_colors(cell.fg, cell.bg, cell.modifier);
    EncodedCellView {
        symbol: cell.symbol@,
        style_bits: glyph_bits(cell.modifier),
        fg_rgb: f as u32,
        bg_rgb: b as u32,
    }
}

/// Resolves the foreground and background colors of a cell.
pub fn resolve_fg_bg_colors(cell: &Cell) -> (r: (u32, u32))
    ensures
        (r.0 as int, r.1 as int) == resolved_colors(cell.fg, cell.bg, cell.modifier),
{
    let fg = to_rgb(cell.fg, DEFAULT_FG);
    let bg = to_rgb(cell.bg, DEFAULT_BG);
    if cell.modifier.reversed {
        (bg, fg)
    } else {
        (fg, bg)
    }
}

/// Encodes a cell into the record the renderer takes.
pub fn cell_data(cell: &Cell) -> (r: EncodedCell)
    ensures
        r@ == encoded(*cell),
{
    let (fg, bg) = resolve_fg_bg_colors(cell);
    EncodedCell {
        symbol: cell.symbol.clone(),
        style_bits: into_glyph_bits(cell.modifier),
        fg_rgb: fg,
        bg_rgb: bg,
    }
}

/// A cell with explicit RGB colors keeps them through encoding when it is not
/// reversed, and has exactly the two of them swapped when it is.
pub proof fn lemma_rgb_colors_round_trip(
    symbol: String,
    fg: (u8, u8, u8),
    bg: (u8, u8, u8),
    modifier: StyleAttributes,
)
    ensures
        ({
            let cell = Cell {
                symbol,
                fg: Color::Rgb(fg.0, fg.1, fg.2),
                bg: Color::Rgb(bg.0, bg.1, bg.2),
                modifier,
            };
            let f = rgb(fg.0 as int, fg.1 as int, fg.2 as int);
            let b = rgb(bg.0 as int, bg.1 as int, bg.2 as int);
            &&& !modifier.reversed ==> encoded(cell).fg_rgb == f && encoded(cell).bg_rgb == b
            &&& modifier.reversed ==> encoded(cell).fg_rgb == b && encoded(cell).bg_rgb == f
        }),
{
}

} // verus!
