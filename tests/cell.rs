use beamterm_ratatui::{cell_data, resolve_fg_bg_colors, Cell, Color, StyleAttributes};

fn styled(symbol: &str, fg: Color, bg: Color, modifier: StyleAttributes) -> Cell {
    Cell { symbol: symbol.to_string(), fg, bg, modifier }
}

#[test]
fn resolve_colors_default() {
    let cell = Cell::default();
    let (fg, bg) = resolve_fg_bg_colors(&cell);
    // Reset fg -> 0xffffff, Reset bg -> 0x000000
    assert_eq!(fg, 0xffffff);
    assert_eq!(bg, 0x000000);
}

#[test]
fn resolve_colors_explicit_rgb() {
    let cell = styled(" ", Color::Rgb(255, 0, 128), Color::Rgb(0, 64, 0), StyleAttributes::empty());
    let (fg, bg) = resolve_fg_bg_colors(&cell);
    assert_eq!(fg, 0xff0080);
    assert_eq!(bg, 0x004000);
}

#[test]
fn resolve_colors_reversed_swaps() {
    let reversed = StyleAttributes { reversed: true, ..StyleAttributes::empty() };
    let cell = styled(" ", Color::Rgb(0xAA, 0xBB, 0xCC), Color::Rgb(0x11, 0x22, 0x33), reversed);
    let (fg, bg) = resolve_fg_bg_colors(&cell);
    // Colors should be swapped
    assert_eq!(fg, 0x112233);
    assert_eq!(bg, 0xAABBCC);
}

#[test]
fn reversed_swaps_after_resolving_reset() {
    let reversed = StyleAttributes { reversed: true, ..StyleAttributes::empty() };
    let cell = styled(" ", Color::Reset, Color::Rgb(0x11, 0x22, 0x33), reversed);
    assert_eq!(resolve_fg_bg_colors(&cell), (0x112233, 0xFFFFFF));
    let cell = styled(" ", Color::Reset, Color::Reset, reversed);
    assert_eq!(resolve_fg_bg_colors(&cell), (0x000000, 0xFFFFFF));
}

#[test]
fn cell_data_preserves_symbol() {
    let cell = styled("A", Color::White, Color::Black, StyleAttributes::empty());
    let data = cell_data(&cell);
    assert_eq!(data.symbol, "A");
    assert_eq!(data.fg_rgb, 0xFFFFFF);
    assert_eq!(data.bg_rgb, 0x000000);
    assert_eq!(data.style_bits, 0);
}

#[test]
fn cell_data_bold_italic_no_panic() {
    let bold_italic = StyleAttributes { bold: true, italic: true, ..StyleAttributes::empty() };
    let cell = styled("X", Color::LightCyan, Color::DarkGray, bold_italic);
    let data = cell_data(&cell);
    assert_eq!(data.symbol, "X");
    assert_eq!(data.style_bits, 0x0C00);
    assert_eq!(data.fg_rgb, 0x00FFFF);
    assert_eq!(data.bg_rgb, 0x808080);
}

#[test]
fn encode_bold_white_on_black() {
    let bold = StyleAttributes { bold: true, ..StyleAttributes::empty() };
    let cell = styled("A", Color::Rgb(255, 255, 255), Color::Rgb(0, 0, 0), bold);
    let data = cell_data(&cell);
    assert_eq!(data.symbol, "A");
    assert_eq!(data.fg_rgb, 0xFFFFFF);
    assert_eq!(data.bg_rgb, 0x000000);
    assert_eq!(data.style_bits, 0x0400);
}

#[test]
fn encode_reversed_rgb() {
    let reversed = StyleAttributes { reversed: true, ..StyleAttributes::empty() };
    let cell = styled("r", Color::Rgb(0xAA, 0xBB, 0xCC), Color::Rgb(0x11, 0x22, 0x33), reversed);
    let data = cell_data(&cell);
    assert_eq!(data.fg_rgb, 0x112233);
    assert_eq!(data.bg_rgb, 0xAABBCC);
    assert_eq!(data.style_bits, 0);
}

#[test]
fn rgb_round_trip_through_encoding() {
    let plain = StyleAttributes { underlined: true, ..StyleAttributes::empty() };
    let reversed = StyleAttributes { reversed: true, ..plain };
    let fg = Color::Rgb(0x12, 0x34, 0x56);
    let bg = Color::Rgb(0xFE, 0xDC, 0xBA);
    let kept = cell_data(&styled("k", fg, bg, plain));
    assert_eq!((kept.fg_rgb, kept.bg_rgb), (0x123456, 0xFEDCBA));
    let swapped = cell_data(&styled("k", fg, bg, reversed));
    assert_eq!((swapped.fg_rgb, swapped.bg_rgb), (0xFEDCBA, 0x123456));
    assert_eq!(kept.style_bits, swapped.style_bits);
}

#[test]
fn multibyte_symbol_kept() {
    let data = cell_data(&styled("\u{1F600}", Color::Indexed(21), Color::Indexed(244), StyleAttributes::empty()));
    assert_eq!(data.symbol, "\u{1F600}");
    assert_eq!(data.fg_rgb, 0x0000FF);
    assert_eq!(data.bg_rgb, 0x808080);
}
