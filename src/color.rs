use vstd::prelude::*;

verus! {

/// A terminal color as a text-UI framework hands it to a backend.
#[derive(Clone, Copy, Debug, PartialEq, Eq, Structural)]
pub enum Color {
    /// No color set: the role's default applies.
    Reset,
    Black,
    Red,
    Green,
    Yellow,
    Blue,
    Magenta,
    Cyan,
    Gray,
    DarkGray,
    LightRed,
    LightGreen,
    LightYellow,
    LightBlue,
    LightMagenta,
    LightCyan,
    White,
    /// Explicit 8-bit red, green and blue channels.
    Rgb(u8, u8, u8),
    /// A slot of the 256-color palette.
    Indexed(u8),
}

/// The 24-bit value `0xRRGGBB` of three channels.
pub open spec fn rgb(r: int, g: int, b: int) -> int {
    r * 0x10000 + g * 0x100 + b
}

/// The first sixteen palette slots, as common terminal emulators set them.
pub open spec fn basic_palette(i: int) -> int {
    if i == 0 {
        0x000000
    } else if i == 1 {
        0xCD0000
    } else if i == 2 {
        0x00CD00
    } else if i == 3 {
        0xCDCD00
    } else if i == 4 {
        0x0000EE
    } else if i == 5 {
        0xCD00CD
    } else if i == 6 {
        0x00CDCD
    } else if i == 7 {
        0xE5E5E5
    } else if i == 8 {
        0x7F7F7F
    } else if i == 9 {
        0xFF0000
    } else if i == 10 {
        0x00FF00
    } else if i == 11 {
        0xFFFF00
    } else if i == 12 {
        0x5C5CFF
    } else if i == 13 {
        0xFF00FF
    } else if i == 14 {
        0x00FFFF
    } else {
        0xFFFFFF
    }
}

/// Intensity of one channel step (0..=5) of the 6x6x6 color cube.
pub open spec fn cube_level(n: int) -> int {
    if n == 0 {
        0
    } else {
        55 + 40 * n
    }
}

/// Palette slots 16..=231: the 6x6x6 color cube.
pub open spec fn cube_rgb(i: int) -> int {
    let c = i - 16;
    rgb(cube_level(c / 36), cube_level((c % 36) / 6), cube_level(c % 6))
}

/// Palette slots 232..=255: a 24-step grayscale ramp.
pub open spec fn gray_rgb(i: int) -> int {
    let v = 8 + (i - 232) * 10;
    rgb(v, v, v)
}

/// The 24-bit value of a slot of the 256-color palette.
pub open spec fn indexed_rgb(i: int) -> int {
    if i < 16 {
        basic_palette(i)
    } else if i < 232 {
        cube_rgb(i)
    } else {
        gray_rgb(i)
    }
}

/// The 24-bit value of a color, with `fallback` standing for `Reset`.
pub open spec fn color_rgb(c: Color, fallback: int) -> int {
    match c {
        Color::Reset => fallback,
        Color::Black => 0x000000,
        Color::Red => 0x800000,
        Color::Green => 0x008000,
        Color::Yellow => 0x808000,
        Color::Blue => 0x000080,
        Color::Magenta => 0x800080,
        Color::Cyan => 0x008080,
        Color::Gray => 0xC0C0C0,
        Color::DarkGray => 0x808080,
        Color::LightRed => 0xFF0000,
        Color::LightGreen => 0x00FF00,
        Color::LightYellow => 0xFFFF00,
        Color::LightBlue => 0x0000FF,
        Color::LightMagenta => 0xFF00FF,
        Color::LightCyan => 0x00FFFF,
        Color::White => 0xFFFFFF,
        Color::Rgb(r, g, b) => rgb(r as int, g as int, b as int),
        Color::Indexed(i) => indexed_rgb(i as int),
    }
}

/// Packs three channels into `0xRRGGBB`.
fn pack_rgb(r: u32, g: u32, b: u32) -> (out: u32)
    requires
        r < 0x100,
        g < 0x100,
        b < 0x100,
    ensures
        out == rgb(r as int, g as int, b as int),
        out < 0x1000000,
{
    assert((r << 16u32) | (g << 8u32) | b == r * 0x10000 + g * 0x100 + b) by (bit_vector)
        requires
            r < 0x100,
            g < 0x100,
            b < 0x100,
    ;
    (r << 16u32) | (g << 8u32) | b
}

/// Channel intensity of one step of the color cube.
fn cube_channel(n: u8) -> (out: u32)
    requires
        n < 6,
    ensures
        out == cube_level(n as int),
{
    if n == 0 {
        0
    } else {
        55 + 40 * n as u32
    }
}

/// Converts a slot of the 256-color palette to its 24-bit RGB value.
pub fn indexed_color_to_rgb(index: u8) -> (out: u32)
    ensures
        out == indexed_rgb(index as int),
        out < 0x1000000,
{
    if index < 16 {
        let basic: [u32; 16] = [
            0x000000,
            0xCD0000,
            0x00CD00,
            0xCDCD00,
            0x0000EE,
            0xCD00CD,
            0x00CDCD,
            0xE5E5E5,
            0x7F7F7F,
            0xFF0000,
            0x00FF00,
            0xFFFF00,
            0x5C5CFF,
            0xFF00FF,
            0x00FFFF,
            0xFFFFFF,
        ];
        basic[index as usize]
    } else if index < 232 {
        let cube_index: u8 = index - 16;
        let r = cube_channel(cube_index / 36);
        let g = cube_channel((cube_index % 36) / 6);
        let b = cube_channel(cube_index % 6);
        pack_rgb(r, g, b)
    } else {
        let gray: u32 = 8 + (index - 232) as u32 * 10;
        pack_rgb(gray, gray, gray)
    }
}

/// Converts a color to a 24-bit RGB value; `Reset` yields `reset_fallback_rgb`.
pub fn to_rgb(color: Color, reset_fallback_rgb: u32) -> (out: u32)
    ensures
        out == color_rgb(color, reset_fallback_rgb as int),
        reset_fallback_rgb < 0x1000000 ==> out < 0x1000000,
{
    match color {
        Color::Rgb(r, g, b) => pack_rgb(r as u32, g as u32, b as u32),
        Color::Reset => reset_fallback_rgb,
        Color::Black => 0x000000,
        Color::Red => 0x800000,
        Color::Green => 0x008000,
        Color::Yellow => 0x808000,
        Color::Blue => 0x000080,
        Color::Magenta => 0x800080,
        Color::Cyan => 0x008080,
        Color::Gray => 0xC0C0C0,
        Color::DarkGray => 0x808080,
        Color::LightRed => 0xFF0000,
        Color::LightGreen => 0x00FF00,
        Color::LightYellow => 0xFFFF00,
        Color::LightBlue => 0x0000FF,
        Color::LightMagenta => 0xFF00FF,
        Color::LightCyan => 0x00FFFF,
        Color::White => 0xFFFFFF,
        Color::Indexed(code) => indexed_color_to_rgb(code),
    }
}

} // verus!
