use vstd::prelude::*;

verus! {

/// Bit 10 of the renderer's style field: bold font.
pub const BOLD_BIT: u16 = 0x0400;

/// Bit 11 of the renderer's style field: italic font.
pub const ITALIC_BIT: u16 = 0x0800;

/// Bit 13 of the renderer's style field: underline effect.
pub const UNDERLINE_BIT: u16 = 0x2000;

/// Bit 14 of the renderer's style field: strikethrough effect.
pub const STRIKETHROUGH_BIT: u16 = 0x4000;

/// Independent style flags of one terminal cell.
#[derive(Clone, Copy, Debug, PartialEq, Eq, Structural)]
pub struct StyleAttributes {
    pub bold: bool,
    pub italic: bool,
    pub underlined: bool,
    pub crossed_out: bool,
    pub reversed: bool,
}

/// `bit` if the attribute is set, else no bit.
pub open spec fn flag_bit(set: bool, bit: u16) -> u16 {
    if set {
        bit
    } else {
        0
    }
}

/// The renderer's 16-bit style field for a set of attributes. Reverse video
/// has no bit: it is carried by swapping the colors.
pub open spec fn glyph_bits(a: StyleAttributes) -> u16 {
    flag_bit(a.bold, BOLD_BIT) | flag_bit(a.italic, ITALIC_BIT) | flag_bit(a.underlined, UNDERLINE_BIT)
        | flag_bit(a.crossed_out, STRIKETHROUGH_BIT)
}

/// Whether bit `i` of `bits` is set.
pub open spec fn has_bit(bits: u16, i: u16) -> bool {
    (bits >> i) & 1u16 == 1u16
}

/// The union of two attribute sets.
pub open spec fn union_spec(a: StyleAttributes, b: StyleAttributes) -> StyleAttributes {
    StyleAttributes {
        bold: a.bold || b.bold,
        italic: a.italic || b.italic,
        underlined: a.underlined || b.underlined,
        crossed_out: a.crossed_out || b.crossed_out,
        reversed: a.reversed || b.reversed,
    }
}

impl StyleAttributes {
    /// The set with no attribute.
    pub fn empty() -> (r: StyleAttributes)
        ensures
            r == (StyleAttributes {
                bold: false,
                italic: false,
                underlined: false,
                crossed_out: false,
                reversed: false,
            }),
    {
        StyleAttributes {
            bold: false,
            italic: false,
            underlined: false,
            crossed_out: false,
            reversed: false,
        }
    }

    /// Reads the attributes from a text-UI modifier bit-set, whose layout is
    /// bold at bit 0, italic at bit 2, underlined at bit 3, reversed at bit 6
    /// and crossed-out at bit 8. Other bits are ignored.
    pub fn from_modifier_bits(bits: u16) -> (r: StyleAttributes)
        ensures
            r.bold == has_bit(bits, 0),
            r.italic == has_bit(bits, 2),
            r.underlined == has_bit(bits, 3),
            r.reversed == has_bit(bits, 6),
            r.crossed_out == has_bit(bits, 8),
    {
        StyleAttributes {
            bold: (bits >> 0u16) & 1 == 1,
            italic: (bits >> 2u16) & 1 == 1,
            underlined: (bits >> 3u16) & 1 == 1,
            crossed_out: (bits >> 8u16) & 1 == 1,
            reversed: (bits >> 6u16) & 1 == 1,
        }
    }

    /// The attributes set in `self` or in `other`.
    pub fn union(self, other: StyleAttributes) -> (r: StyleAttributes)
        ensures
            r == union_spec(self, other),
    {
        StyleAttributes {
            bold: self.bold || other.bold,
            italic: self.italic || other.italic,
            underlined: self.underlined || other.underlined,
            crossed_out: self.crossed_out || other.crossed_out,
            reversed: self.reversed || other.reversed,
        }
    }
}

/// Packs the attributes into the renderer's 16-bit style field: bold at bit 10,
/// italic at bit 11, underline at bit 13, strikethrough at bit 14, all other
/// bits zero.
pub fn into_glyph_bits(attrs: StyleAttributes) -> (bits: u16)
    ensures
        bits == glyph_bits(attrs),
{
    let bold: u16 = if attrs.bold { BOLD_BIT } else { 0 };
    let italic: u16 = if attrs.italic { ITALIC_BIT } else { 0 };
    let underline: u16 = if attrs.underlined { UNDERLINE_BIT } else { 0 };
    let strikethrough: u16 = if attrs.crossed_out { STRIKETHROUGH_BIT } else { 0 };
    bold | italic | underline | strikethrough
}

/// A flag set in either of two sets contributes its bit to the OR of their fields.
proof fn lemma_flag_bit_or(p: bool, q: bool, bit: u16)
    ensures
        flag_bit(p || q, bit) == flag_bit(p, bit) | flag_bit(q, bit),
{
    assert(bit | 0u16 == bit && 0u16 | bit == bit && bit | bit == bit && 0u16 | 0u16 == 0u16)
        by (bit_vector);
}

/// Attributes compose by union, and their style fields by bitwise OR: the field
/// of a union is the OR of the two fields, and adding a set to itself changes
/// nothing.
pub proof fn lemma_glyph_bits_union(a: StyleAttributes, b: StyleAttributes)
    ensures
        glyph_bits(union_spec(a, b)) == glyph_bits(a) | glyph_bits(b),
        union_spec(a, a) == a,
        glyph_bits(union_spec(a, a)) == glyph_bits(a),
{
    lemma_flag_bit_or(a.bold, b.bold, BOLD_BIT);
    lemma_flag_bit_or(a.italic, b.italic, ITALIC_BIT);
    lemma_flag_bit_or(a.underlined, b.underlined, UNDERLINE_BIT);
    lemma_flag_bit_or(a.crossed_out, b.crossed_out, STRIKETHROUGH_BIT);
    let (x1, x2, x3, x4) = (
        flag_bit(a.bold, BOLD_BIT),
        flag_bit(a.italic, ITALIC_BIT),
        flag_bit(a.underlined, UNDERLINE_BIT),
        flag_bit(a.crossed_out, STRIKETHROUGH_BIT),
    );
    let (y1, y2, y3, y4) = (
        flag_bit(b.bold, BOLD_BIT),
        flag_bit(b.italic, ITALIC_BIT),
        flag_bit(b.underlined, UNDERLINE_BIT),
        flag_bit(b.crossed_out, STRIKETHROUGH_BIT),
    );
    assert((x1 | y1) | (x2 | y2) | (x3 | y3) | (x4 | y4) == (x1 | x2 | x3 | x4) | (y1 | y2 | y3
        | y4)) by (bit_vector);
}

} // verus!
