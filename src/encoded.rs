use vstd::prelude::*;

verus! {

/// A color in gamma-encoded sRGB, one byte per channel.
///
/// This is the space that texels of a texture, color pickers and image files
/// use. Blending must not happen here: convert to linear space first.
///
/// Ordering is lexicographic over `(r, g, b, a)`.
#[derive(Clone, Copy, PartialEq, Eq, Structural, PartialOrd, Ord, Hash, Debug)]
pub struct EncodedColor {
    /// The red component of the color.
    pub r: u8,
    /// The green component of the color.
    pub g: u8,
    /// The blue component of the color.
    pub b: u8,
    /// The alpha component of the color, normally the opacity in blending.
    pub a: u8,
}

/// Four bytes packed into a 32-bit integer, `hi` in the most significant
/// byte and `lo` in the least significant one.
pub open spec fn pack_u32(hi: u8, mid_hi: u8, mid_lo: u8, lo: u8) -> u32 {
    ((hi as u32) << 24u32) | ((mid_hi as u32) << 16u32) | ((mid_lo as u32) << 8u32) | (lo as u32)
}

/// Byte `i` of `v`, counting from the least significant byte.
pub open spec fn byte_of(v: u32, i: u32) -> u8 {
    ((v >> (8 * i)) & 0xffu32) as u8
}

/// The `rgba` packing of a color: red most significant, alpha least.
pub open spec fn rgba_of(c: EncodedColor) -> u32 {
    pack_u32(c.r, c.g, c.b, c.a)
}

/// The color that an `rgba` packed integer holds.
pub open spec fn color_of_rgba(v: u32) -> EncodedColor {
    EncodedColor { r: byte_of(v, 3), g: byte_of(v, 2), b: byte_of(v, 1), a: byte_of(v, 0) }
}

/// The `bgra` packing of a color: blue most significant, alpha least.
pub open spec fn bgra_of(c: EncodedColor) -> u32 {
    pack_u32(c.b, c.g, c.r, c.a)
}

/// The color that a `bgra` packed integer holds.
pub open spec fn color_of_bgra(v: u32) -> EncodedColor {
    EncodedColor { r: byte_of(v, 1), g: byte_of(v, 2), b: byte_of(v, 3), a: byte_of(v, 0) }
}

/// The color whose little-endian memory image is the integer `v`: red in
/// the least significant byte, alpha in the most significant one.
pub open spec fn color_of_bits(v: u32) -> EncodedColor {
    EncodedColor { r: byte_of(v, 0), g: byte_of(v, 1), b: byte_of(v, 2), a: byte_of(v, 3) }
}

/// Packing four bytes and reading them back yields the same four bytes.
proof fn lemma_bytes_of_pack(hi: u8, mid_hi: u8, mid_lo: u8, lo: u8)
    ensures
        byte_of(pack_u32(hi, mid_hi, mid_lo, lo), 3) == hi,
        byte_of(pack_u32(hi, mid_hi, mid_lo, lo), 2) == mid_hi,
        byte_of(pack_u32(hi, mid_hi, mid_lo, lo), 1) == mid_lo,
        byte_of(pack_u32(hi, mid_hi, mid_lo, lo), 0) == lo,
{
    let (h, x, y, l) = (hi as u32, mid_hi as u32, mid_lo as u32, lo as u32);
    assert(h <= 0xff && x <= 0xff && y <= 0xff && l <= 0xff);
    assert(h <= 0xff && x <= 0xff && y <= 0xff && l <= 0xff ==> {
        let v = (h << 24u32) | (x << 16u32) | (y << 8u32) | l;
        &&& (v >> 24u32) & 0xffu32 == h
        &&& (v >> 16u32) & 0xffu32 == x
        &&& (v >> 8u32) & 0xffu32 == y
        &&& (v >> 0u32) & 0xffu32 == l
    }) by (bit_vector);
}

/// Splitting an integer into its four bytes and packing them again yields
/// the same integer.
proof fn lemma_pack_of_bytes(v: u32)
    ensures
        pack_u32(byte_of(v, 3), byte_of(v, 2), byte_of(v, 1), byte_of(v, 0)) == v,
{
    assert(((((v >> 24u32) & 0xffu32) as u8) as u32) == (v >> 24u32) & 0xffu32) by (bit_vector);
    assert(((((v >> 16u32) & 0xffu32) as u8) as u32) == (v >> 16u32) & 0xffu32) by (bit_vector);
    assert(((((v >> 8u32) & 0xffu32) as u8) as u32) == (v >> 8u32) & 0xffu32) by (bit_vector);
    assert(((((v >> 0u32) & 0xffu32) as u8) as u32) == (v >> 0u32) & 0xffu32) by (bit_vector);
    assert(((((v >> 24u32) & 0xffu32) << 24u32) | (((v >> 16u32) & 0xffu32) << 16u32) | (((v
        >> 8u32) & 0xffu32) << 8u32) | ((v >> 0u32) & 0xffu32)) == v) by (bit_vector);
}

/// Packing a color as `rgba` and unpacking the integer gives the color
/// back; unpacking an `rgba` integer and packing the color gives the integer
/// back.
pub proof fn lemma_rgba_round_trip(c: EncodedColor, v: u32)
    ensures
        color_of_rgba(rgba_of(c)) == c,
        rgba_of(color_of_rgba(v)) == v,
{
    lemma_bytes_of_pack(c.r, c.g, c.b, c.a);
    lemma_pack_of_bytes(v);
}

/// Packing a color as `bgra` and unpacking the integer gives the color
/// back; unpacking a `bgra` integer and packing the color gives the integer
/// back.
pub proof fn lemma_bgra_round_trip(c: EncodedColor, v: u32)
    ensures
        color_of_bgra(bgra_of(c)) == c,
        bgra_of(color_of_bgra(v)) == v,
{
    lemma_bytes_of_pack(c.b, c.g, c.r, c.a);
    lemma_pack_of_bytes(v);
}

/// The least significant byte of `v`.
fn low_byte(v: u32) -> (res: u8)
    ensures
        res == v & 0xffu32,
        res == byte_of(v, 0),
{
    assert(v >> 0u32 == v) by (bit_vector);
    assert(v & 0xffu32 <= 0xffu32) by (bit_vector);
    (v & 0xffu32) as u8
}

/// The channels of a color in `r, g, b, a` order.
pub open spec fn channels(c: EncodedColor) -> Seq<u8> {
    seq![c.r, c.g, c.b, c.a]
}

impl EncodedColor {
    /// White (255, 255, 255, 255) at full opacity.
    pub fn white() -> (res: Self)
        ensures
            res == (EncodedColor { r: 255, g: 255, b: 255, a: 255 }),
    {
        EncodedColor { r: 255, g: 255, b: 255, a: 255 }
    }

    /// Black (0, 0, 0, 255) at full opacity.
    pub fn black() -> (res: Self)
        ensures
            res == (EncodedColor { r: 0, g: 0, b: 0, a: 255 }),
    {
        EncodedColor { r: 0, g: 0, b: 0, a: 255 }
    }

    /// Black (0, 0, 0, 0) at zero opacity.
    pub fn clear() -> (res: Self)
        ensures
            res == (EncodedColor { r: 0, g: 0, b: 0, a: 0 }),
    {
        EncodedColor { r: 0, g: 0, b: 0, a: 0 }
    }

    /// Red (255, 0, 0, 255) at full opacity.
    pub fn red() -> (res: Self)
        ensures
            res == (EncodedColor { r: 255, g: 0, b: 0, a: 255 }),
    {
        EncodedColor { r: 255, g: 0, b: 0, a: 255 }
    }

    /// Red (255, 0, 0, 0) at zero opacity.
    pub fn red_clear() -> (res: Self)
        ensures
            res == (EncodedColor { r: 255, g: 0, b: 0, a: 0 }),
    {
        EncodedColor { r: 255, g: 0, b: 0, a: 0 }
    }

    /// Green (0, 255, 0, 255) at full opacity.
    pub fn green() -> (res: Self)
        ensures
            res == (EncodedColor { r: 0, g: 255, b: 0, a: 255 }),
    {
        EncodedColor { r: 0, g: 255, b: 0, a: 255 }
    }

    /// Green (0, 255, 0, 0) at zero opacity.
    pub fn green_clear() -> (res: Self)
        ensures
            res == (EncodedColor { r: 0, g: 255, b: 0, a: 0 }),
    {
        EncodedColor { r: 0, g: 255, b: 0, a: 0 }
    }

    /// Blue (0, 0, 255, 255) at full opacity.
    pub fn blue() -> (res: Self)
        ensures
            res == (EncodedColor { r: 0, g: 0, b: 255, a: 255 }),
    {
        EncodedColor { r: 0, g: 0, b: 255, a: 255 }
    }

    /// Blue (0, 0, 255, 0) at zero opacity.
    pub fn blue_clear() -> (res: Self)
        ensures
            res == (EncodedColor { r: 0, g: 0, b: 255, a: 0 }),
    {
        EncodedColor { r: 0, g: 0, b: 255, a: 0 }
    }

    /// Yellow (255, 255, 0, 255) at full opacity.
    pub fn yellow() -> (res: Self)
        ensures
            res == (EncodedColor { r: 255, g: 255, b: 0, a: 255 }),
    {
        EncodedColor { r: 255, g: 255, b: 0, a: 255 }
    }

    /// Yellow (255, 255, 0, 0) at zero opacity.
    pub fn yellow_clear() -> (res: Self)
        ensures
            res == (EncodedColor { r: 255, g: 255, b: 0, a: 0 }),
    {
        EncodedColor { r: 255, g: 255, b: 0, a: 0 }
    }

    /// Fuchsia (255, 0, 255, 255) at full opacity; the usual color for graphics testing.
    pub fn fuchsia() -> (res: Self)
        ensures
            res == (EncodedColor { r: 255, g: 0, b: 255, a: 255 }),
    {
        EncodedColor { r: 255, g: 0, b: 255, a: 255 }
    }

    /// Fuchsia (255, 0, 255, 0) at zero opacity.
    pub fn fuchsia_clear() -> (res: Self)
        ensures
            res == (EncodedColor { r: 255, g: 0, b: 255, a: 0 }),
    {
        EncodedColor { r: 255, g: 0, b: 255, a: 0 }
    }

    /// Teal (0, 255, 255, 255) at full opacity.
    pub fn teal() -> (res: Self)
        ensures
            res == (EncodedColor { r: 0, g: 255, b: 255, a: 255 }),
    {
        EncodedColor { r: 0, g: 255, b: 255, a: 255 }
    }

    /// Teal (0, 255, 255, 0) at zero opacity.
    pub fn teal_clear() -> (res: Self)
        ensures
            res == (EncodedColor { r: 0, g: 255, b: 255, a: 0 }),
    {
        EncodedColor { r: 0, g: 255, b: 255, a: 0 }
    }

    /// Creates a color from its four channels.
    pub fn new(r: u8, g: u8, b: u8, a: u8) -> (res: Self)
        ensures
            res == (EncodedColor { r, g, b, a }),
    {
        EncodedColor { r, g, b, a }
    }

    /// This color with red replaced by `r`.
    #[must_use]
    pub fn with_r(self, r: u8) -> (res: Self)
        ensures
            res == (EncodedColor { r, ..self }),
    {
        EncodedColor { r, ..self }
    }

    /// This color with green replaced by `g`.
    #[must_use]
    pub fn with_g(self, g: u8) -> (res: Self)
        ensures
            res == (EncodedColor { g, ..self }),
    {
        EncodedColor { g, ..self }
    }

    /// This color with blue replaced by `b`.
    #[must_use]
    pub fn with_b(self, b: u8) -> (res: Self)
        ensures
            res == (EncodedColor { b, ..self }),
    {
        EncodedColor { b, ..self }
    }

    /// This color with alpha replaced by `a`.
    #[must_use]
    pub fn with_a(self, a: u8) -> (res: Self)
        ensures
            res == (EncodedColor { a, ..self }),
    {
        EncodedColor { a, ..self }
    }

    /// Unpacks a 32-bit integer that holds red in its most significant byte,
    /// then green, blue, and alpha in its least significant byte.
    pub fn from_rgba_u32(input: u32) -> (res: Self)
        ensures
            res == color_of_rgba(input),
    {
        EncodedColor {
            r: low_byte(input >> 24u32),
            g: low_byte(input >> 16u32),
            b: low_byte(input >> 8u32),
            a: low_byte(input),
        }
    }

    /// Packs this color into a 32-bit integer with red in its most
    /// significant byte, then green, blue, and alpha in its least significant
    /// byte.
    pub fn to_rgba_u32(self) -> (res: u32)
        ensures
            res == rgba_of(self),
    {
        ((self.r as u32) << 24u32) | ((self.g as u32) << 16u32) | ((self.b as u32) << 8u32) | (
        self.a as u32)
    }

    /// Unpacks a 32-bit integer that holds blue in its most significant byte,
    /// then green, red, and alpha in its least significant byte.
    pub fn from_bgra_u32(input: u32) -> (res: Self)
        ensures
            res == color_of_bgra(input),
    {
        EncodedColor {
            r: low_byte(input >> 8u32),
            g: low_byte(input >> 16u32),
            b: low_byte(input >> 24u32),
            a: low_byte(input),
        }
    }

    /// Packs this color into a 32-bit integer with blue in its most
    /// significant byte, then green, red, and alpha in its least significant
    /// byte.
    pub fn to_bgra_u32(self) -> (res: u32)
        ensures
            res == bgra_of(self),
    {
        ((self.b as u32) << 24u32) | ((self.g as u32) << 16u32) | ((self.r as u32) << 8u32) | (
        self.a as u32)
    }

    /// Reads a color from the memory layout of a `u32` on a little-endian
    /// machine: red is the least significant byte, alpha the most
    /// significant one.
    pub fn from_bits_u32(value: u32) -> (res: Self)
        ensures
            res == color_of_bits(value),
    {
        EncodedColor {
            r: low_byte(value),
            g: low_byte(value >> 8u32),
            b: low_byte(value >> 16u32),
            a: low_byte(value >> 24u32),
        }
    }

    /// Reads a color from four bytes in `r, g, b, a` order.
    pub fn from_bits(value: [u8; 4]) -> (res: Self)
        ensures
            channels(res) == value@,
    {
        let res = EncodedColor { r: value[0], g: value[1], b: value[2], a: value[3] };
        assert(channels(res) =~= value@);
        res
    }
}

impl Default for EncodedColor {
    /// Black at zero opacity, (0, 0, 0, 0).
    fn default() -> (res: Self)
        ensures
            res == (EncodedColor { r: 0, g: 0, b: 0, a: 0 }),
    {
        EncodedColor::clear()
    }
}

impl From<(u8, u8, u8, u8)> for EncodedColor {
    fn from(o: (u8, u8, u8, u8)) -> (res: Self)
        ensures
            res == (EncodedColor { r: o.0, g: o.1, b: o.2, a: o.3 }),
    {
        EncodedColor { r: o.0, g: o.1, b: o.2, a: o.3 }
    }
}

impl vstd::std_specs::convert::FromSpecImpl<(u8, u8, u8, u8)> for EncodedColor {
    open spec fn obeys_from_spec() -> bool {
        true
    }

    open spec fn from_spec(o: (u8, u8, u8, u8)) -> Self {
        EncodedColor { r: o.0, g: o.1, b: o.2, a: o.3 }
    }
}

impl From<EncodedColor> for (u8, u8, u8, u8) {
    fn from(o: EncodedColor) -> (res: Self)
        ensures
            res == (o.r, o.g, o.b, o.a),
    {
        (o.r, o.g, o.b, o.a)
    }
}

impl vstd::std_specs::convert::FromSpecImpl<EncodedColor> for (u8, u8, u8, u8) {
    open spec fn obeys_from_spec() -> bool {
        true
    }

    open spec fn from_spec(o: EncodedColor) -> Self {
        (o.r, o.g, o.b, o.a)
    }
}

impl From<[u8; 4]> for EncodedColor {
    fn from(o: [u8; 4]) -> (res: Self)
        ensures
            channels(res) == o@,
    {
        EncodedColor::from_bits(o)
    }
}

impl vstd::std_specs::convert::FromSpecImpl<[u8; 4]> for EncodedColor {
    open spec fn obeys_from_spec() -> bool {
        true
    }

    open spec fn from_spec(o: [u8; 4]) -> Self {
        EncodedColor { r: o@[0], g: o@[1], b: o@[2], a: o@[3] }
    }
}

impl From<EncodedColor> for [u8; 4] {
    fn from(o: EncodedColor) -> (res: Self)
        ensures
            res@ == channels(o),
    {
        let res = [o.r, o.g, o.b, o.a];
        assert(res@ =~= channels(o));
        res
    }
}

impl vstd::std_specs::convert::FromSpecImpl<EncodedColor> for [u8; 4] {
    open spec fn obeys_from_spec() -> bool {
        true
    }

    open spec fn from_spec(o: EncodedColor) -> Self {
        [o.r, o.g, o.b, o.a]
    }
}

} // verus!
