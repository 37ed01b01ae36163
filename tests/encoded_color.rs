use srgb_color::decode::{DecodeError, Element};
use srgb_color::EncodedColor;

fn ints(values: &[i64]) -> Vec<Element> {
    values.iter().map(|v| Element::Integer(*v)).collect()
}

#[test]
fn builders() {
    let c = EncodedColor::white();
    assert_eq!(c.with_r(128), EncodedColor::new(128, 255, 255, 255));
    assert_eq!(c.with_g(128), EncodedColor::new(255, 128, 255, 255));
    assert_eq!(c.with_b(128), EncodedColor::new(255, 255, 128, 255));
    assert_eq!(c.with_a(128), EncodedColor::new(255, 255, 255, 128));
}

#[test]
fn from_u32s() {
    let cornwall_blue_in_rgba: u32 = 0x6b9ebeff;
    let cornwall_blue_in_bgra: u32 = 0xbe9e6bff;
    let cornwall_encoded = EncodedColor {
        r: 107,
        g: 158,
        b: 190,
        a: 255,
    };
    let encoded_rgba = EncodedColor::from_rgba_u32(cornwall_blue_in_rgba);
    assert_eq!(encoded_rgba, cornwall_encoded);
    assert_eq!(encoded_rgba.to_rgba_u32(), cornwall_blue_in_rgba);

    let encoded_bgra = EncodedColor::from_bgra_u32(cornwall_blue_in_bgra);
    assert_eq!(encoded_bgra, cornwall_encoded);
    assert_eq!(encoded_bgra.to_bgra_u32(), cornwall_blue_in_bgra);

    let rgba_as_hex = encoded_rgba.to_lower_hex(false);
    assert_eq!(rgba_as_hex, "6b9ebeff");

    let rgba_as_hex = encoded_rgba.to_upper_hex(true);
    assert_eq!(rgba_as_hex, "0x6B9EBEFF");
}

#[test]
fn serde() {
    let color = EncodedColor::new(50, 50, 50, 255);
    let serialized = color.to_sequence();
    assert_eq!(serialized, vec![50, 50, 50, 255]);
    let elements: Vec<Element> = serialized.iter().map(|b| Element::Integer(*b as i64)).collect();
    assert_eq!(EncodedColor::from_sequence(&elements), Ok(color));

    let color = EncodedColor::from_sequence(&ints(&[22, 33, 100, 210])).unwrap();
    assert_eq!(color, EncodedColor::new(22, 33, 100, 210));

    let o = EncodedColor::from_sequence(&[
        Element::Other,
        Element::Integer(50),
        Element::Integer(50),
        Element::Integer(255),
    ]);
    assert!(o.is_err());
    let o = EncodedColor::from_sequence(&ints(&[20, 50, 50, 256]));
    assert!(o.is_err());
    let o = EncodedColor::from_sequence(&ints(&[20, 50, 245]));
    assert!(o.is_err());
    let o = EncodedColor::from_sequence(&ints(&[-20, 20, 50, 255]));
    assert!(o.is_err());
    let o = EncodedColor::from_sequence(&ints(&[20, 20, 50, 255, 255]));
    assert!(o.is_err());

    let color = EncodedColor::new(44, 232, 8, 255);
    assert_eq!(color.to_sequence(), vec![44, 232, 8, 255]);
    assert_eq!(EncodedColor::from_byte_buffer(&[44, 232, 8, 255]), Ok(color));

    let color = EncodedColor::new(200, 21, 22, 203);
    let buff = color.to_sequence();
    assert_eq!(buff, vec![200, 21, 22, 203]);
    assert_eq!(EncodedColor::from_byte_buffer(&buff), Ok(color));

    assert!(EncodedColor::from_byte_buffer(&[14, 12, 3]).is_err());
    assert!(EncodedColor::from_byte_buffer(&[14, 12]).is_err());
    assert!(EncodedColor::from_byte_buffer(&14u64.to_le_bytes()).is_err());
    assert!(EncodedColor::from_byte_buffer(&31.0f32.to_le_bytes()).is_ok());
}

#[test]
fn decode_errors_name_the_cause() {
    assert_eq!(
        EncodedColor::from_sequence(&ints(&[20, 50, 50, 256])),
        Err(DecodeError::InvalidValue(3))
    );
    assert_eq!(
        EncodedColor::from_sequence(&ints(&[-20, 20, 50, 255])),
        Err(DecodeError::InvalidValue(0))
    );
    assert_eq!(
        EncodedColor::from_sequence(&[
            Element::Integer(1),
            Element::Other,
            Element::Integer(2),
            Element::Integer(3),
        ]),
        Err(DecodeError::InvalidValue(1))
    );
    assert_eq!(
        EncodedColor::from_sequence(&ints(&[20, 50, 245])),
        Err(DecodeError::InvalidLength(3))
    );
    assert_eq!(
        EncodedColor::from_sequence(&ints(&[20, 20, 50, 255, 255])),
        Err(DecodeError::InvalidLength(5))
    );
    assert_eq!(EncodedColor::from_sequence(&[]), Err(DecodeError::InvalidLength(0)));
    // A bad value among the first four is reported before a wrong length.
    assert_eq!(
        EncodedColor::from_sequence(&ints(&[300, 1])),
        Err(DecodeError::InvalidValue(0))
    );
    // Only the first four elements are inspected.
    assert_eq!(
        EncodedColor::from_sequence(&ints(&[1, 2, 3, 4, 999])),
        Err(DecodeError::InvalidLength(5))
    );
    assert_eq!(
        EncodedColor::from_byte_buffer(&[1, 2, 3, 4, 5]),
        Err(DecodeError::InvalidLength(5))
    );
    assert_eq!(
        EncodedColor::from_sequence(&ints(&[0, 255, 0, 255])),
        Ok(EncodedColor::new(0, 255, 0, 255))
    );
}

#[test]
fn defaults_are_transparent_black() {
    assert_eq!(EncodedColor::default(), EncodedColor::new(0, 0, 0, 0));
    assert_eq!(EncodedColor::default(), EncodedColor::clear());
}

#[test]
fn named_colors() {
    assert_eq!(EncodedColor::white(), EncodedColor::new(255, 255, 255, 255));
    assert_eq!(EncodedColor::black(), EncodedColor::new(0, 0, 0, 255));
    assert_eq!(EncodedColor::red(), EncodedColor::new(255, 0, 0, 255));
    assert_eq!(EncodedColor::red_clear(), EncodedColor::new(255, 0, 0, 0));
    assert_eq!(EncodedColor::green(), EncodedColor::new(0, 255, 0, 255));
    assert_eq!(EncodedColor::green_clear(), EncodedColor::new(0, 255, 0, 0));
    assert_eq!(EncodedColor::blue(), EncodedColor::new(0, 0, 255, 255));
    assert_eq!(EncodedColor::blue_clear(), EncodedColor::new(0, 0, 255, 0));
    assert_eq!(EncodedColor::yellow(), EncodedColor::new(255, 255, 0, 255));
    assert_eq!(EncodedColor::yellow_clear(), EncodedColor::new(255, 255, 0, 0));
    assert_eq!(EncodedColor::fuchsia(), EncodedColor::new(255, 0, 255, 255));
    assert_eq!(EncodedColor::fuchsia_clear(), EncodedColor::new(255, 0, 255, 0));
    assert_eq!(EncodedColor::teal(), EncodedColor::new(0, 255, 255, 255));
    assert_eq!(EncodedColor::teal_clear(), EncodedColor::new(0, 255, 255, 0));
}

#[test]
fn packed_round_trips() {
    let c = EncodedColor::new(107, 158, 190, 255);
    assert_eq!(c.to_rgba_u32(), 0x6b9ebeff);
    assert_eq!(EncodedColor::from_rgba_u32(c.to_rgba_u32()), c);
    assert_eq!(c.to_bgra_u32(), 0xbe9e6bff);
    assert_eq!(EncodedColor::from_bgra_u32(c.to_bgra_u32()), c);
    let v: u32 = 0x0102_0304;
    assert_eq!(EncodedColor::from_rgba_u32(v), EncodedColor::new(1, 2, 3, 4));
    assert_eq!(EncodedColor::from_bgra_u32(v), EncodedColor::new(3, 2, 1, 4));
    assert_eq!(EncodedColor::from_rgba_u32(v).to_rgba_u32(), v);
    assert_eq!(EncodedColor::from_bgra_u32(v).to_bgra_u32(), v);
}

#[test]
fn bit_casts() {
    assert_eq!(
        EncodedColor::from_bits([107, 158, 190, 255]),
        EncodedColor::new(107, 158, 190, 255)
    );
    let v = u32::from_le_bytes([107, 158, 190, 255]);
    assert_eq!(EncodedColor::from_bits_u32(v), EncodedColor::new(107, 158, 190, 255));
    assert_eq!(EncodedColor::from_bits_u32(0xff00_0001), EncodedColor::new(1, 0, 0, 255));
}

#[test]
fn tuple_and_array_conversions() {
    let c = EncodedColor::new(1, 2, 3, 4);
    let t: (u8, u8, u8, u8) = c.into();
    assert_eq!(t, (1, 2, 3, 4));
    assert_eq!(EncodedColor::from(t), c);
    let a: [u8; 4] = c.into();
    assert_eq!(a, [1, 2, 3, 4]);
    assert_eq!(EncodedColor::from(a), c);
}

#[test]
fn hex_text_has_no_padding() {
    assert_eq!(EncodedColor::new(0, 0, 0, 0).to_lower_hex(false), "0");
    assert_eq!(EncodedColor::new(0, 0, 0, 0).to_upper_hex(true), "0x0");
    assert_eq!(EncodedColor::new(0, 0, 1, 171).to_lower_hex(true), "0x1ab");
    assert_eq!(EncodedColor::new(0, 0, 1, 171).to_upper_hex(false), "1AB");
    assert_eq!(EncodedColor::new(255, 255, 255, 255).to_lower_hex(false), "ffffffff");
}

#[test]
fn display_text() {
    assert_eq!(
        EncodedColor::new(107, 158, 190, 255).to_display_string(),
        "r: 107, g: 158, b: 190, a: 255, 6b9ebeff"
    );
    assert_eq!(
        EncodedColor::new(0, 5, 10, 16).to_display_string(),
        "r: 0, g: 5, b: 10, a: 16, 50a10"
    );
    assert_eq!(
        EncodedColor::new(1, 2, 3, 4).to_display_string(),
        "r: 1, g: 2, b: 3, a: 4, 1020304"
    );
}

#[test]
fn ordering_is_lexicographic() {
    assert!(EncodedColor::new(1, 0, 0, 0) > EncodedColor::new(0, 255, 255, 255));
    assert!(EncodedColor::new(1, 2, 3, 4) < EncodedColor::new(1, 2, 3, 5));
}
