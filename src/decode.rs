use vstd::prelude::*;

use crate::encoded::{EncodedColor, channels};

verus! {

/// One element of a sequence that a color is decoded from, as a parser of a
/// textual or self-describing format reports it.
#[derive(Clone, Copy, PartialEq, Eq, Structural, Debug)]
pub enum Element {
    /// An integer.
    Integer(i64),
    /// Anything that is not an integer (a fraction, a string, a nested value).
    Other,
}

/// Why a sequence or a buffer does not hold a color.
#[derive(Clone, Copy, PartialEq, Eq, Structural, Debug)]
pub enum DecodeError {
    /// The input holds this many elements (or bytes) instead of four.
    InvalidLength(usize),
    /// The element at this index is not an integer in `0..=255`.
    InvalidValue(usize),
}

/// Whether `e` is an integer that fits in a channel.
pub open spec fn is_channel(e: Element) -> bool {
    match e {
        Element::Integer(v) => 0 <= v <= 255,
        Element::Other => false,
    }
}

/// The channel value of an element that `is_channel`.
pub open spec fn channel_value(e: Element) -> u8 {
    match e {
        Element::Integer(v) => v as u8,
        Element::Other => 0,
    }
}

/// Whether the first `n` elements of `items` all fit in a channel.
pub open spec fn all_channels(items: Seq<Element>, n: int) -> bool {
    forall|j: int| 0 <= j < n ==> is_channel(#[trigger] items[j])
}

/// The number of leading elements that decoding inspects.
pub open spec fn inspected(items: Seq<Element>) -> int {
    if items.len() < 4 {
        items.len() as int
    } else {
        4
    }
}

/// The color whose channels, in `r, g, b, a` order, are the first four
/// bytes of `s`.
pub open spec fn color_of_channels(s: Seq<u8>) -> EncodedColor {
    EncodedColor { r: s[0], g: s[1], b: s[2], a: s[3] }
}

/// The result of decoding a color from `items`.
///
/// The first four elements are read in order; the first of them that does
/// not fit in a channel is reported. Otherwise a sequence that is not of
/// length four is rejected for its length.
pub open spec fn decode_sequence(items: Seq<Element>) -> Result<EncodedColor, DecodeError> {
    if !all_channels(items, inspected(items)) {
        let i = choose|i: int|
            0 <= i < inspected(items) && !is_channel(items[i]) && all_channels(items, i);
        Err(DecodeError::InvalidValue(i as usize))
    } else if items.len() != 4 {
        Err(DecodeError::InvalidLength(items.len() as usize))
    } else {
        Ok(color_of_channels(items.map_values(|e: Element| channel_value(e))))
    }
}

/// The result of decoding a color from a raw buffer of bytes in
/// `r, g, b, a` order.
pub open spec fn decode_bytes(bytes: Seq<u8>) -> Result<EncodedColor, DecodeError> {
    if bytes.len() == 4 {
        Ok(color_of_channels(bytes))
    } else {
        Err(DecodeError::InvalidLength(bytes.len() as usize))
    }
}

impl EncodedColor {
    /// Decodes a color from a sequence of exactly four integers in
    /// `0..=255`, in `r, g, b, a` order.
    pub fn from_sequence(items: &[Element]) -> (res: Result<EncodedColor, DecodeError>)
        ensures
            res == decode_sequence(items@),
    {
        let n: usize = if items.len() < 4 {
            items.len()
        } else {
            4
        };
        let mut i: usize = 0;
        while i < n
            invariant
                n == inspected(items@),
                0 <= i <= n,
                all_channels(items@, i as int),
            decreases n - i,
        {
            let ok = match items[i] {
                Element::Integer(v) => 0 <= v && v <= 255,
                Element::Other => false,
            };
            if !ok {
                proof {
                    let j = choose|j: int|
                        0 <= j < inspected(items@) && !is_channel(items@[j]) && all_channels(
                            items@,
                            j,
                        );
                    assert(j == i) by {
                        if j < i {
                            assert(is_channel(items@[j]));
                        }
                        if j > i {
                            assert(is_channel(items@[i as int]));
                        }
                    }
                }
                return Err(DecodeError::InvalidValue(i));
            }
            i = i + 1;
        }
        if items.len() != 4 {
            return Err(DecodeError::InvalidLength(items.len()));
        }
        let res = EncodedColor {
            r: channel_of(items[0]),
            g: channel_of(items[1]),
            b: channel_of(items[2]),
            a: channel_of(items[3]),
        };
        assert(is_channel(items@[0]) && is_channel(items@[1]) && is_channel(items@[2])
            && is_channel(items@[3]));
        Ok(res)
    }

    /// Decodes a color from a raw buffer of exactly four bytes in
    /// `r, g, b, a` order; any four bytes form a color.
    pub fn from_byte_buffer(bytes: &[u8]) -> (res: Result<EncodedColor, DecodeError>)
        ensures
            res == decode_bytes(bytes@),
    {
        if bytes.len() != 4 {
            return Err(DecodeError::InvalidLength(bytes.len()));
        }
        Ok(EncodedColor { r: bytes[0], g: bytes[1], b: bytes[2], a: bytes[3] })
    }

    /// The serialized form of this color: its four channels in `r, g, b, a`
    /// order.
    pub fn to_sequence(self) -> (res: Vec<u8>)
        ensures
            res@ == channels(self),
    {
        let res = vec![self.r, self.g, self.b, self.a];
        assert(res@ =~= channels(self));
        res
    }
}

/// The sequence elements that the serialized form of `c` reads back as.
pub open spec fn elements_of(c: EncodedColor) -> Seq<Element> {
    channels(c).map_values(|b: u8| Element::Integer(b as i64))
}

/// Decoding the serialized channels of a color, as sequence elements or as
/// a raw byte buffer, gives the color back.
pub proof fn lemma_decode_round_trip(c: EncodedColor)
    ensures
        decode_sequence(elements_of(c)) == Ok::<EncodedColor, DecodeError>(c),
        decode_bytes(channels(c)) == Ok::<EncodedColor, DecodeError>(c),
{
    let items = elements_of(c);
    assert(all_channels(items, inspected(items)));
    assert(items.map_values(|e: Element| channel_value(e)) =~= channels(c));
}

/// The channel value of an element that fits in a channel.
fn channel_of(e: Element) -> (res: u8)
    requires
        is_channel(e),
    ensures
        res == channel_value(e),
{
    match e {
        Element::Integer(v) => v as u8,
        Element::Other => 0,
    }
}

} // verus!
