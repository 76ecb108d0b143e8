//! Bits of a stored string, addressed like Redis bitmaps: bit `offset` is bit
//! `offset % 8` of byte `offset / 8`, counted from the most significant bit.
use vstd::prelude::*;
use vstd::string::*;
use vstd::utf8::*;

verus! {

/// Bit `bit` (0 = most significant) of a byte.
pub open spec fn byte_bit(b: u8, bit: u8) -> bool {
    ((b >> ((7 - bit) as u8)) & 1u8) == 1u8
}

/// The byte with bit `bit` (0 = most significant) set to `value`.
pub open spec fn byte_with_bit(b: u8, bit: u8, value: bool) -> u8 {
    if value {
        b | (1u8 << ((7 - bit) as u8))
    } else {
        b & !(1u8 << ((7 - bit) as u8))
    }
}

/// The bit at `offset`; false past the last byte.
pub open spec fn bit_at(bytes: Seq<u8>, offset: nat) -> bool {
    let byte = offset / 8;
    if byte < bytes.len() {
        byte_bit(bytes[byte as int], (offset % 8) as u8)
    } else {
        false
    }
}

/// The bytes extended with zero bytes up to length `len`.
pub open spec fn padded(bytes: Seq<u8>, len: nat) -> Seq<u8> {
    if bytes.len() >= len {
        bytes
    } else {
        bytes + Seq::new((len - bytes.len()) as nat, |i: int| 0u8)
    }
}

/// The bytes with the bit at `offset` set to `value`, zero bytes added first
/// where the bytes are too short.
pub open spec fn with_bit(bytes: Seq<u8>, offset: nat, value: bool) -> Seq<u8> {
    let byte = offset / 8;
    let p = padded(bytes, byte + 1);
    p.update(byte as int, byte_with_bit(p[byte as int], (offset % 8) as u8, value))
}

/// The bytes a stored string is made of (UTF-8); none when nothing is stored.
pub open spec fn stored_bytes(stored: Option<Seq<char>>) -> Seq<u8> {
    match stored {
        Some(s) => encode_utf8(s),
        None => Seq::empty(),
    }
}

/// The text an optional string holds.
pub open spec fn text_view(o: Option<String>) -> Option<Seq<char>> {
    match o {
        Some(s) => Some(s@),
        None => None,
    }
}

/// What `String::from_utf8_lossy` makes of a byte sequence.
pub uninterp spec fn utf8_lossy(bytes: Seq<u8>) -> Seq<char>;

/// `String::from_utf8_lossy`: the text the bytes encode, with each invalid
/// sequence replaced by U+FFFD; valid UTF-8 is decoded unchanged.
#[verifier::external_body]
pub(crate) fn from_utf8_lossy(bytes: &[u8]) -> (r: String)
    ensures
        r@ == utf8_lossy(bytes@),
        valid_utf8(bytes@) ==> r@ == decode_utf8(bytes@),
{
    String::from_utf8_lossy(bytes).into_owned()
}

/// The text `from_utf8_lossy` makes of the bytes: their decoding when they are
/// valid UTF-8.
pub open spec fn lossy_text(bytes: Seq<u8>) -> Seq<char> {
    if valid_utf8(bytes) {
        decode_utf8(bytes)
    } else {
        utf8_lossy(bytes)
    }
}

/// Setting a bit and reading it back gives the value set.
pub proof fn lemma_byte_bit_written(b: u8, bit: u8, value: bool)
    requires
        bit < 8,
    ensures
        byte_bit(byte_with_bit(b, bit, value), bit) == value,
{
    assert(bit < 8 ==> ((((b | (1u8 << ((7 - bit) as u8))) >> ((7 - bit) as u8)) & 1u8) == 1u8)) by (bit_vector);
    assert(bit < 8 ==> ((((b & !(1u8 << ((7 - bit) as u8))) >> ((7 - bit) as u8)) & 1u8) == 0u8)) by (bit_vector);
}

/// Setting a bit leaves every other bit of the byte as it was.
pub proof fn lemma_byte_bit_kept(b: u8, bit: u8, other: u8, value: bool)
    requires
        bit < 8,
        other < 8,
        bit != other,
    ensures
        byte_bit(byte_with_bit(b, bit, value), other) == byte_bit(b, other),
{
    assert(bit < 8 && other < 8 && bit != other ==> ((((b | (1u8 << ((7 - bit) as u8))) >> ((7 - other) as u8)) & 1u8)
        == (((b >> ((7 - other) as u8)) & 1u8)))) by (bit_vector);
    assert(bit < 8 && other < 8 && bit != other ==> ((((b & !(1u8 << ((7 - bit) as u8))) >> ((7 - other) as u8)) & 1u8)
        == (((b >> ((7 - other) as u8)) & 1u8)))) by (bit_vector);
}

/// Law: after the bit at `offset` is set to `value`, reading it gives `value`.
pub proof fn law_bit_written_is_read(bytes: Seq<u8>, offset: nat, value: bool)
    ensures
        bit_at(with_bit(bytes, offset, value), offset) == value,
{
    let byte = offset / 8;
    let p = padded(bytes, byte + 1);
    lemma_byte_bit_written(p[byte as int], (offset % 8) as u8, value);
}

/// Law: setting the bit at `offset` leaves the bit at every other offset as it was.
pub proof fn law_other_bits_kept(bytes: Seq<u8>, offset: nat, other: nat, value: bool)
    requires
        other != offset,
    ensures
        bit_at(with_bit(bytes, offset, value), other) == bit_at(bytes, other),
{
    let byte = offset / 8;
    let p = padded(bytes, byte + 1);
    let w = with_bit(bytes, offset, value);
    let ob = other / 8;
    if ob == byte {
        lemma_byte_bit_kept(p[byte as int], (offset % 8) as u8, (other % 8) as u8, value);
        if byte >= bytes.len() {
            assert(p[byte as int] == 0u8);
            assert(byte_bit(0u8, (other % 8) as u8) == false) by {
                let o = (other % 8) as u8;
                assert(o < 8 ==> (((0u8 >> ((7 - o) as u8)) & 1u8) == 0u8)) by (bit_vector);
            }
        }
    } else if ob < p.len() {
        assert(w[ob as int] == p[ob as int]);
        if ob >= bytes.len() {
            assert(p[ob as int] == 0u8);
            let o = (other % 8) as u8;
            assert(o < 8 ==> (((0u8 >> ((7 - o) as u8)) & 1u8) == 0u8)) by (bit_vector);
        } else {
            assert(p[ob as int] == bytes[ob as int]);
        }
    }
}

/// The bit at `offset` of the UTF-8 bytes of `value`; false past its end.
pub fn bit_of_text(value: &str, offset: u64) -> (r: bool)
    ensures
        r == bit_at(encode_utf8(value@), offset as nat),
{
    let bytes = value.as_bytes();
    let byte_offset = offset / 8;
    let bit = (offset % 8) as u8;
    if byte_offset < bytes.len() as u64 {
        let byte = bytes[byte_offset as usize];
        ((byte >> (7 - bit)) & 1) == 1
    } else {
        false
    }
}

/// Sets the bit at `offset` of the bytes of the stored text (no text: no bytes) to
/// `value`; the new text (the bytes read back with `from_utf8_lossy`) and the bit
/// as it was before.
pub fn text_with_bit(stored: Option<String>, offset: u64, value: bool) -> (r: (String, bool))
    requires
        offset / 8 < usize::MAX,
    ensures
        r.0@ == lossy_text(with_bit(stored_bytes(text_view(stored)), offset as nat, value)),
        r.1 == bit_at(stored_bytes(text_view(stored)), offset as nat),
{
    let ghost old_bytes = stored_bytes(text_view(stored));
    let mut bytes: Vec<u8> = match stored {
        Some(existing) => existing.as_str().as_bytes_vec(),
        None => Vec::new(),
    };
    assert(bytes@ == old_bytes);
    let byte_offset = (offset / 8) as usize;
    let bit = (offset % 8) as u8;
    if byte_offset >= bytes.len() {
        bytes.resize(byte_offset + 1, 0u8);
        proof {
            assert(bytes@ =~= padded(old_bytes, (offset / 8 + 1) as nat));
        }
    } else {
        assert(bytes@ =~= padded(old_bytes, (offset / 8 + 1) as nat));
    }
    let old_byte = bytes[byte_offset];
    let new_byte = if value {
        old_byte | (1u8 << (7 - bit))
    } else {
        old_byte & !(1u8 << (7 - bit))
    };
    bytes.set(byte_offset, new_byte);
    assert(bytes@ =~= with_bit(old_bytes, offset as nat, value));
    let text = from_utf8_lossy(bytes.as_slice());
    let was = ((old_byte >> (7 - bit)) & 1) == 1;
    proof {
        if (offset / 8) < old_bytes.len() {
            assert(old_byte == old_bytes[(offset / 8) as int]);
        } else {
            assert(old_byte == 0u8);
            assert(bit < 8 ==> (((0u8 >> ((7 - bit) as u8)) & 1u8) == 0u8)) by (bit_vector);
        }
    }
    (text, was)
}

} // verus!
