//! Percent-encoding of identifiers that are embedded in a URL.

use vstd::prelude::*;
use vstd::utf8::{encode_utf8, is_ascii_chars, is_ascii_chars_encode_utf8};

verus! {

/// The percent sign.
pub const PERCENT: u8 = 0x25;

/// The digit zero.
pub const DIGIT_0: u8 = 0x30;

/// The digit nine.
pub const DIGIT_9: u8 = 0x39;

/// The letter `A`, the hexadecimal digit for ten.
pub const UPPER_A: u8 = 0x41;

/// The letter `F`, the hexadecimal digit for fifteen.
pub const UPPER_F: u8 = 0x46;

/// The letter `a`.
pub const LOWER_A: u8 = 0x61;

/// The letter `f`.
pub const LOWER_F: u8 = 0x66;

/// Whether a byte of an identifier is written as `%XX`: controls and
/// everything above `~`, the space, and the punctuation that has a meaning in
/// a URL. The percent sign itself is not among them.
pub open spec fn must_escape(b: u8) -> bool {
    ||| b < 0x20
    ||| b > 0x7e
    ||| b == 0x20  // space
    ||| b == 0x22  // "
    ||| b == 0x23  // #
    ||| b == 0x2f  // /
    ||| b == 0x3a  // :
    ||| b == 0x3b  // ;
    ||| b == 0x3c  // <
    ||| b == 0x3d  // =
    ||| b == 0x3e  // >
    ||| b == 0x3f  // ?
    ||| b == 0x40  // @
    ||| b == 0x5b  // [
    ||| b == 0x5c  // \
    ||| b == 0x5d  // ]
    ||| b == 0x5e  // ^
    ||| b == 0x60  // `
    ||| b == 0x7b  // {
    ||| b == 0x7c  // |
    ||| b == 0x7d  // }
}

/// The upper-case hexadecimal digit for a value below sixteen.
pub open spec fn hex_digit(value: u8) -> u8 {
    if value < 10 {
        (DIGIT_0 + value) as u8
    } else {
        (UPPER_A + value - 10) as u8
    }
}

/// The value of a hexadecimal digit of either case.
pub open spec fn hex_value(digit: u8) -> Option<u8> {
    if DIGIT_0 <= digit <= DIGIT_9 {
        Some((digit - DIGIT_0) as u8)
    } else if LOWER_A <= digit <= LOWER_F {
        Some((digit - LOWER_A + 10) as u8)
    } else if UPPER_A <= digit <= UPPER_F {
        Some((digit - UPPER_A + 10) as u8)
    } else {
        None
    }
}

/// How one byte is written.
pub open spec fn encoded_byte(b: u8) -> Seq<u8> {
    if must_escape(b) {
        seq![PERCENT, hex_digit(b / 16), hex_digit(b % 16)]
    } else {
        seq![b]
    }
}

/// The percent-encoding of `bytes`.
pub open spec fn percent_encoded(bytes: Seq<u8>) -> Seq<u8>
    decreases bytes.len(),
{
    if bytes.len() == 0 {
        seq![]
    } else {
        encoded_byte(bytes[0]) + percent_encoded(bytes.drop_first())
    }
}

/// Whether `bytes` holds, at `i`, a percent sign followed by two hexadecimal
/// digits.
pub open spec fn escape_at(bytes: Seq<u8>, i: int) -> bool {
    &&& 0 <= i
    &&& i + 2 < bytes.len()
    &&& bytes[i] == PERCENT
    &&& hex_value(bytes[i + 1]) is Some
    &&& hex_value(bytes[i + 2]) is Some
}

/// What a receiver reads out of percent-encoded `bytes`: every percent sign
/// followed by two hexadecimal digits stands for one byte, everything else
/// for itself.
pub open spec fn percent_decoded(bytes: Seq<u8>) -> Seq<u8>
    decreases bytes.len(),
{
    if bytes.len() == 0 {
        seq![]
    } else if escape_at(bytes, 0) {
        seq![(hex_value(bytes[1])->0 * 16 + hex_value(bytes[2])->0) as u8] + percent_decoded(
            bytes.skip(3),
        )
    } else {
        seq![bytes[0]] + percent_decoded(bytes.drop_first())
    }
}

/// Bytes below 128 as the characters they are.
pub open spec fn ascii_text(bytes: Seq<u8>) -> Seq<char> {
    Seq::new(bytes.len(), |i: int| bytes[i] as char)
}

/// An identifier as it is embedded in a URL: the percent-encoding of its
/// UTF-8 bytes.
pub open spec fn encoded_id(id: Seq<char>) -> Seq<char> {
    ascii_text(percent_encoded(encode_utf8(id)))
}

/// Calls `percent_encoding::utf8_percent_encode` with `USERINFO_ENCODE_SET`
/// and collects what it yields. The crate writes each byte of the set as a
/// percent sign and two upper-case hexadecimal digits and every other byte as
/// it is; the set is the one `must_escape` spells out.
#[verifier::external_body]
pub(crate) fn percent_encode_id(id: &str) -> (encoded: String)
    ensures
        encoded@ == encoded_id(id@),
{
    percent_encoding::utf8_percent_encode(id, percent_encoding::USERINFO_ENCODE_SET).to_string()
}

/// A hexadecimal digit written for a value reads back as that value.
proof fn lemma_hex_digit_value(value: u8)
    requires
        value < 16,
    ensures
        hex_value(hex_digit(value)) == Some(value),
        !must_escape(hex_digit(value)),
{
}

/// An escaped byte in front of `tail` is read back as that byte.
proof fn lemma_decode_escaped(b: u8, tail: Seq<u8>)
    ensures
        percent_decoded(seq![PERCENT, hex_digit(b / 16), hex_digit(b % 16)] + tail) == seq![b]
            + percent_decoded(tail),
{
    let text = seq![PERCENT, hex_digit(b / 16), hex_digit(b % 16)] + tail;
    lemma_hex_digit_value(b / 16);
    lemma_hex_digit_value(b % 16);
    assert(text[0] == PERCENT && text[1] == hex_digit(b / 16) && text[2] == hex_digit(b % 16));
    assert(escape_at(text, 0));
    assert(text.skip(3) =~= tail);
    assert((b / 16) * 16 + b % 16 == b);
}

/// A byte that starts no escape is read back as itself.
proof fn lemma_decode_literal(b: u8, tail: Seq<u8>)
    requires
        !escape_at(seq![b] + tail, 0),
    ensures
        percent_decoded(seq![b] + tail) == seq![b] + percent_decoded(tail),
{
    assert((seq![b] + tail).drop_first() =~= tail);
}

/// The first two bytes of an encoding, as far as the input decides them.
proof fn lemma_encoding_starts(bytes: Seq<u8>)
    requires
        bytes.len() >= 1,
    ensures
        percent_encoded(bytes).len() >= 1,
        percent_encoded(bytes)[0] == if must_escape(bytes[0]) {
            PERCENT
        } else {
            bytes[0]
        },
        !must_escape(bytes[0]) && percent_encoded(bytes).len() >= 2 ==> bytes.len() >= 2
            && percent_encoded(bytes)[1] == if must_escape(bytes[1]) {
            PERCENT
        } else {
            bytes[1]
        },
{
    let rest = bytes.drop_first();
    assert(percent_encoded(bytes) == encoded_byte(bytes[0]) + percent_encoded(rest));
    if !must_escape(bytes[0]) {
        if rest.len() >= 1 {
            assert(rest[0] == bytes[1]);
            assert(percent_encoded(rest) == encoded_byte(rest[0]) + percent_encoded(
                rest.drop_first(),
            ));
        }
    }
}

/// Decoding undoes encoding: a receiver that percent-decodes an encoded
/// identifier reads the very bytes that were encoded. The percent sign is
/// written as it is, so this holds of the inputs in which no percent sign is
/// followed by two hexadecimal digits.
pub proof fn lemma_decoding_restores(bytes: Seq<u8>)
    requires
        forall|i: int| !escape_at(bytes, i),
    ensures
        percent_decoded(percent_encoded(bytes)) == bytes,
    decreases bytes.len(),
{
    if bytes.len() > 0 {
        let b = bytes[0];
        let rest = bytes.drop_first();
        assert forall|i: int| !escape_at(rest, i) by {
            assert(!escape_at(bytes, i + 1));
        }
        lemma_decoding_restores(rest);
        assert(seq![b] + rest =~= bytes);
        if must_escape(b) {
            lemma_decode_escaped(b, percent_encoded(rest));
        } else {
            let text = seq![b] + percent_encoded(rest);
            if b == PERCENT && text.len() >= 3 {
                lemma_encoding_starts(rest);
                assert(text[1] == percent_encoded(rest)[0]);
                assert(text[2] == percent_encoded(rest)[1]);
                assert(!escape_at(bytes, 0));
            }
            lemma_decode_literal(b, percent_encoded(rest));
        }
    }
}

/// Nothing that has to be escaped is left in an encoding.
pub proof fn lemma_encoding_is_clean(bytes: Seq<u8>)
    ensures
        forall|i: int|
            0 <= i < percent_encoded(bytes).len() ==> !must_escape(
                #[trigger] percent_encoded(bytes)[i],
            ),
    decreases bytes.len(),
{
    if bytes.len() > 0 {
        lemma_encoding_is_clean(bytes.drop_first());
        lemma_hex_digit_value(bytes[0] / 16);
        lemma_hex_digit_value(bytes[0] % 16);
        let head = encoded_byte(bytes[0]);
        let tail = percent_encoded(bytes.drop_first());
        assert forall|i: int| 0 <= i < percent_encoded(bytes).len() implies !must_escape(
            #[trigger] percent_encoded(bytes)[i],
        ) by {
            if i >= head.len() {
                assert(percent_encoded(bytes)[i] == tail[i - head.len()]);
            } else {
                assert(percent_encoded(bytes)[i] == head[i]);
            }
        }
    }
}

/// The UTF-8 bytes of an encoded identifier are the percent-encoding of the
/// identifier's UTF-8 bytes.
pub proof fn lemma_encoded_id_bytes(id: Seq<char>)
    ensures
        encode_utf8(encoded_id(id)) == percent_encoded(encode_utf8(id)),
{
    let bytes = percent_encoded(encode_utf8(id));
    let text = encoded_id(id);
    lemma_encoding_is_clean(encode_utf8(id));
    assert forall|i: int| 0 <= i < text.len() implies '\0' <= #[trigger] text[i] <= '\u{7f}' by {
        assert(!must_escape(bytes[i]));
    }
    assert(is_ascii_chars(text));
    is_ascii_chars_encode_utf8(text);
    assert forall|i: int| 0 <= i < bytes.len() implies encode_utf8(text)[i] == bytes[i] by {
        assert(!must_escape(bytes[i]));
        assert(text[i] as u8 == encode_utf8(text)[i]);
    }
    assert(encode_utf8(text) =~= bytes);
}

/// An identifier reaches the receiver unchanged: percent-decoding the bytes
/// of the encoded identifier gives the bytes of the identifier, for every
/// identifier in which no percent sign is followed by two hexadecimal digits.
pub proof fn lemma_id_survives(id: Seq<char>)
    requires
        forall|i: int| !escape_at(encode_utf8(id), i),
    ensures
        percent_decoded(encode_utf8(encoded_id(id))) == encode_utf8(id),
{
    lemma_encoded_id_bytes(id);
    lemma_decoding_restores(encode_utf8(id));
}

/// An identifier with a byte that has to be escaped occurs nowhere in its
/// encoding.
pub proof fn lemma_raw_id_absent(id: Seq<char>, at: int)
    requires
        exists|j: int| 0 <= j < encode_utf8(id).len() && must_escape(#[trigger] encode_utf8(id)[j]),
        0 <= at,
        at + encode_utf8(id).len() <= encode_utf8(encoded_id(id)).len(),
    ensures
        encode_utf8(encoded_id(id)).subrange(at, at + encode_utf8(id).len()) != encode_utf8(id),
{
    let raw = encode_utf8(id);
    let sent = encode_utf8(encoded_id(id));
    lemma_encoded_id_bytes(id);
    lemma_encoding_is_clean(raw);
    let j = choose|j: int| 0 <= j < raw.len() && must_escape(#[trigger] raw[j]);
    assert(sent.subrange(at, at + raw.len())[j] == sent[at + j]);
    assert(!must_escape(sent[at + j]));
}

/// Decoding an encoding never gives more bytes than were encoded, and gives
/// fewer as soon as the input holds a percent sign followed by two
/// hexadecimal digits.
proof fn lemma_decoded_length(bytes: Seq<u8>)
    ensures
        percent_decoded(percent_encoded(bytes)).len() <= bytes.len(),
        (exists|i: int| escape_at(bytes, i)) ==> percent_decoded(percent_encoded(bytes)).len()
            < bytes.len(),
    decreases bytes.len(),
{
    if bytes.len() > 0 {
        let b = bytes[0];
        let rest = bytes.drop_first();
        let sent = percent_encoded(rest);
        lemma_decoded_length(rest);
        if escape_at(bytes, 0) {
            let beyond = bytes.skip(3);
            lemma_decoded_length(beyond);
            assert(rest[0] == bytes[1] && rest.drop_first()[0] == bytes[2]);
            assert(rest.drop_first().drop_first() =~= beyond);
            assert(sent == encoded_byte(rest[0]) + percent_encoded(rest.drop_first()));
            assert(percent_encoded(rest.drop_first()) == encoded_byte(rest.drop_first()[0])
                + percent_encoded(beyond));
            let text = percent_encoded(bytes);
            assert(text =~= seq![PERCENT, bytes[1], bytes[2]] + percent_encoded(beyond));
            assert(escape_at(text, 0));
            assert(text.skip(3) =~= percent_encoded(beyond));
        } else {
            if exists|i: int| escape_at(bytes, i) {
                let i = choose|i: int| escape_at(bytes, i);
                assert(escape_at(rest, i - 1));
            }
            if must_escape(b) {
                lemma_decode_escaped(b, sent);
            } else {
                let text = seq![b] + sent;
                if b == PERCENT && text.len() >= 3 {
                    lemma_encoding_starts(rest);
                    assert(text[1] == sent[0]);
                    assert(text[2] == sent[1]);
                }
                lemma_decode_literal(b, sent);
            }
        }
    }
}

/// The other direction of `lemma_decoding_restores`: an input that holds a
/// percent sign followed by two hexadecimal digits is not read back as it
/// was, because the receiver takes those three bytes for one.
pub proof fn lemma_escape_is_misread(bytes: Seq<u8>)
    requires
        exists|i: int| escape_at(bytes, i),
    ensures
        percent_decoded(percent_encoded(bytes)) != bytes,
{
    lemma_decoded_length(bytes);
}

} // verus!
