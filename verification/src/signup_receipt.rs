//! Sign-up receipts: four random bytes, written as eight lowercase hex digits.

use vstd::prelude::*;
use vstd::string::{StringExecFns, StringSliceAdditionalSpecFns};
use vstd::utf8::{
    encode_scalar, encode_utf8, has_width_1_encoding, is_ascii_chars, is_ascii_chars_encode_utf8,
};

verus! {

/// Number of bytes in a receipt.
pub const NBYTES: usize = 4;

/// Value of one ASCII hex digit (either case), or `None` for any other byte.
pub open spec fn hex_digit_value(b: u8) -> Option<u8> {
    if 48 <= b <= 57 {
        Some((b - 48) as u8)
    } else if 97 <= b <= 102 {
        Some((b - 87) as u8)
    } else if 65 <= b <= 70 {
        Some((b - 55) as u8)
    } else {
        None
    }
}

/// Every byte is an ASCII hex digit.
pub open spec fn all_hex_digits(bytes: Seq<u8>) -> bool {
    forall|i: int| 0 <= i < bytes.len() ==> (#[trigger] hex_digit_value(bytes[i])) is Some
}

/// The bytes that a hex text decodes to: each pair of digits, high digit
/// first, gives one byte. `None` for an odd length or a non-digit byte.
pub open spec fn hex_decoded(text: Seq<u8>) -> Option<Seq<u8>> {
    if text.len() % 2 == 0 && all_hex_digits(text) {
        Some(
            Seq::new(
                (text.len() / 2) as nat,
                |i: int|
                    (hex_digit_value(text[2 * i])->0 * 16 + hex_digit_value(text[2 * i + 1])->0) as u8,
            ),
        )
    } else {
        None
    }
}

/// The lowercase hex digit for a value below 16.
pub open spec fn lower_hex_char(n: int) -> char {
    if n < 10 {
        (48 + n) as char
    } else {
        (87 + n) as char
    }
}

/// Lowercase hex text of some bytes: two digits per byte, high digit first.
pub open spec fn hex_encoded(bytes: Seq<u8>) -> Seq<char> {
    Seq::new(
        2 * bytes.len(),
        |i: int|
            if i % 2 == 0 {
                lower_hex_char((bytes[i / 2] / 16) as int)
            } else {
                lower_hex_char((bytes[i / 2] % 16) as int)
            },
    )
}

/// The error type of `hex::decode`.
#[verifier::external_type_specification]
#[verifier::external_body]
pub struct ExFromHexError(hex::FromHexError);

/// `hex::decode` on the UTF-8 bytes of `text`: it succeeds exactly when the
/// byte length is even and every byte is a hex digit of either case, and then
/// yields one byte per digit pair.
#[verifier::external_body]
fn decode_hex(text: &str) -> (res: Result<Vec<u8>, hex::FromHexError>)
    ensures
        res is Ok <==> hex_decoded(text.spec_bytes()) is Some,
        res matches Ok(v) ==> v@ == hex_decoded(text.spec_bytes())->0,
{
    hex::decode(text)
}

/// `hex::encode`: two lowercase hex digits per byte, high digit first.
#[verifier::external_body]
fn encode_hex(bytes: &[u8]) -> (res: String)
    ensures
        res@ == hex_encoded(bytes@),
{
    hex::encode(bytes)
}

/// Four bytes drawn from `rand::thread_rng()` through `Rng::fill`. Nothing is
/// stated of the values: they come from the thread's random generator. The
/// call panics only where the operating system gives no entropy at all when the
/// generator is first seeded.
#[verifier::external_body]
fn random_bytes() -> (res: [u8; 4]) {
    let mut arr = [0u8; 4];
    rand::Rng::fill(&mut rand::thread_rng(), &mut arr);
    arr
}

/// A receipt handed out on sign-up; it proves ownership of a list entry.
#[derive(Clone, Copy, PartialEq, Eq)]
pub struct SignupReceipt(pub [u8; 4]);

impl View for SignupReceipt {
    type V = Seq<u8>;

    open spec fn view(&self) -> Seq<u8> {
        self.0@
    }
}

/// Why a text is not a receipt.
#[derive(Clone, Copy, Debug, PartialEq, Eq)]
pub enum ReceiptParseError {
    /// The text does not have two characters per byte.
    WrongLength { expected: usize, actual: usize },
    /// The text has the right length but is not hex.
    InvalidHex,
}

/// What parsing a text (given by its UTF-8 bytes) gives: the receipt's bytes,
/// or the error.
pub open spec fn receipt_parse_result(text: Seq<u8>) -> Result<Seq<u8>, ReceiptParseError> {
    if text.len() != 2 * NBYTES {
        Err(ReceiptParseError::WrongLength { expected: (2 * NBYTES) as usize, actual: text.len() as usize })
    } else {
        match hex_decoded(text) {
            Some(bytes) => Ok(bytes),
            None => Err(ReceiptParseError::InvalidHex),
        }
    }
}

/// The text that a receipt is displayed as.
pub open spec fn receipt_text(bytes: Seq<u8>) -> Seq<char> {
    hex_encoded(bytes)
}

/// The debugging form of a receipt: its text in quotes, inside
/// `SignupReceipt(..)`.
pub open spec fn debug_text(bytes: Seq<u8>) -> Seq<char> {
    seq!['S', 'i', 'g', 'n', 'u', 'p', 'R', 'e', 'c', 'e', 'i', 'p', 't', '(', '"']
        + receipt_text(bytes) + seq!['"', ')']
}

impl SignupReceipt {
    /// A fresh random receipt.
    pub fn gen() -> (res: Self) {
        SignupReceipt(random_bytes())
    }

    /// The receipt written as eight lowercase hex digits (what the receipt
    /// is displayed as).
    pub fn to_string(&self) -> (res: String)
        ensures
            res@ == receipt_text(self@),
            res@.len() == 2 * NBYTES,
    {
        encode_hex(self.0.as_slice())
    }

    /// The debugging form of a receipt: `SignupReceipt("<hex>")`.
    pub fn debug_string(&self) -> (res: String)
        ensures
            res@ == debug_text(self@),
    {
        let mut out = String::from_str("SignupReceipt(\"");
        let hex = self.to_string();
        out.append(hex.as_str());
        out.append("\")");
        proof {
            reveal_strlit("SignupReceipt(\"");
            reveal_strlit("\")");
        }
        out
    }

    /// Reads a receipt from its hex text (either case). The length is
    /// checked first, in bytes; then the digits.
    pub fn parse(encoded: &str) -> (res: Result<Self, ReceiptParseError>)
        ensures
            res is Ok <==> receipt_parse_result(encoded.spec_bytes()) is Ok,
            res matches Ok(r) ==> receipt_parse_result(encoded.spec_bytes()) == Ok::<Seq<u8>, ReceiptParseError>(r@),
            res matches Err(e) ==> receipt_parse_result(encoded.spec_bytes()) == Err::<Seq<u8>, ReceiptParseError>(e),
    {
        let expected_len: usize = 2 * NBYTES;
        let actual_len: usize = encoded.as_bytes().len();
        if actual_len != expected_len {
            return Err(ReceiptParseError::WrongLength { expected: expected_len, actual: actual_len });
        }
        match decode_hex(encoded) {
            Ok(decoded) => {
                let arr: [u8; 4] = [decoded[0], decoded[1], decoded[2], decoded[3]];
                proof {
                    broadcast use vstd::array::group_array_axioms;
                    assert(decoded@.len() == NBYTES);
                    assert(arr@ =~= decoded@);
                }
                Ok(SignupReceipt(arr))
            },
            Err(_) => Err(ReceiptParseError::InvalidHex),
        }
    }
}

impl std::str::FromStr for SignupReceipt {
    type Err = ReceiptParseError;

    fn from_str(encoded: &str) -> (res: Result<Self, Self::Err>)
        ensures
            res is Ok <==> receipt_parse_result(encoded.spec_bytes()) is Ok,
            res matches Ok(r) ==> receipt_parse_result(encoded.spec_bytes()) == Ok::<Seq<u8>, ReceiptParseError>(r@),
            res matches Err(e) ==> receipt_parse_result(encoded.spec_bytes()) == Err::<Seq<u8>, ReceiptParseError>(e),
    {
        SignupReceipt::parse(encoded)
    }
}

/// The text of every receipt is ASCII.
proof fn lemma_text_is_ascii(bytes: Seq<u8>)
    ensures
        is_ascii_chars(hex_encoded(bytes)),
{
    let t = hex_encoded(bytes);
    assert forall|i: int| 0 <= i < t.len() implies '\0' <= #[trigger] t[i] <= '\u{7f}' by {
        let k: int = if i % 2 == 0 { (bytes[i / 2] / 16) as int } else { (bytes[i / 2] % 16) as int };
        assert(0 <= k < 16);
        assert(t[i] == lower_hex_char(k));
    }
}

/// A hex digit written by `lower_hex_char` reads back as its value.
proof fn lemma_digit_round_trip(k: int)
    requires
        0 <= k < 16,
    ensures
        hex_digit_value(lower_hex_char(k) as u8) == Some(k as u8),
{
}

/// Law: the text a receipt is displayed as parses back to that receipt.
pub proof fn lemma_receipt_text_parses_back(r: SignupReceipt)
    ensures
        receipt_parse_result(encode_utf8(receipt_text(r@))) == Ok::<Seq<u8>, ReceiptParseError>(r@),
{
    broadcast use vstd::array::group_array_axioms;

    let b = r@;
    let t = hex_encoded(b);
    lemma_text_is_ascii(b);
    is_ascii_chars_encode_utf8(t);
    let bytes = encode_utf8(t);
    assert(bytes.len() == 2 * NBYTES);
    assert forall|i: int| 0 <= i < bytes.len() implies (#[trigger] hex_digit_value(bytes[i])) is Some by {
        let k: int = if i % 2 == 0 { (b[i / 2] / 16) as int } else { (b[i / 2] % 16) as int };
        lemma_digit_round_trip(k);
        assert(bytes[i] == t[i] as u8);
    }
    let d = hex_decoded(bytes)->0;
    assert forall|j: int| 0 <= j < d.len() implies d[j] == b[j] by {
        lemma_digit_round_trip((b[j] / 16) as int);
        lemma_digit_round_trip((b[j] % 16) as int);
        assert(bytes[2 * j] == t[2 * j] as u8);
        assert(bytes[2 * j + 1] == t[2 * j + 1] as u8);
        assert((2 * j) / 2 == j);
        assert((2 * j + 1) / 2 == j);
    }
    assert(d =~= b);
}

/// The text with every ASCII uppercase letter turned into lowercase (what
/// `str::to_ascii_lowercase` gives).
pub open spec fn ascii_lowercase(s: Seq<char>) -> Seq<char> {
    s.map_values(|c: char| if 'A' <= c <= 'Z' { ((c as u32) + 32) as char } else { c })
}

/// The first byte of the UTF-8 encoding of a character beyond ASCII is not
/// an ASCII byte.
proof fn lemma_non_ascii_leading_byte(c: char)
    requires
        !has_width_1_encoding(c as u32),
    ensures
        encode_scalar(c as u32)[0] >= 0x80,
{
    let v = c as u32;
    assert(forall|x: u32| #![auto] (0xC0u8 | ((x >> 6) & 0x1F) as u8) >= 0x80) by (bit_vector);
    assert(forall|x: u32| #![auto] (0xE0u8 | ((x >> 12) & 0x0F) as u8) >= 0x80) by (bit_vector);
    assert(forall|x: u32| #![auto] (0xF0u8 | ((x >> 18) & 0x7) as u8) >= 0x80) by (bit_vector);
}

/// A text whose UTF-8 bytes are all hex digits is ASCII, so its bytes are its
/// characters.
proof fn lemma_hex_text_is_ascii(s: Seq<char>)
    requires
        all_hex_digits(encode_utf8(s)),
    ensures
        is_ascii_chars(s),
    decreases s.len(),
{
    if s.len() > 0 {
        let e = encode_utf8(s);
        let head = encode_scalar(s[0] as u32);
        let rest = encode_utf8(s.drop_first());
        assert(e == head + rest);
        if !has_width_1_encoding(s[0] as u32) {
            lemma_non_ascii_leading_byte(s[0]);
            assert(e[0] == head[0]);
            assert(hex_digit_value(e[0]) is Some);
            assert(false);
        }
        assert forall|i: int| 0 <= i < rest.len() implies (#[trigger] hex_digit_value(rest[i])) is Some by {
            assert(rest[i] == e[i + head.len()]);
            assert(hex_digit_value(e[i + head.len()]) is Some);
        }
        lemma_hex_text_is_ascii(s.drop_first());
        let u = s[0] as u32;
        assert(u <= 0x7f);
        vstd::utf8::char_u32_cast(s[0], u);
        assert('\0' <= (u as char) <= '\u{7f}');
        assert forall|i: int| 0 <= i < s.len() implies '\0' <= #[trigger] s[i] <= '\u{7f}' by {
            if i > 0 {
                assert(s[i] == s.drop_first()[i - 1]);
                assert('\0' <= s.drop_first()[i - 1] <= '\u{7f}');
            }
        }
    }
}

/// A hex digit, read and written again, is the digit in lowercase.
proof fn lemma_digit_lowercase(c: char)
    requires
        '\0' <= c <= '\u{7f}',
        hex_digit_value(c as u8) is Some,
    ensures
        lower_hex_char(hex_digit_value(c as u8)->0 as int) == (if 'A' <= c <= 'Z' {
            ((c as u32) + 32) as char
        } else {
            c
        }),
{
}

/// Law: a receipt read from a text is displayed as that text in lowercase.
pub proof fn lemma_parsed_receipt_text_is_lowercase(s: Seq<char>)
    requires
        receipt_parse_result(encode_utf8(s)) is Ok,
    ensures
        receipt_parse_result(encode_utf8(s)) matches Ok(bytes) && receipt_text(bytes)
            == ascii_lowercase(s),
{
    let e = encode_utf8(s);
    lemma_hex_text_is_ascii(s);
    is_ascii_chars_encode_utf8(s);
    let d = hex_decoded(e)->0;
    let t = receipt_text(d);
    let l = ascii_lowercase(s);
    assert(t.len() == l.len());
    assert forall|i: int| 0 <= i < t.len() implies t[i] == l[i] by {
        let j = i / 2;
        let hi = hex_digit_value(e[2 * j])->0;
        let lo = hex_digit_value(e[2 * j + 1])->0;
        assert(d[j] == (hi * 16 + lo) as u8);
        assert(e[i] == s[i] as u8);
        assert(hex_digit_value(e[i]) is Some);
        lemma_digit_lowercase(s[i]);
        if i % 2 == 0 {
            assert(2 * j == i);
            assert(d[j] / 16 == hi);
        } else {
            assert(2 * j + 1 == i);
            assert(d[j] % 16 == lo);
        }
    }
    assert(t =~= l);
}

} // verus!
