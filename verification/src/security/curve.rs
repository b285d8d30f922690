//! Z85, the printable encoding of CURVE keys (ZeroMQ RFC 32).
//!
//! Every four bytes, read as a big-endian number, become five characters: the number's digits
//! in base 85, most significant first, each written as one character of the Z85 alphabet.
use vstd::arithmetic::div_mod::{lemma_fundamental_div_mod, lemma_fundamental_div_mod_converse};
use vstd::prelude::*;
use vstd::string::StringSliceAdditionalSpecFns;
use vstd::utf8::*;

use crate::socket::codec::string_from_utf8;

verus! {

/// Error that can occur while encoding Z85.
#[derive(Debug, PartialEq, Eq, Clone, Hash, Structural)]
pub enum EncodeError {
    /// The input's length was not a multiple of 4.
    BadLength,
    /// The encoding could not be produced.
    EncodingFailed,
    /// The encoded text was not valid UTF-8.
    Utf8Error,
}

/// Error that can occur while decoding Z85.
#[derive(Debug, PartialEq, Eq, Clone, Hash, Structural)]
pub enum DecodeError {
    /// The input's length was not a multiple of 5.
    InvalidLength,
    /// The input was not Z85 text.
    DecodingFailed,
}

/// One of the 23 punctuation characters that close the Z85 alphabet, by its position among them.
pub open spec fn z85_symbol(k: int) -> char {
    if k == 0 { '.' }
    else if k == 1 { '-' }
    else if k == 2 { ':' }
    else if k == 3 { '+' }
    else if k == 4 { '=' }
    else if k == 5 { '^' }
    else if k == 6 { '!' }
    else if k == 7 { '/' }
    else if k == 8 { '*' }
    else if k == 9 { '?' }
    else if k == 10 { '&' }
    else if k == 11 { '<' }
    else if k == 12 { '>' }
    else if k == 13 { '(' }
    else if k == 14 { ')' }
    else if k == 15 { '[' }
    else if k == 16 { ']' }
    else if k == 17 { '{' }
    else if k == 18 { '}' }
    else if k == 19 { '@' }
    else if k == 20 { '%' }
    else if k == 21 { '$' }
    else { '#' }
}

/// The character that stands for the base-85 digit `d` (0 to 84): the ten decimal digits, the
/// lower-case letters, the upper-case letters, then the punctuation characters.
pub open spec fn z85_char(d: int) -> char {
    if d < 10 {
        (d + 48) as char
    } else if d < 36 {
        (d + 87) as char
    } else if d < 62 {
        (d + 29) as char
    } else {
        z85_symbol(d - 62)
    }
}

/// Whether `c` is a character of the Z85 alphabet.
pub open spec fn is_z85_char(c: char) -> bool {
    exists|d: int| 0 <= d < 85 && z85_char(d) == c
}

/// The digit that the Z85 character `c` stands for.
pub open spec fn z85_digit_value(c: char) -> int {
    choose|d: int| 0 <= d < 85 && z85_char(d) == c
}

/// The weight of the `k`-th character of a group of five: 85 to the power `4 - k`.
pub open spec fn digit_weight(k: int) -> int {
    if k == 0 { 52200625 }
    else if k == 1 { 614125 }
    else if k == 2 { 7225 }
    else if k == 3 { 85 }
    else { 1 }
}

/// The weight of the `k`-th byte of a group of four: 256 to the power `3 - k`.
pub open spec fn byte_weight(k: int) -> int {
    if k == 0 { 16777216 }
    else if k == 1 { 65536 }
    else if k == 2 { 256 }
    else { 1 }
}

/// The `g`-th group of four bytes of `data`, read as a big-endian number.
pub open spec fn be_word(data: Seq<u8>, g: int) -> int {
    data[4 * g] * 16777216 + data[4 * g + 1] * 65536 + data[4 * g + 2] * 256 + data[4 * g + 3]
}

/// The Z85 text of `data`: group `g` of four bytes becomes characters `5g` to `5g + 4`, the
/// base-85 digits of the group's number, most significant first.
pub open spec fn z85_text(data: Seq<u8>) -> Seq<char> {
    Seq::new(
        (data.len() / 4 * 5) as nat,
        |j: int| z85_char(be_word(data, j / 5) / digit_weight(j % 5) % 85),
    )
}

/// The number that the `g`-th group of five characters of `text` stands for in base 85.
pub open spec fn group_number(text: Seq<char>, g: int) -> int {
    z85_digit_value(text[5 * g]) * 52200625 + z85_digit_value(text[5 * g + 1]) * 614125
        + z85_digit_value(text[5 * g + 2]) * 7225 + z85_digit_value(text[5 * g + 3]) * 85
        + z85_digit_value(text[5 * g + 4])
}

/// Whether `text` is Z85 text: its length is a multiple of 5, each character is of the
/// alphabet, and each group of five stands for a number that fits in 32 bits.
pub open spec fn is_z85_text(text: Seq<char>) -> bool {
    &&& text.len() % 5 == 0
    &&& forall|i: int| 0 <= i < text.len() ==> is_z85_char(#[trigger] text[i])
    &&& forall|g: int| 0 <= g < text.len() / 5 ==> #[trigger] group_number(text, g) <= 0xffff_ffff
}

/// The bytes that Z85 text stands for: group `g` of five characters becomes bytes `4g` to
/// `4g + 3`, its number in big-endian order.
pub open spec fn z85_bytes(text: Seq<char>) -> Seq<u8> {
    Seq::new(
        (text.len() / 5 * 4) as nat,
        |j: int| (group_number(text, j / 4) / byte_weight(j % 4) % 256) as u8,
    )
}

/// The Z85 alphabet is RFC 32's: digit `d` is written as the `d`-th character of
/// `0123456789abcdefghijklmnopqrstuvwxyzABCDEFGHIJKLMNOPQRSTUVWXYZ.-:+=^!/*?&<>()[]{}@%$#`.
pub proof fn lemma_z85_alphabet()
    ensures
        "0123456789abcdefghijklmnopqrstuvwxyzABCDEFGHIJKLMNOPQRSTUVWXYZ.-:+=^!/*?&<>()[]{}@%$#"@.len() == 85,
        forall|d: int| 0 <= d < 85 ==> #[trigger] z85_char(d) == "0123456789abcdefghijklmnopqrstuvwxyzABCDEFGHIJKLMNOPQRSTUVWXYZ.-:+=^!/*?&<>()[]{}@%$#"@[d],
{
    reveal_strlit("0123456789abcdefghijklmnopqrstuvwxyzABCDEFGHIJKLMNOPQRSTUVWXYZ.-:+=^!/*?&<>()[]{}@%$#");
    assert forall|d: int| 0 <= d < 85 implies #[trigger] z85_char(d) == "0123456789abcdefghijklmnopqrstuvwxyzABCDEFGHIJKLMNOPQRSTUVWXYZ.-:+=^!/*?&<>()[]{}@%$#"@[d] by {
        if d == 0 {} else if d == 1 {} else if d == 2 {} else if d == 3 {} else if d == 4 {} else if d == 5 {} else if d == 6 {} else if d == 7 {} else if d == 8 {} else if d == 9 {} else if d == 10 {} else if d == 11 {} else if d == 12 {} else if d == 13 {} else if d == 14 {} else if d == 15 {} else if d == 16 {} else if d == 17 {} else if d == 18 {} else if d == 19 {} else if d == 20 {} else if d == 21 {} else if d == 22 {} else if d == 23 {} else if d == 24 {} else if d == 25 {} else if d == 26 {} else if d == 27 {} else if d == 28 {} else if d == 29 {} else if d == 30 {} else if d == 31 {} else if d == 32 {} else if d == 33 {} else if d == 34 {} else if d == 35 {} else if d == 36 {} else if d == 37 {} else if d == 38 {} else if d == 39 {} else if d == 40 {} else if d == 41 {} else if d == 42 {} else if d == 43 {} else if d == 44 {} else if d == 45 {} else if d == 46 {} else if d == 47 {} else if d == 48 {} else if d == 49 {} else if d == 50 {} else if d == 51 {} else if d == 52 {} else if d == 53 {} else if d == 54 {} else if d == 55 {} else if d == 56 {} else if d == 57 {} else if d == 58 {} else if d == 59 {} else if d == 60 {} else if d == 61 {} else if d == 62 {} else if d == 63 {} else if d == 64 {} else if d == 65 {} else if d == 66 {} else if d == 67 {} else if d == 68 {} else if d == 69 {} else if d == 70 {} else if d == 71 {} else if d == 72 {} else if d == 73 {} else if d == 74 {} else if d == 75 {} else if d == 76 {} else if d == 77 {} else if d == 78 {} else if d == 79 {} else if d == 80 {} else if d == 81 {} else if d == 82 {} else if d == 83 {} else {}
    }
}

/// Index arithmetic of groups of `n`.
proof fn lemma_group_index(g: int, k: int, n: int)
    requires
        0 <= g,
        0 <= k < n,
    ensures
        (n * g + k) / n == g,
        (n * g + k) % n == k,
{
    assert(n * g + k == g * n + k) by (nonlinear_arith);
    lemma_fundamental_div_mod_converse(n * g + k, n, g, k);
}

/// Each alphabet character is ASCII and stands for one digit only.
proof fn lemma_z85_char(d: int)
    requires
        0 <= d < 85,
    ensures
        is_z85_char(z85_char(d)),
        z85_digit_value(z85_char(d)) == d,
        (z85_char(d) as u32) < 128,
{
    assert(forall|e: int| 0 <= e < 85 && z85_char(e) == z85_char(d) ==> e == d);
}

/// The alphabet character for digit `d`, as a byte.
fn z85_byte(d: u32) -> (r: u8)
    requires
        d < 85,
    ensures
        r as char == z85_char(d as int),
        r < 128,
{
    if d < 10 {
        (d + 48) as u8
    } else if d < 36 {
        (d + 87) as u8
    } else if d < 62 {
        (d + 29) as u8
    } else {
        match d - 62 {
            0 => 46,
            1 => 45,
            2 => 58,
            3 => 43,
            4 => 61,
            5 => 94,
            6 => 33,
            7 => 47,
            8 => 42,
            9 => 63,
            10 => 38,
            11 => 60,
            12 => 62,
            13 => 40,
            14 => 41,
            15 => 91,
            16 => 93,
            17 => 123,
            18 => 125,
            19 => 64,
            20 => 37,
            21 => 36,
            _ => 35,
        }
    }
}

/// The digit that the byte `b` stands for, where it is a character of the alphabet.
fn z85_digit(b: u8) -> (r: Option<u32>)
    ensures
        r matches Some(d) ==> d < 85 && z85_char(d as int) == b as char,
        r is None ==> !is_z85_char(b as char),
{
    if 48 <= b && b < 58 {
        Some((b - 48) as u32)
    } else if 97 <= b && b < 123 {
        Some((b - 87) as u32)
    } else if 65 <= b && b < 91 {
        Some((b - 29) as u32)
    } else {
        match b {
            46 => Some(62),
            45 => Some(63),
            58 => Some(64),
            43 => Some(65),
            61 => Some(66),
            94 => Some(67),
            33 => Some(68),
            47 => Some(69),
            42 => Some(70),
            63 => Some(71),
            38 => Some(72),
            60 => Some(73),
            62 => Some(74),
            40 => Some(75),
            41 => Some(76),
            91 => Some(77),
            93 => Some(78),
            123 => Some(79),
            125 => Some(80),
            64 => Some(81),
            37 => Some(82),
            36 => Some(83),
            35 => Some(84),
            _ => None,
        }
    }
}

/// # encode a binary key as Z85 printable text
///
/// Encodes `data`, whose length must be a multiple of 4, as Z85 text: a 32-byte CURVE key
/// becomes 40 characters.
pub fn encode(data: &[u8]) -> (r: Result<String, EncodeError>)
    ensures
        data@.len() % 4 != 0 ==> r == Err::<String, EncodeError>(EncodeError::BadLength),
        data@.len() % 4 == 0 ==> (r matches Ok(s) && s@ == z85_text(data@)),
{
    if data.len() % 4 != 0 {
        return Err(EncodeError::BadLength);
    }
    let groups = data.len() / 4;
    assert(data@.len() == 4 * groups);
    let ghost text = z85_text(data@);
    let mut out: Vec<u8> = Vec::new();
    let mut g: usize = 0;
    while g < groups
        invariant
            groups == data@.len() / 4,
            data@.len() == 4 * groups,
            4 * groups <= usize::MAX,
            text == z85_text(data@),
            g <= groups,
            out@.len() == 5 * g,
            forall|j: int| 0 <= j < 5 * g ==> #[trigger] out@[j] < 128 && out@[j] as char == text[j],
        decreases groups - g,
    {
        let i = 4 * g;
        let v: u32 = data[i] as u32 * 16777216 + data[i + 1] as u32 * 65536 + data[i + 2] as u32 * 256
            + data[i + 3] as u32;
        assert(v == be_word(data@, g as int));
        let ghost before = out@;
        out.push(z85_byte(v / 52200625 % 85));
        out.push(z85_byte(v / 614125 % 85));
        out.push(z85_byte(v / 7225 % 85));
        out.push(z85_byte(v / 85 % 85));
        out.push(z85_byte(v % 85));
        proof {
            assert forall|k: int| 0 <= k < 5 implies #[trigger] text[5 * g + k] == z85_char(
                (v as int) / digit_weight(k) % 85,
            ) by {
                lemma_group_index(g as int, k, 5);
            }
            assert forall|j: int| 0 <= j < 5 * (g + 1) implies #[trigger] out@[j] < 128 && out@[j] as char
                == text[j] by {
                if j >= 5 * g {
                    assert(text[5 * g + (j - 5 * g)] == text[j]);
                }
            }
        }
        g = g + 1;
    }
    proof {
        assert(text.len() == out@.len());
        assert(is_ascii_chars(text));
        is_ascii_chars_encode_utf8(text);
        assert(out@ =~= encode_utf8(text));
        encode_utf8_valid_utf8(text);
        encode_utf8_decode_utf8(text);
    }
    match string_from_utf8(out) {
        Some(s) => Ok(s),
        None => Err(EncodeError::Utf8Error),
    }
}

/// The characters that ASCII bytes stand for.
pub open spec fn byte_chars(bytes: Seq<u8>) -> Seq<char> {
    Seq::new(bytes.len(), |i: int| bytes[i] as char)
}

/// Whether the five characters of group `g` are all of the alphabet.
pub open spec fn group_chars_valid(text: Seq<char>, g: int) -> bool {
    forall|k: int| 0 <= k < 5 ==> is_z85_char(#[trigger] text[5 * g + k])
}

/// The number that group `g` of five characters stands for, where they are all Z85
/// characters and the number fits in 32 bits.
fn group_value(bytes: &[u8], g: usize) -> (r: Option<u32>)
    requires
        5 * g + 5 <= bytes.len(),
    ensures
        r matches Some(v) ==> group_chars_valid(byte_chars(bytes@), g as int) && v == group_number(
            byte_chars(bytes@),
            g as int,
        ),
        r is None ==> !group_chars_valid(byte_chars(bytes@), g as int) || group_number(
            byte_chars(bytes@),
            g as int,
        ) > 0xffff_ffff,
{
    let ghost text = byte_chars(bytes@);
    let i = 5 * g;
    let digits = (
        z85_digit(bytes[i]),
        z85_digit(bytes[i + 1]),
        z85_digit(bytes[i + 2]),
        z85_digit(bytes[i + 3]),
        z85_digit(bytes[i + 4]),
    );
    proof {
        assert forall|k: int| 0 <= k < 5 implies #[trigger] text[5 * g + k] == bytes@[i + k] as char by {}
    }
    match digits {
        (Some(d0), Some(d1), Some(d2), Some(d3), Some(d4)) => {
            proof {
                lemma_z85_char(d0 as int);
                lemma_z85_char(d1 as int);
                lemma_z85_char(d2 as int);
                lemma_z85_char(d3 as int);
                lemma_z85_char(d4 as int);
                assert(text[5 * g + 0] == bytes@[i + 0] as char);
            }
            let v: u64 = d0 as u64 * 52200625 + d1 as u64 * 614125 + d2 as u64 * 7225 + d3 as u64 * 85
                + d4 as u64;
            if v > 0xffff_ffff {
                None
            } else {
                Some(v as u32)
            }
        },
        _ => {
            proof {
                assert(text[5 * g + 0] == bytes@[i + 0] as char);
            }
            None
        },
    }
}

/// # decode a binary key from Z85 printable text
///
/// Decodes `string`, whose length must be a multiple of 5; the empty string decodes to no
/// bytes.
pub fn decode(string: &str) -> (r: Result<Vec<u8>, DecodeError>)
    ensures
        string.spec_bytes().len() == 0 ==> (r matches Ok(v) && v@.len() == 0),
        string.spec_bytes().len() != 0 && string.spec_bytes().len() % 5 != 0 ==> r == Err::<
            Vec<u8>,
            DecodeError,
        >(DecodeError::InvalidLength),
        string.spec_bytes().len() != 0 && string.spec_bytes().len() % 5 == 0 ==> match r {
            Ok(v) => is_z85_text(string@) && v@ == z85_bytes(string@),
            Err(e) => !is_z85_text(string@) && e == DecodeError::DecodingFailed,
        },
{
    let bytes = string.as_bytes();
    let len = bytes.len();
    if len == 0 {
        return Ok(Vec::new());
    }
    if len % 5 != 0 {
        return Err(DecodeError::InvalidLength);
    }
    let ghost text = string@;
    if !string.is_ascii() {
        proof {
            if is_z85_text(text) {
                assert forall|i: int| 0 <= i < text.len() implies '\0' <= #[trigger] text[i]
                    <= '\u{7f}' by {
                    let d = choose|d: int| 0 <= d < 85 && z85_char(d) == text[i];
                    lemma_z85_char(d);
                }
            }
        }
        return Err(DecodeError::DecodingFailed);
    }
    proof {
        vstd::string::is_ascii_spec_bytes(string);
        assert forall|i: int| 0 <= i < text.len() implies #[trigger] text[i] == bytes@[i] as char by {
            vstd::utf8::is_ascii_chars_nat_bound(text);
        }
        assert(text =~= byte_chars(bytes@));
    }
    let groups = len / 5;
    let mut out: Vec<u8> = Vec::new();
    let mut g: usize = 0;
    while g < groups
        invariant
            text == byte_chars(bytes@),
            text == string@,
            bytes@ == string.spec_bytes(),
            bytes@.len() != 0,
            bytes@.len() % 5 == 0,
            groups == text.len() / 5,
            text.len() == 5 * groups,
            text.len() == bytes@.len(),
            bytes@.len() <= usize::MAX,
            g <= groups,
            forall|h: int| 0 <= h < g ==> #[trigger] group_chars_valid(text, h),
            forall|h: int| 0 <= h < g ==> #[trigger] group_number(text, h) <= 0xffff_ffff,
            out@.len() == 4 * g,
            forall|j: int|
                0 <= j < 4 * g ==> #[trigger] out@[j] == (group_number(text, j / 4) / byte_weight(j % 4)
                    % 256) as u8,
        decreases groups - g,
    {
        match group_value(bytes, g) {
            Some(v) => {
                out.push((v / 16777216 % 256) as u8);
                out.push((v / 65536 % 256) as u8);
                out.push((v / 256 % 256) as u8);
                out.push((v % 256) as u8);
                proof {
                    assert forall|j: int| 0 <= j < 4 * (g + 1) implies #[trigger] out@[j] == (
                    group_number(text, j / 4) / byte_weight(j % 4) % 256) as u8 by {
                        if j >= 4 * g {
                            lemma_group_index(g as int, j - 4 * g, 4);
                        }
                    }
                }
            },
            None => {
                proof {
                    assert(!is_z85_text(text)) by {
                        if is_z85_text(text) {
                            assert forall|k: int| 0 <= k < 5 implies is_z85_char(
                                #[trigger] text[5 * g + k],
                            ) by {}
                            assert(g < text.len() / 5);
                        }
                    }
                }
                return Err(DecodeError::DecodingFailed);
            },
        }
        g = g + 1;
    }
    proof {
        assert forall|i: int| 0 <= i < text.len() implies is_z85_char(#[trigger] text[i]) by {
            lemma_group_index(i / 5, i % 5, 5);
            assert(group_chars_valid(text, i / 5));
            assert(text[5 * (i / 5) + i % 5] == text[i]);
        }
        assert(out@ =~= z85_bytes(text));
    }
    Ok(out)
}

/// The base-85 digits of a number made of five digits are those digits.
proof fn lemma_base85_number(d0: int, d1: int, d2: int, d3: int, d4: int)
    requires
        0 <= d0 < 85,
        0 <= d1 < 85,
        0 <= d2 < 85,
        0 <= d3 < 85,
        0 <= d4 < 85,
    ensures
        ({
            let n = d0 * 52200625 + d1 * 614125 + d2 * 7225 + d3 * 85 + d4;
            &&& n / 52200625 % 85 == d0
            &&& n / 614125 % 85 == d1
            &&& n / 7225 % 85 == d2
            &&& n / 85 % 85 == d3
            &&& n % 85 == d4
        }),
{
    let n = d0 * 52200625 + d1 * 614125 + d2 * 7225 + d3 * 85 + d4;
    lemma_fundamental_div_mod_converse(n, 52200625, d0, d1 * 614125 + d2 * 7225 + d3 * 85 + d4);
    lemma_fundamental_div_mod_converse(d0, 85, 0, d0);
    lemma_fundamental_div_mod_converse(n, 614125, d0 * 85 + d1, d2 * 7225 + d3 * 85 + d4);
    lemma_fundamental_div_mod_converse(d0 * 85 + d1, 85, d0, d1);
    lemma_fundamental_div_mod_converse(n, 7225, d0 * 7225 + d1 * 85 + d2, d3 * 85 + d4);
    lemma_fundamental_div_mod_converse(d0 * 7225 + d1 * 85 + d2, 85, d0 * 85 + d1, d2);
    lemma_fundamental_div_mod_converse(n, 85, d0 * 614125 + d1 * 7225 + d2 * 85 + d3, d4);
    lemma_fundamental_div_mod_converse(d0 * 614125 + d1 * 7225 + d2 * 85 + d3, 85, d0 * 7225 + d1 * 85 + d2, d3);
}

/// A number below 85 to the fifth power is the sum of its base-85 digits times their weights.
proof fn lemma_base85_digits(v: int)
    requires
        0 <= v < 4437053125,
    ensures
        0 <= v / 52200625 < 85,
        v == (v / 52200625 % 85) * 52200625 + (v / 614125 % 85) * 614125 + (v / 7225 % 85) * 7225 + (v
            / 85 % 85) * 85 + v % 85,
{
    let q1 = v / 85;
    let q2 = q1 / 85;
    let q3 = q2 / 85;
    let q4 = q3 / 85;
    lemma_fundamental_div_mod(v, 85);
    lemma_fundamental_div_mod(q1, 85);
    lemma_fundamental_div_mod(q2, 85);
    lemma_fundamental_div_mod(q3, 85);
    assert(0 <= q4 < 85);
    lemma_base85_number(q4, q3 % 85, q2 % 85, q1 % 85, v % 85);
}

/// The bytes of a number made of four bytes are those bytes.
proof fn lemma_base256_number(b0: int, b1: int, b2: int, b3: int)
    requires
        0 <= b0 < 256,
        0 <= b1 < 256,
        0 <= b2 < 256,
        0 <= b3 < 256,
    ensures
        ({
            let n = b0 * 16777216 + b1 * 65536 + b2 * 256 + b3;
            &&& n / 16777216 % 256 == b0
            &&& n / 65536 % 256 == b1
            &&& n / 256 % 256 == b2
            &&& n % 256 == b3
        }),
{
    let n = b0 * 16777216 + b1 * 65536 + b2 * 256 + b3;
    lemma_fundamental_div_mod_converse(n, 16777216, b0, b1 * 65536 + b2 * 256 + b3);
    lemma_fundamental_div_mod_converse(b0, 256, 0, b0);
    lemma_fundamental_div_mod_converse(n, 65536, b0 * 256 + b1, b2 * 256 + b3);
    lemma_fundamental_div_mod_converse(b0 * 256 + b1, 256, b0, b1);
    lemma_fundamental_div_mod_converse(n, 256, b0 * 65536 + b1 * 256 + b2, b3);
    lemma_fundamental_div_mod_converse(b0 * 65536 + b1 * 256 + b2, 256, b0 * 256 + b1, b2);
}

/// A 32-bit number is the sum of its bytes times their weights.
proof fn lemma_base256_digits(v: int)
    requires
        0 <= v <= 0xffff_ffff,
    ensures
        v == (v / 16777216 % 256) * 16777216 + (v / 65536 % 256) * 65536 + (v / 256 % 256) * 256 + v
            % 256,
{
    let q1 = v / 256;
    let q2 = q1 / 256;
    let q3 = q2 / 256;
    lemma_fundamental_div_mod(v, 256);
    lemma_fundamental_div_mod(q1, 256);
    lemma_fundamental_div_mod(q2, 256);
    assert(0 <= q3 < 256);
    lemma_base256_number(q3, q2 % 256, q1 % 256, v % 256);
}

/// Group `g` of the Z85 text of `data` stands for the `g`-th word of `data`.
proof fn lemma_text_group(data: Seq<u8>, g: int)
    requires
        data.len() % 4 == 0,
        0 <= g < data.len() / 4,
    ensures
        group_chars_valid(z85_text(data), g),
        group_number(z85_text(data), g) == be_word(data, g),
        forall|k: int| 0 <= k < 5 ==> (#[trigger] z85_text(data)[5 * g + k] as u32) < 128,
{
    let t = z85_text(data);
    let v = be_word(data, g);
    assert(4 * g + 3 < data.len());
    assert(0 <= v <= 0xffff_ffff);
    lemma_base85_digits(v);
    assert forall|k: int| 0 <= k < 5 implies #[trigger] t[5 * g + k] == z85_char(
        v / digit_weight(k) % 85,
    ) && is_z85_char(t[5 * g + k]) && z85_digit_value(t[5 * g + k]) == v / digit_weight(k) % 85 && (
    t[5 * g + k] as u32) < 128 by {
        lemma_group_index(g, k, 5);
        lemma_z85_char(v / digit_weight(k) % 85);
    }
    assert(t[5 * g + 0] == t[5 * g]);
}

/// Decoding undoes encoding: the Z85 text of data whose length is a multiple of 4 is ASCII
/// Z85 text, and it stands for that data.
pub proof fn lemma_decode_encode(data: Seq<u8>)
    requires
        data.len() % 4 == 0,
    ensures
        is_ascii_chars(z85_text(data)),
        is_z85_text(z85_text(data)),
        z85_bytes(z85_text(data)) == data,
{
    let t = z85_text(data);
    let n = data.len() / 4;
    assert(t.len() == 5 * n);
    assert forall|i: int| 0 <= i < t.len() implies is_z85_char(#[trigger] t[i]) && (t[i] as u32) < 128 by {
        lemma_group_index(i / 5, i % 5, 5);
        lemma_text_group(data, i / 5);
        assert(t[5 * (i / 5) + i % 5] == t[i]);
    }
    assert forall|g: int| 0 <= g < t.len() / 5 implies #[trigger] group_number(t, g) <= 0xffff_ffff by {
        lemma_text_group(data, g);
    }
    let b = z85_bytes(t);
    assert forall|j: int| 0 <= j < data.len() implies #[trigger] b[j] == data[j] by {
        let g = j / 4;
        let k = j % 4;
        lemma_group_index(g, k, 4);
        lemma_text_group(data, g);
        lemma_base256_number(
            data[4 * g] as int,
            data[4 * g + 1] as int,
            data[4 * g + 2] as int,
            data[4 * g + 3] as int,
        );
    }
    assert(b =~= data);
}

/// Encoding undoes decoding: the data that Z85 text stands for, encoded again, is that text.
#[verifier::rlimit(40)]
pub proof fn lemma_encode_decode(text: Seq<char>)
    requires
        is_z85_text(text),
    ensures
        z85_bytes(text).len() % 4 == 0,
        z85_text(z85_bytes(text)) == text,
{
    let b = z85_bytes(text);
    let n = text.len() / 5;
    assert(b.len() == 4 * n);
    assert(b.len() % 4 == 0) by {
        lemma_group_index(n as int, 0, 4);
    }
    let t = z85_text(b);
    assert forall|i: int| 0 <= i < text.len() implies #[trigger] t[i] == text[i] by {
        let g = i / 5;
        let k = i % 5;
        lemma_group_index(g, k, 5);
        lemma_group_index(g, 0, 4);
        let c0 = text[5 * g];
        let c1 = text[5 * g + 1];
        let c2 = text[5 * g + 2];
        let c3 = text[5 * g + 3];
        let c4 = text[5 * g + 4];
        let num = group_number(text, g);
        assert(num <= 0xffff_ffff);
        lemma_base256_digits(num);
        assert forall|m: int| 0 <= m < 4 implies #[trigger] b[4 * g + m] == (num / byte_weight(m) % 256) as u8 by {
            lemma_group_index(g, m, 4);
        }
        assert(be_word(b, g) == num);
        assert(is_z85_char(c0) && is_z85_char(c1) && is_z85_char(c2) && is_z85_char(c3) && is_z85_char(c4));
        lemma_base85_number(
            z85_digit_value(c0),
            z85_digit_value(c1),
            z85_digit_value(c2),
            z85_digit_value(c3),
            z85_digit_value(c4),
        );
        assert(text[5 * g + k] == text[i]);
    }
    assert(t =~= text);
}

} // verus!
