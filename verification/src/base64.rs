//! Standard base64 (RFC 4648 alphabet, with `=` padding) through `base64_simd`.

use vstd::prelude::*;

verus! {

#[verifier::external_type_specification]
#[verifier::external_body]
pub struct ExBase64Error(base64_simd::Error);

/// The text that `base64_simd::STANDARD` encodes `data` to.
pub uninterp spec fn standard_encoding(data: Seq<u8>) -> Seq<char>;

/// The bytes that `base64_simd::STANDARD` decodes `text` to, or `None` where
/// it refuses the text.
pub uninterp spec fn standard_decoding(text: Seq<char>) -> Option<Seq<u8>>;

/// Length of the padded standard encoding of `n` bytes: four characters for
/// every started group of three bytes.
pub open spec fn padded_len(n: nat) -> nat {
    if n % 3 == 0 {
        n / 3 * 4
    } else {
        n / 3 * 4 + 4
    }
}

/// Number of `=` characters that end the padded encoding of `n` bytes.
pub open spec fn padding_len(n: nat) -> nat {
    if n % 3 == 0 {
        0
    } else {
        (3 - n % 3) as nat
    }
}

/// A character of the standard alphabet: `A`-`Z`, `a`-`z`, `0`-`9`, `+`, `/`.
pub open spec fn is_standard_char(c: char) -> bool {
    ||| 'A' <= c <= 'Z'
    ||| 'a' <= c <= 'z'
    ||| '0' <= c <= '9'
    ||| c == '+'
    ||| c == '/'
}

/// Text made of alphabet characters followed by exactly `pad` `=` signs.
pub open spec fn alphabet_then_padding(text: Seq<char>, pad: nat) -> bool {
    &&& pad <= text.len()
    &&& forall|i: int| 0 <= i < text.len() - pad ==> is_standard_char(#[trigger] text[i])
    &&& forall|i: int| text.len() - pad <= i < text.len() ==> #[trigger] text[i] == '='
}

/// The shapes of text that the standard decoder can accept: empty, or a
/// multiple of four characters, all from the alphabet except one or two
/// closing `=` signs.
pub open spec fn decodable_shape(text: Seq<char>) -> bool {
    &&& text.len() % 4 == 0
    &&& {
        ||| alphabet_then_padding(text, 0)
        ||| (text.len() > 0 && alphabet_then_padding(text, 1))
        ||| (text.len() > 0 && alphabet_then_padding(text, 2))
    }
}

/// Number of `=` signs (at most two) that close `text`, as the decoder
/// counts them.
pub open spec fn closing_padding(text: Seq<char>) -> nat {
    if text.len() >= 2 && text[text.len() - 1] == '=' && text[text.len() - 2] == '=' {
        2
    } else if text.len() >= 1 && text[text.len() - 1] == '=' {
        1
    } else {
        0
    }
}

/// Calls `base64_simd::STANDARD.encoded_length(n)`, which the crate computes
/// as `n / 3 * 4`, plus 4 where `n % 3 != 0`. It panics for
/// `n > usize::MAX / 2`, so that input is left out.
#[verifier::external_body]
fn simd_encoded_length(n: usize) -> (res: usize)
    requires
        n <= usize::MAX / 2,
    ensures
        res == padded_len(n as nat),
{
    base64_simd::STANDARD.encoded_length(n)
}

/// Calls `base64_simd::STANDARD.encode_to_string(data)`.
///
/// Claims: the result is the standard encoding of `data` (a name), its
/// length is the padded length, it is made of characters of the crate's
/// standard charset followed by the `=` padding the crate writes for a last
/// group of one or two bytes, and decoding it gives `data` back, as RFC 4648
/// defines the two directions. The crate asserts that the encoded
/// length is at most `usize::MAX / 2`, so longer outputs are left out.
#[verifier::external_body]
fn simd_encode(data: &[u8]) -> (res: String)
    requires
        padded_len(data@.len()) <= usize::MAX / 2,
    ensures
        res@ == standard_encoding(data@),
        res@.len() == padded_len(data@.len()),
        alphabet_then_padding(res@, padding_len(data@.len())),
        standard_decoding(res@) == Some(data@),
{
    base64_simd::STANDARD.encode_to_string(data)
}

/// Calls `base64_simd::STANDARD.decode_to_vec(text)`.
///
/// Claims: it succeeds exactly where the standard decoding is defined, and
/// then returns it. The decoding is refused (`decoded_length` and the decode
/// table in the crate's `decode.rs`) for a length that is not a multiple of
/// four, for any character outside the alphabet, and for `=` anywhere but in
/// the last two places; what it gives has three bytes for every four
/// characters, less one for each closing `=`. Which bytes it gives, and the
/// refusal of non-zero unused bits in a padded group, are left to the name.
#[verifier::external_body]
fn simd_decode(text: &str) -> (res: Result<Vec<u8>, base64_simd::Error>)
    ensures
        res is Ok <==> standard_decoding(text@) is Some,
        res matches Ok(v) ==> standard_decoding(text@) == Some(v@),
        res is Ok ==> decodable_shape(text@),
        res matches Ok(v) ==> v@.len() == text@.len() / 4 * 3 - closing_padding(text@),
{
    base64_simd::STANDARD.decode_to_vec(text)
}

/// A base64 text that could not be decoded.
#[derive(Debug)]
pub struct DecodeError(pub base64_simd::Error);

impl DecodeError {
    /// The human-readable description of the error.
    pub fn message(&self) -> (res: String)
        ensures
            res@ == "failed to decode base64"@,
    {
        "failed to decode base64".to_owned()
    }

    /// The underlying error of the base64 codec.
    pub fn source(&self) -> (res: &base64_simd::Error)
        ensures
            *res == self.0,
    {
        &self.0
    }
}

/// Decodes standard, padded base64 text.
///
/// Text of a length that is not a multiple of four, with a character outside
/// the alphabet, or with `=` anywhere but in the last two places is refused.
pub fn decode(input: &str) -> (res: Result<Vec<u8>, DecodeError>)
    ensures
        res is Ok <==> standard_decoding(input@) is Some,
        res matches Ok(v) ==> standard_decoding(input@) == Some(v@),
        !decodable_shape(input@) ==> res is Err,
        res matches Ok(v) ==> v@.len() == input@.len() / 4 * 3 - closing_padding(input@),
{
    match simd_decode(input) {
        Ok(bytes) => Ok(bytes),
        Err(e) => Err(DecodeError(e)),
    }
}

/// Encodes bytes as standard, padded base64 text.
///
/// The text has `encoded_length(input.len())` characters, all ASCII (so as
/// many bytes), taken from the standard alphabet and closed by the `=`
/// padding of a last group of one or two bytes; `decode` gives `input` back
/// from it.
pub fn encode(input: &[u8]) -> (res: String)
    requires
        padded_len(input@.len()) <= usize::MAX / 2,
    ensures
        res@ == standard_encoding(input@),
        res@.len() == padded_len(input@.len()),
        alphabet_then_padding(res@, padding_len(input@.len())),
        vstd::utf8::is_ascii_chars(res@),
        vstd::utf8::encode_utf8(res@).len() == padded_len(input@.len()),
        standard_decoding(res@) == Some(input@),
{
    let res = simd_encode(input);
    proof {
        let pad = padding_len(input@.len());
        assert forall|i: int| 0 <= i < res@.len() implies '\0' <= #[trigger] res@[i] <= '\u{7f}' by {
            if i < res@.len() - pad {
                assert(is_standard_char(res@[i]));
            } else {
                assert(res@[i] == '=');
            }
        }
        vstd::utf8::is_ascii_chars_encode_utf8(res@);
    }
    res
}

/// The number of characters that `encode` produces for `length` bytes.
pub fn encoded_length(length: usize) -> (res: usize)
    requires
        length <= usize::MAX / 2,
    ensures
        res == padded_len(length as nat),
{
    simd_encoded_length(length)
}

} // verus!
