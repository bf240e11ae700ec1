use vstd::prelude::*;

use base64::engine::general_purpose::URL_SAFE_NO_PAD;
use base64::Engine;
use base64::{DecodeError, EncodeSliceError};
use vstd::utf8::*;

verus! {

#[verifier::external_type_specification]
#[verifier::external_body]
pub struct ExDecodeError(DecodeError);

#[verifier::external_type_specification]
#[verifier::external_body]
pub struct ExEncodeSliceError(EncodeSliceError);

/// What base64's URL-safe engine without padding (`URL_SAFE_NO_PAD`)
/// decodes the given bytes to, or `None` where it refuses them.
pub uninterp spec fn base64_url_decode(encoded: Seq<u8>) -> Option<Seq<u8>>;

/// What base64's URL-safe engine without padding encodes the given bytes to.
pub uninterp spec fn base64_url_encode(data: Seq<u8>) -> Seq<u8>;

/// Length of the unpadded base64 encoding of `n` bytes: four symbols for
/// each full group of three bytes, two or three for a last partial group.
pub open spec fn base64_len(n: nat) -> nat {
    4 * (n / 3) + if n % 3 == 0 {
        0nat
    } else if n % 3 == 1 {
        2nat
    } else {
        3nat
    }
}

/// The number of bytes that the engine reserves before it decodes `n`
/// input bytes.
pub open spec fn decode_estimate(n: nat) -> nat {
    (n / 4 + if n % 4 > 0 {
        1nat
    } else {
        0nat
    }) * 3
}

/// A symbol of the URL-safe base64 alphabet: `A-Z`, `a-z`, `0-9`, `-`, `_`.
pub open spec fn is_url_safe_symbol(b: u8) -> bool {
    ||| 65 <= b <= 90
    ||| 97 <= b <= 122
    ||| 48 <= b <= 57
    ||| b == 45
    ||| b == 95
}

/// A character of the URL-safe base64 alphabet.
pub open spec fn is_url_safe_char(c: char) -> bool {
    ||| 'A' <= c <= 'Z'
    ||| 'a' <= c <= 'z'
    ||| '0' <= c <= '9'
    ||| c == '-'
    ||| c == '_'
}

/// The URL-safe unpadded base64 text of `data`, as characters.
pub open spec fn base64_url_text(data: Seq<u8>) -> Seq<char> {
    base64_url_encode(data).map_values(|b: u8| b as char)
}

/// The bytes that the text `s` decodes to, where it is valid URL-safe
/// unpadded base64 (of its UTF-8 bytes).
pub open spec fn decoded_text(s: Seq<char>) -> Option<Seq<u8>> {
    base64_url_decode(encode_utf8(s))
}

/// Calls `Engine::decode_vec` of base64's `URL_SAFE_NO_PAD` engine, which
/// appends the decoded bytes of `input` to `buffer`. Claimed: it succeeds
/// exactly where `base64_url_decode` gives a value, and then appends that
/// value. It succeeds only on canonical text: every byte is a URL-safe
/// symbol (padding is refused), and the unused low bits of the last symbol
/// are zero, so encoding the decoded bytes gives the input back (and the
/// input is as long as the encoding of that many bytes). After a
/// failure the contents of `buffer` are left unsaid (the engine has
/// already grown it). The requirement excludes the engine's panic when
/// the reserved length overflows.
#[verifier::external_body]
fn base64_decode_vec(input: &[u8], buffer: &mut Vec<u8>) -> (r: Result<(), DecodeError>)
    requires
        old(buffer)@.len() + decode_estimate(input@.len()) <= usize::MAX,
    ensures
        r is Ok <==> base64_url_decode(input@) is Some,
        r is Ok ==> final(buffer)@ == old(buffer)@ + base64_url_decode(input@).unwrap(),
        r is Ok ==> forall|i: int| 0 <= i < input@.len() ==> is_url_safe_symbol(#[trigger] input@[i]),
        r is Ok ==> base64_url_encode(base64_url_decode(input@).unwrap()) == input@,
        r is Ok ==> base64_len(base64_url_decode(input@).unwrap().len()) == input@.len(),
{
    URL_SAFE_NO_PAD.decode_vec(input, buffer)
}

/// Calls `Engine::encode_slice` of base64's `URL_SAFE_NO_PAD` engine on the
/// whole of `output`. Claimed, as the crate's source shows: it fails, and
/// writes nothing, exactly when `output` is shorter than the encoded
/// length; otherwise it writes the encoding of `input` at the start of
/// `output`, leaves the rest alone and returns the encoded length. The
/// encoding is made of URL-safe symbols, and the same engine decodes it
/// back to `input`. The requirement excludes the engine's panic when the
/// encoded length overflows.
#[verifier::external_body]
fn base64_encode_slice(input: &[u8], output: &mut Vec<u8>) -> (r: Result<usize, EncodeSliceError>)
    requires
        base64_len(input@.len()) <= usize::MAX,
    ensures
        final(output)@.len() == old(output)@.len(),
        r is Ok <==> base64_len(input@.len()) <= old(output)@.len(),
        r is Err ==> final(output)@ == old(output)@,
        r matches Ok(k) ==> {
            &&& k == base64_len(input@.len())
            &&& final(output)@.subrange(0, k as int) == base64_url_encode(input@)
            &&& final(output)@.subrange(k as int, final(output)@.len() as int)
                == old(output)@.subrange(k as int, old(output)@.len() as int)
            &&& forall|i: int|
                0 <= i < k ==> is_url_safe_symbol(#[trigger] final(output)@[i])
            &&& base64_url_decode(final(output)@.subrange(0, k as int)) == Some(input@)
        },
{
    URL_SAFE_NO_PAD.encode_slice(input, output.as_mut_slice())
}

/// Calls `String::from_utf8`, keeping the string and dropping the error.
/// Claimed, as std documents: it succeeds exactly on valid UTF-8, and the
/// string holds the characters that the bytes encode.
#[verifier::external_body]
fn string_from_utf8(bytes: Vec<u8>) -> (r: Option<String>)
    ensures
        r is Some <==> valid_utf8(bytes@),
        r matches Some(s) ==> s@ == decode_utf8(bytes@),
{
    String::from_utf8(bytes).ok()
}

/// Whether `val` is valid URL-safe unpadded base64.
pub fn is_base64(val: &String) -> (b: bool)
    ensures
        b == decoded_text(val@) is Some,
{
    let input = val.as_str().as_bytes();
    proof {
        assert(input@.len() == input.len());
    }
    let mut buffer: Vec<u8> = Vec::new();
    base64_decode_vec(input, &mut buffer).is_ok()
}

/// Decodes the URL-safe unpadded base64 text `val`. The text is canonical:
/// encoding the bytes again gives `val` back, so its length is the encoded
/// length of the bytes.
pub fn from_base64(val: &String) -> (r: Vec<u8>)
    requires
        decoded_text(val@) is Some,
    ensures
        r@ == decoded_text(val@).unwrap(),
        base64_url_text(r@) == val@,
        base64_len(r@.len()) == val@.len(),
{
    let input = val.as_str().as_bytes();
    proof {
        assert(input@.len() == input.len());
    }
    let mut buffer: Vec<u8> = Vec::new();
    match base64_decode_vec(input, &mut buffer) {
        Ok(()) => {
            assert(buffer@ =~= decoded_text(val@).unwrap());
            proof {
                lemma_ascii_bytes_text(input@);
                encode_utf8_decode_utf8(val@);
            }
            buffer
        },
        Err(_) => {
            assert(false);
            buffer
        },
    }
}

/// Decodes `val` where it is valid URL-safe unpadded base64; `None` where
/// it is not.
pub fn try_from_base64(val: &String) -> (r: Option<Vec<u8>>)
    ensures
        r is Some <==> decoded_text(val@) is Some,
        r matches Some(bytes) ==> bytes@ == decoded_text(val@).unwrap(),
        r matches Some(bytes) ==> base64_url_text(bytes@) == val@,
        r matches Some(bytes) ==> base64_len(bytes@.len()) == val@.len(),
{
    if is_base64(val) {
        Some(from_base64(val))
    } else {
        None
    }
}

proof fn lemma_ascii_bytes_text(bytes: Seq<u8>)
    requires
        forall|i: int| 0 <= i < bytes.len() ==> is_url_safe_symbol(#[trigger] bytes[i]),
    ensures
        encode_utf8(bytes.map_values(|b: u8| b as char)) == bytes,
        valid_utf8(bytes),
        decode_utf8(bytes) == bytes.map_values(|b: u8| b as char),
{
    let chars = bytes.map_values(|b: u8| b as char);
    assert forall|i: int| 0 <= i < chars.len() implies '\0' <= #[trigger] chars[i] <= '\u{7f}' by {
        assert(is_url_safe_symbol(bytes[i]));
    }
    assert(is_ascii_chars(chars));
    is_ascii_chars_encode_utf8(chars);
    assert forall|i: int| 0 <= i < chars.len() implies encode_utf8(chars)[i] == bytes[i] by {
        assert(chars[i] as u8 == bytes[i]);
    }
    assert(encode_utf8(chars) =~= bytes);
    encode_utf8_valid_utf8(chars);
    encode_utf8_decode_utf8(chars);
}

/// Encodes `val` as URL-safe base64 without padding. The text decodes back
/// to `val`.
pub fn to_base64(val: Vec<u8>) -> (r: String)
    requires
        val@.len() * 4 <= usize::MAX,
    ensures
        r@ == base64_url_text(val@),
        r@.len() == base64_len(val@.len()),
        forall|i: int| 0 <= i < r@.len() ==> is_url_safe_char(#[trigger] r@[i]),
        decoded_text(r@) == Some(val@),
{
    let n = val.len();
    let mut buffer: Vec<u8> = Vec::new();
    let size = n * 4 / 3 + 4;
    buffer.resize(size, 0u8);
    assert(base64_len(n as nat) <= size) by (nonlinear_arith)
        requires
            size == n * 4 / 3 + 4,
    {
        assert(3 * (n / 3) <= n);
    }
    match base64_encode_slice(val.as_slice(), &mut buffer) {
        Ok(k) => {
            buffer.truncate(k);
            let ghost bytes = buffer@;
            assert(bytes == base64_url_encode(val@));
            proof {
                lemma_ascii_bytes_text(bytes);
                assert forall|i: int| 0 <= i < bytes.len() implies is_url_safe_char(
                    #[trigger] base64_url_text(val@)[i],
                ) by {
                    assert(is_url_safe_symbol(bytes[i]));
                }
            }
            match string_from_utf8(buffer) {
                Some(s) => s,
                None => {
                    assert(false);
                    String::new()
                },
            }
        },
        Err(_) => {
            assert(false);
            String::new()
        },
    }
}

} // verus!
