//! Images as base64 data URLs: building one from bytes, and reading the
//! bytes back. The base64 coding itself is the `base64` crate's standard
//! engine (RFC 4648 alphabet, with padding).
use crate::text::{has_prefix, lemma_first_index_from};
use crate::validate::{
    data_scheme, declares_supported_type, estimated_size, has_sole_comma, header_of, image_accepted,
    image_payload, is_base64_symbol, is_base64_text, is_data_url_shape, lemma_trim_padded, media_type_of,
    payload_of, payload_spec, sole_comma_at, MAX_IMAGE_SIZE,
};
use base64::Engine;
use vstd::prelude::*;

verus! {

#[verifier::external_type_specification]
#[verifier::external_body]
pub struct ExDecodeError(base64::DecodeError);

/// What the standard engine encodes `bytes` to.
pub uninterp spec fn standard_encoding(bytes: Seq<u8>) -> Seq<char>;

/// What the standard engine decodes `text` to, if it accepts it.
pub uninterp spec fn standard_decoding(text: Seq<char>) -> Option<Seq<u8>>;

/// Whether `s` has the shape of standard base64: symbols of the alphabet
/// followed by at most two `=`.
pub open spec fn is_padded_base64(s: Seq<char>) -> bool {
    exists|p: int| #[trigger] padded_with(s, p)
}

/// Whether `s` is symbols of the alphabet followed by exactly `p <= 2` `=`.
pub open spec fn padded_with(s: Seq<char>, p: int) -> bool {
    &&& 0 <= p <= 2
    &&& p <= s.len()
    &&& forall|i: int| 0 <= i < s.len() - p ==> is_base64_symbol(#[trigger] s[i])
    &&& forall|i: int| s.len() - p <= i < s.len() ==> #[trigger] s[i] == '='
}

/// The prefix of the data URLs built here.
pub open spec fn png_data_url_prefix() -> Seq<char> {
    seq!['d', 'a', 't', 'a', ':', 'i', 'm', 'a', 'g', 'e', '/', 'p', 'n', 'g', ';', 'b', 'a', 's', 'e', '6', '4', ',']
}

/// Relies on `base64::engine::general_purpose::STANDARD.encode`: the result
/// is the RFC 4648 encoding with padding, four characters for every three
/// bytes or part of three. The engine panics when the encoded length would
/// not fit in a `usize`, which the bound on the input rules out.
#[verifier::external_body]
fn encode_standard(bytes: &[u8]) -> (r: String)
    requires
        bytes@.len() <= usize::MAX / 2,
    ensures
        r@ == standard_encoding(bytes@),
        r@.len() == 4 * ((bytes@.len() + 2) / 3),
        is_padded_base64(r@),
{
    base64::engine::general_purpose::STANDARD.encode(bytes)
}

/// Relies on `base64::engine::general_purpose::STANDARD.decode`: it accepts
/// what the same engine's `encode` produces, giving back the encoded bytes.
#[verifier::external_body]
fn decode_standard(text: &str) -> (r: Result<Vec<u8>, base64::DecodeError>)
    ensures
        r is Ok <==> standard_decoding(text@) is Some,
        r is Ok ==> r->Ok_0@ == standard_decoding(text@)->0,
        forall|b: Seq<u8>| text@ == #[trigger] standard_encoding(b) ==> r is Ok && r->Ok_0@ == b,
{
    base64::engine::general_purpose::STANDARD.decode(text)
}

/// The failures of the command-line client's image handling.
#[derive(Debug)]
pub enum EmobananaError {
    /// The image data is not valid base64.
    Base64Decode(base64::DecodeError),
    /// The service answered with this failure message.
    Api(String),
    /// No file exists at this path.
    FileNotFound(String),
    /// The image is not in a usable format.
    InvalidImageFormat,
}

/// The payload of a PNG data URL holding standard base64 text is that text,
/// and the URL passes image validation when it is small enough.
pub proof fn lemma_data_url_accepted(encoded: Seq<char>)
    requires
        is_padded_base64(encoded),
    ensures
        payload_spec(png_data_url_prefix() + encoded) == encoded,
        estimated_size(encoded.len() as int) <= MAX_IMAGE_SIZE ==> image_accepted(png_data_url_prefix() + encoded),
{
    let pre = png_data_url_prefix();
    let s = pre + encoded;
    assert(s.subrange(0, 5) =~= data_scheme());
    assert(has_prefix(s, data_scheme()));
    assert forall|j: int| 0 <= j < s.len() && j != 21 implies s[j] != ',' by {
        if j >= 22 {
            let p = choose|p: int| padded_with(encoded, p);
            assert(s[j] == encoded[j - 22]);
            if j - 22 < encoded.len() - p {
                assert(is_base64_symbol(encoded[j - 22]));
            }
        }
    }
    assert(sole_comma_at(s, 21));
    assert(has_sole_comma(s));
    assert(is_data_url_shape(s));
    let c = crate::validate::comma_position(s);
    assert(sole_comma_at(s, c));
    assert(c == 21);
    let h = header_of(s);
    assert(h =~= pre.subrange(0, 21));
    assert(h[14] == ';');
    assert(forall|j: int| 5 <= j < 14 ==> h[j] != ';');
    lemma_first_index_from(h, ';', 5, 14);
    assert(media_type_of(h) =~= seq!['i', 'm', 'a', 'g', 'e', '/', 'p', 'n', 'g']);
    assert(declares_supported_type(header_of(s)));
    assert(payload_of(s) =~= encoded);
    let p = choose|p: int| padded_with(encoded, p);
    if encoded.len() - p > 0 {
        assert(is_base64_symbol(encoded[encoded.len() - p - 1]));
    }
    lemma_trim_padded(encoded, p);
    assert(is_base64_text(encoded));
}

/// The bytes of an image as a PNG data URL: `data:image/png;base64,`
/// followed by their standard base64 encoding. The result passes image
/// validation when it is within the size ceiling.
pub fn image_data_url(bytes: &[u8]) -> (r: String)
    requires
        bytes@.len() <= usize::MAX / 2,
    ensures
        r@ == png_data_url_prefix() + standard_encoding(bytes@),
        payload_spec(r@) == standard_encoding(bytes@),
        estimated_size(standard_encoding(bytes@).len() as int) <= MAX_IMAGE_SIZE ==> image_accepted(r@),
{
    let encoded = encode_standard(bytes);
    let mut r = "data:image/png;base64,".to_string();
    proof {
        reveal_strlit("data:image/png;base64,");
    }
    assert(r@ =~= png_data_url_prefix());
    r.append(encoded.as_str());
    proof {
        lemma_data_url_accepted(encoded@);
    }
    r
}

/// The bytes that a base64 image holds. A `data:` URL with exactly one comma
/// is decoded from what follows the comma; any other text is decoded whole.
/// Text that the standard engine produced from some bytes gives those bytes
/// back.
pub fn decode_base64_image(base64_data: &str) -> (r: Result<Vec<u8>, EmobananaError>)
    ensures
        r is Ok <==> standard_decoding(payload_spec(base64_data@)) is Some,
        r is Ok ==> r->Ok_0@ == standard_decoding(payload_spec(base64_data@))->0,
        forall|b: Seq<u8>| payload_spec(base64_data@) == #[trigger] standard_encoding(b) ==> r is Ok && r->Ok_0@ == b,
        r is Err ==> r matches Err(EmobananaError::Base64Decode(_)),
{
    let payload = image_payload(base64_data);
    match decode_standard(payload.as_str()) {
        Ok(bytes) => Ok(bytes),
        Err(e) => Err(EmobananaError::Base64Decode(e)),
    }
}

} // verus!
