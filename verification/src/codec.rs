//! Images as text: standard base64 and the PNG data URI built on it.

use vstd::prelude::*;

use crate::text::{has_prefix, strip_prefix};

verus! {

/// What every image payload in the history begins with.
pub const PNG_DATA_URI_PREFIX: &'static str = "data:image/png;base64,";

/// The standard base64 text of `bytes`: the RFC 4648 alphabet, padded with
/// `=` to a multiple of four characters.
pub uninterp spec fn base64_encoded(bytes: Seq<u8>) -> Seq<char>;

/// The bytes that `text` stands for in standard, padded base64, and nothing
/// where `text` is no such encoding.
pub uninterp spec fn base64_decoded(text: Seq<char>) -> Option<Seq<u8>>;

/// `base64::DecodeError`: why a text is no base64. It is passed on unread.
#[verifier::external_type_specification]
#[verifier::external_body]
pub struct ExDecodeError(base64::DecodeError);

/// How many characters the padded base64 text of `len` bytes has.
pub open spec fn encoded_len(len: nat) -> nat {
    (len / 3) * 4 + if len % 3 > 0 {
        4nat
    } else {
        0nat
    }
}

/// The bytes are few enough for their base64 text to be held in memory.
pub open spec fn encodable(len: nat) -> bool {
    encoded_len(len) <= isize::MAX
}

/// `base64::Engine::encode` on `base64::engine::general_purpose::STANDARD`.
/// The result is named, not described: it is the engine's encoding of the
/// given bytes. The call panics when the length of the text overflows, which
/// the precondition rules out.
#[verifier::external_body]
pub(crate) fn encode_standard(bytes: &[u8]) -> (text: String)
    requires
        encodable(bytes@.len()),
    ensures
        text@ == base64_encoded(bytes@),
{
    base64::Engine::encode(&base64::engine::general_purpose::STANDARD, bytes)
}

/// `base64::Engine::decode` on `base64::engine::general_purpose::STANDARD`.
/// The result is named, not described: the engine's decoding of the given
/// text where it accepts it, and its error where it does not.
#[verifier::external_body]
pub(crate) fn decode_standard(text: &str) -> (outcome: Result<Vec<u8>, base64::DecodeError>)
    ensures
        outcome matches Ok(bytes) ==> base64_decoded(text@) == Some(bytes@),
        outcome is Err ==> base64_decoded(text@) is None,
{
    base64::Engine::decode(&base64::engine::general_purpose::STANDARD, text)
}

/// The data URI of a PNG image.
pub open spec fn data_uri(png: Seq<u8>) -> Seq<char> {
    PNG_DATA_URI_PREFIX@ + base64_encoded(png)
}

/// The image bytes that a data URI holds: what its text after the PNG prefix
/// decodes to, and nothing where the prefix is missing or the rest does not
/// decode.
pub open spec fn data_uri_bytes(uri: Seq<char>) -> Option<Seq<u8>> {
    if has_prefix(uri, PNG_DATA_URI_PREFIX@) {
        base64_decoded(uri.subrange(PNG_DATA_URI_PREFIX@.len() as int, uri.len() as int))
    } else {
        None
    }
}

/// Whether `len` bytes are few enough to be encoded.
pub fn can_encode(len: usize) -> (yes: bool)
    ensures
        yes == encodable(len as nat),
{
    let quads: u128 = (len / 3) as u128;
    let padding: u128 = if len % 3 > 0 {
        4
    } else {
        0
    };
    quads * 4 + padding <= isize::MAX as u128
}

/// Frames base64 text as the payload of a PNG data URI.
pub fn frame_data_uri(payload: &str) -> (uri: String)
    ensures
        uri@ == PNG_DATA_URI_PREFIX@ + payload@,
{
    String::from_str(PNG_DATA_URI_PREFIX).concat(payload)
}

/// The base64 text that a PNG data URI carries: what follows the prefix, and
/// nothing where the prefix is missing.
pub fn data_uri_payload(uri: &str) -> (payload: Option<&str>)
    ensures
        has_prefix(uri@, PNG_DATA_URI_PREFIX@) ==> payload.is_some() && payload.unwrap()@
            == uri@.subrange(PNG_DATA_URI_PREFIX@.len() as int, uri@.len() as int),
        !has_prefix(uri@, PNG_DATA_URI_PREFIX@) ==> payload.is_none(),
{
    match strip_prefix(uri, PNG_DATA_URI_PREFIX) {
        Some(payload) => {
            assert(payload@ =~= uri@.subrange(
                PNG_DATA_URI_PREFIX@.len() as int,
                uri@.len() as int,
            ));
            Some(payload)
        },
        None => None,
    }
}

/// The data URI of a PNG image, or nothing where the image is too large to
/// be encoded.
pub fn encode_data_uri(png: &[u8]) -> (uri: Option<String>)
    ensures
        encodable(png@.len()) ==> uri.is_some() && uri.unwrap()@ == data_uri(png@),
        !encodable(png@.len()) ==> uri.is_none(),
{
    if can_encode(png.len()) {
        let payload = encode_standard(png);
        Some(frame_data_uri(payload.as_str()))
    } else {
        None
    }
}

/// The image bytes that a data URI holds, or nothing where it holds none.
pub fn decode_data_uri(uri: &str) -> (bytes: Option<Vec<u8>>)
    ensures
        bytes.is_some() == data_uri_bytes(uri@).is_some(),
        bytes.is_some() ==> bytes.unwrap()@ == data_uri_bytes(uri@).unwrap(),
{
    match data_uri_payload(uri) {
        Some(payload) => match decode_standard(payload) {
            Ok(bytes) => Some(bytes),
            Err(_) => None,
        },
        None => None,
    }
}

} // verus!
