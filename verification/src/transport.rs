//! The text form in which images cross the command boundary: JPEG bytes in
//! standard base64 behind a data-URL prefix. Images are handed out in this
//! form and taken back in it; on the way in the prefix may be left off.

use base64::Engine;
use vstd::prelude::*;
use vstd::string::*;

use crate::error::FaceError;

verus! {

/// The error of the `base64` crate's decoder.
#[verifier::external_type_specification]
#[verifier::external_body]
pub struct ExDecodeError(base64::DecodeError);

/// The standard base64 text (RFC 4648 alphabet, `=` padding) for `bytes`.
pub uninterp spec fn base64_encoding(bytes: Seq<u8>) -> Seq<char>;

/// The bytes that standard base64 `text` stands for; `None` where `text` is
/// not canonical padded base64.
pub uninterp spec fn base64_decoding(text: Seq<char>) -> Option<Seq<u8>>;

/// `Engine::encode` of `base64::engine::general_purpose::STANDARD`. The
/// result is a function of the bytes alone, and it is text that the same
/// engine decodes to those bytes again, as the crate's own tests assert of
/// every engine. The length bound keeps the encoded size, four characters
/// for every three bytes, within what a `String` can hold; the engine
/// panics beyond that.
#[verifier::external_body]
fn encode_standard(bytes: &[u8]) -> (r: String)
    requires
        bytes@.len() <= usize::MAX / 4,
    ensures
        r@ == base64_encoding(bytes@),
        base64_decoding(r@) == Some(bytes@),
{
    base64::engine::general_purpose::STANDARD.encode(bytes)
}

/// `Engine::decode` of `base64::engine::general_purpose::STANDARD`. Whether
/// it succeeds, and with which bytes, is a function of the text alone.
#[verifier::external_body]
fn decode_standard(text: &str) -> (r: Result<Vec<u8>, base64::DecodeError>)
    ensures
        match r {
            Ok(bytes) => base64_decoding(text@) == Some(bytes@),
            Err(_) => base64_decoding(text@) is None,
        },
{
    base64::engine::general_purpose::STANDARD.decode(text)
}

/// What precedes the base64 text of every image handed to the caller.
pub open spec fn data_url_prefix() -> Seq<char> {
    "data:image/jpeg;base64,"@
}

/// Puts the data-URL prefix for a JPEG image before base64 text.
pub fn data_url(encoded: &str) -> (r: String)
    ensures
        r@ == data_url_prefix() + encoded@,
{
    String::from_str("data:image/jpeg;base64,").concat(encoded)
}

/// The base64 text of a reference image: what follows the data-URL prefix
/// where the reference begins with it, else the reference as it is.
pub open spec fn reference_text(reference: Seq<char>) -> Seq<char> {
    if data_url_prefix().is_prefix_of(reference) {
        reference.skip(data_url_prefix().len() as int)
    } else {
        reference
    }
}

/// The transport form of a JPEG image: its base64 text as a data URL. Taken
/// back as a reference, it stands for the same bytes. The image may be at
/// most a quarter of the address space long.
pub fn image_data_url(jpeg: &Vec<u8>) -> (r: String)
    requires
        jpeg@.len() <= usize::MAX / 4,
    ensures
        r@ == data_url_prefix() + base64_encoding(jpeg@),
        base64_decoding(reference_text(r@)) == Some(jpeg@),
{
    let encoded = encode_standard(jpeg.as_slice());
    let url = data_url(encoded.as_str());
    proof {
        let prefix = data_url_prefix();
        assert(url@.subrange(0, prefix.len() as int) =~= prefix);
        assert(url@.skip(prefix.len() as int) =~= encoded@);
    }
    url
}

/// Whether a text begins with the data-URL prefix.
fn has_data_url_prefix(text: &str) -> (r: bool)
    ensures
        r == data_url_prefix().is_prefix_of(text@),
{
    let prefix = "data:image/jpeg;base64,";
    let n = prefix.unicode_len();
    if text.unicode_len() < n {
        return false;
    }
    let mut i: usize = 0;
    while i < n
        invariant
            i <= n,
            n == prefix@.len(),
            n <= text@.len(),
            prefix@ == data_url_prefix(),
            forall|k: int| 0 <= k < i ==> text@[k] == prefix@[k],
        decreases n - i,
    {
        if text.get_char(i) != prefix.get_char(i) {
            assert(text@.subrange(0, n as int)[i as int] != prefix@[i as int]);
            return false;
        }
        i += 1;
    }
    assert(prefix@ =~= text@.subrange(0, n as int));
    true
}

/// Maps what the base64 decoder returned for a reference image to the
/// library's result: the bytes, or `Io` where the text was rejected.
pub fn reference_bytes(decoded: Result<Vec<u8>, base64::DecodeError>) -> (r: Result<
    Vec<u8>,
    FaceError,
>)
    ensures
        match decoded {
            Ok(bytes) => r == Ok::<Vec<u8>, FaceError>(bytes),
            Err(_) => r == Err::<Vec<u8>, FaceError>(FaceError::Io),
        },
{
    match decoded {
        Ok(bytes) => Ok(bytes),
        Err(_) => Err(FaceError::Io),
    }
}

/// Decodes a reference image handed in in transport form, with or without
/// the data-URL prefix. Text that is not valid base64 after the prefix is
/// an `Io` error.
pub fn decode_reference(reference: &str) -> (r: Result<Vec<u8>, FaceError>)
    ensures
        match r {
            Ok(bytes) => base64_decoding(reference_text(reference@)) == Some(bytes@),
            Err(e) => e == FaceError::Io && base64_decoding(reference_text(reference@)) is None,
        },
{
    if has_data_url_prefix(reference) {
        let start = "data:image/jpeg;base64,".unicode_len();
        let text = reference.substring_char(start, reference.unicode_len());
        assert(text@ =~= reference@.skip(start as int));
        reference_bytes(decode_standard(text))
    } else {
        reference_bytes(decode_standard(reference))
    }
}

} // verus!
