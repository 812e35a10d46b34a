use ::base64::Engine;
use vstd::prelude::*;

verus! {

/// What the `base64` crate's URL-safe, unpadded engine decodes a text to, or
/// nothing where the text is not such an encoding.
pub uninterp spec fn spec_base64url_decode(s: Seq<char>) -> Option<Seq<u8>>;

/// What the `base64` crate's URL-safe, unpadded engine encodes bytes as.
pub uninterp spec fn spec_base64url_encode(b: Seq<u8>) -> Seq<char>;

/// What the `base64` crate's standard, padded engine decodes a text to, or
/// nothing where the text is not such an encoding.
pub uninterp spec fn spec_base64_decode(s: Seq<char>) -> Option<Seq<u8>>;

/// `base64::engine::general_purpose::URL_SAFE_NO_PAD.decode`. The contract
/// ties the outcome to the input through the name `spec_base64url_decode`
/// and claims nothing of the error's content.
#[verifier::external_body]
pub(crate) fn base64url_decode(s: &str) -> (r: Result<Vec<u8>, ::base64::DecodeError>)
    ensures
        match r {
            Ok(v) => spec_base64url_decode(s@) == Some(v@),
            Err(_) => spec_base64url_decode(s@) is None,
        },
{
    ::base64::engine::general_purpose::URL_SAFE_NO_PAD.decode(s)
}

/// `base64::engine::general_purpose::URL_SAFE_NO_PAD.encode`. The contract
/// names the text it writes and claims that the same engine decodes that
/// text back to the input bytes.
#[verifier::external_body]
pub(crate) fn base64url_encode(b: &[u8]) -> (r: String)
    ensures
        r@ == spec_base64url_encode(b@),
        spec_base64url_decode(r@) == Some(b@),
{
    ::base64::engine::general_purpose::URL_SAFE_NO_PAD.encode(b)
}

/// `base64::engine::general_purpose::STANDARD.decode`, with the error
/// dropped. The contract ties the outcome to the input through the name
/// `spec_base64_decode`.
#[verifier::external_body]
pub(crate) fn base64_decode(s: &str) -> (r: Option<Vec<u8>>)
    ensures
        match r {
            Some(v) => spec_base64_decode(s@) == Some(v@),
            None => spec_base64_decode(s@) is None,
        },
{
    ::base64::engine::general_purpose::STANDARD.decode(s).ok()
}

/// The external error of a base64 decode.
#[verifier::external_type_specification]
#[verifier::external_body]
pub struct ExDecodeError(::base64::DecodeError);

} // verus!
