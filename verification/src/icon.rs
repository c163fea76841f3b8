//! The server's icon as a `data:` URI, for clients that show one.

use base64::Engine;
use vstd::prelude::*;
use vstd::string::StringSliceAdditionalSpecFns;

verus! {

/// The standard Base64 text, with padding, of a sequence of bytes.
pub uninterp spec fn base64_text(bytes: Seq<u8>) -> Seq<char>;

/// Whether bytes of the given number can be encoded: the encoded text must
/// not be longer than a string can be.
pub open spec fn encodable(length: nat) -> bool {
    (length / 3 + 1) * 4 <= usize::MAX
}

/// Encodes bytes as Base64.
///
/// Trusted: calls `base64::Engine::encode` on the `STANDARD` engine, which
/// gives the text of the bytes in the standard alphabet with padding. It
/// panics where the length of that text overflows, which the precondition
/// rules out. The contract only names the text: it is [`base64_text`] of the
/// bytes.
#[verifier::external_body]
fn encode_base64(bytes: &[u8]) -> (text: String)
    requires
        encodable(bytes@.len()),
    ensures
        text@ == base64_text(bytes@),
{
    base64::engine::general_purpose::STANDARD.encode(bytes)
}

/// The `data:` URI that holds an SVG image.
pub open spec fn svg_data_uri(svg: Seq<char>) -> Seq<char> {
    "data:image/svg+xml;base64,"@ + base64_text(vstd::utf8::encode_utf8(svg))
}

/// The `data:` URI that holds the SVG image `svg`.
pub fn icon_data_uri(svg: &str) -> (uri: String)
    requires
        encodable(svg.spec_bytes().len()),
    ensures
        uri@ == svg_data_uri(svg@),
{
    let encoded = encode_base64(svg.as_bytes());
    let mut uri = String::from_str("data:image/svg+xml;base64,");
    uri.append(encoded.as_str());
    uri
}

} // verus!
