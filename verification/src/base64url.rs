//! URL-safe base64 without padding, as the `base64` crate computes it.

use base64::Engine;
use vstd::prelude::*;

verus! {

/// The text that `base64::engine::general_purpose::URL_SAFE_NO_PAD.encode`
/// returns for `bytes`.
pub uninterp spec fn base64url_text(bytes: Seq<u8>) -> Seq<char>;

/// What `base64::engine::general_purpose::URL_SAFE_NO_PAD.decode` returns
/// for the bytes of a text: the decoded bytes, or `None` where it reports
/// an error.
pub uninterp spec fn base64url_decoded(text: Seq<u8>) -> Option<Seq<u8>>;

/// The 64 characters of the URL-safe alphabet.
pub open spec fn is_base64url_char(c: char) -> bool {
    ||| 'A' <= c <= 'Z'
    ||| 'a' <= c <= 'z'
    ||| '0' <= c <= '9'
    ||| c == '-'
    ||| c == '_'
}

/// The number of characters that encode `n` bytes without padding: four
/// for every three bytes, two for one byte left over, three for two.
pub open spec fn base64url_len(n: nat) -> nat {
    ((4 * n + 2) / 3) as nat
}

/// The bytes of a text of ASCII characters, one byte for each character.
pub open spec fn ascii_bytes(text: Seq<char>) -> Seq<u8> {
    Seq::new(text.len(), |i: int| text[i] as u8)
}

/// Calls `Engine::encode` of `base64` on the engine `URL_SAFE_NO_PAD`.
/// The contract names the text returned and claims of it what the crate
/// documents of this engine: the alphabet is the URL-safe one, no padding
/// is written, so the length is that of `base64url_len`, and the same
/// engine decodes the text to the bytes that went in.
#[verifier::external_body]
pub(crate) fn b64url_nopad(data: &[u8]) -> (text: String)
    ensures
        text@ == base64url_text(data@),
        text@.len() == base64url_len(data@.len()),
        forall|i: int| 0 <= i < text@.len() ==> is_base64url_char(#[trigger] text@[i]),
        base64url_decoded(ascii_bytes(text@)) == Some(data@),
{
    base64::engine::general_purpose::URL_SAFE_NO_PAD.encode(data)
}

/// Calls `Engine::decode` of `base64` on the engine `URL_SAFE_NO_PAD`,
/// and gives `None` where it reports an error. The contract names the
/// result.
#[verifier::external_body]
pub(crate) fn b64url_decode_nopad(text: &[u8]) -> (bytes: Option<Vec<u8>>)
    ensures
        bytes is Some <==> base64url_decoded(text@) is Some,
        bytes is Some ==> base64url_decoded(text@) == Some(bytes.unwrap()@),
{
    base64::engine::general_purpose::URL_SAFE_NO_PAD.decode(text).ok()
}

} // verus!
