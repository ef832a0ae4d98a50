//! Issuing tokens and checking them.

use crate::base64url::{
    ascii_bytes, b64url_decode_nopad, b64url_nopad, base64url_decoded, base64url_len,
    base64url_text, is_base64url_char,
};
use crate::claims::{
    claims_payload, decode_claims, encode_claims, payload_claims, ClaimsView, PasetoClaims,
};
use crate::ed25519::{ed25519_accepts, ed25519_public_key, ed25519_signature, sign, verify};
use crate::error::AuthError;
use crate::keys::{KeysView, PasetoKeys};
use crate::pae::{pae, pae_spec, piece_views};
use crate::time::{current_time, is_clock_reading, parse_rfc3339, rfc3339_instant, Timestamp};
use crate::wire::{header, header_bytes, token_parts, token_segments};
use vstd::prelude::*;
use vstd::utf8::encode_utf8;

verus! {

/// The bytes that are signed for a payload: the framing of the header, the
/// payload and an empty footer.
pub open spec fn signed_message(payload: Seq<u8>) -> Seq<u8> {
    pae_spec(seq![header(), payload, Seq::<u8>::empty()])
}

/// Whether `text` is the segment that stands for `bytes`: their base64url
/// text, of the length and the alphabet of that encoding, which decodes to
/// them.
pub open spec fn is_segment_of(text: Seq<char>, bytes: Seq<u8>) -> bool {
    &&& text == base64url_text(bytes)
    &&& text.len() == base64url_len(bytes.len())
    &&& forall|i: int| 0 <= i < text.len() ==> is_base64url_char(#[trigger] text[i])
    &&& base64url_decoded(ascii_bytes(text)) == Some(bytes)
}

/// The payload that `issue_v4_public` signs for `claims`.
pub open spec fn issued_payload(claims: ClaimsView) -> Seq<u8> {
    claims_payload(claims)
}

/// The signature that `issue_v4_public` makes with the signing key `seed`
/// for `claims`.
pub open spec fn issued_signature(seed: Seq<u8>, claims: ClaimsView) -> Seq<u8> {
    ed25519_signature(seed, signed_message(issued_payload(claims)))
}

/// The token that the signing key `seed` issues for `claims`: the header,
/// the payload in base64url, a dot, and the signature in base64url.
pub open spec fn issued_token(seed: Seq<u8>, claims: ClaimsView) -> Seq<char> {
    "v4.public."@ + base64url_text(issued_payload(claims)) + "."@ + base64url_text(
        issued_signature(seed, claims),
    )
}

/// What holds of a token that was issued for `claims` with the signing key
/// `seed`: it is `issued_token`, both of its segments stand for their
/// bytes, the payload is not empty and reads as `claims`, and the
/// signature has 64 bytes and is accepted by the verification key that
/// belongs to the signing key.
pub open spec fn issued(seed: Seq<u8>, claims: ClaimsView, token: Seq<char>) -> bool {
    &&& token == issued_token(seed, claims)
    &&& is_segment_of(base64url_text(issued_payload(claims)), issued_payload(claims))
    &&& is_segment_of(
        base64url_text(issued_signature(seed, claims)),
        issued_signature(seed, claims),
    )
    &&& issued_payload(claims).len() > 0
    &&& payload_claims(issued_payload(claims)) == Some(claims)
    &&& issued_signature(seed, claims).len() == 64
    &&& ed25519_accepts(
        ed25519_public_key(seed),
        signed_message(issued_payload(claims)),
        issued_signature(seed, claims),
    )
}

/// What checking the expiry of authentic claims gives: an expiry that is
/// no timestamp is a [`AuthError::ClaimsFormat`], one that `now` is
/// strictly after an [`AuthError::ExpiredToken`]; else the claims stand.
pub open spec fn expiry_outcome(claims: ClaimsView, expiry: Option<Timestamp>, now: Timestamp) -> Result<
    ClaimsView,
    AuthError,
> {
    match expiry {
        None => Err(AuthError::ClaimsFormat),
        Some(e) => if now.is_after(e) {
            Err(AuthError::ExpiredToken)
        } else {
            Ok(claims)
        },
    }
}

/// What an authentic payload gives at `now`: a payload that holds no
/// claims record is a [`AuthError::ClaimsFormat`]; else the expiry of the
/// record decides.
pub open spec fn claims_outcome(claims: Option<ClaimsView>, now: Timestamp) -> Result<
    ClaimsView,
    AuthError,
> {
    match claims {
        None => Err(AuthError::ClaimsFormat),
        Some(c) => expiry_outcome(c, rfc3339_instant(c.exp), now),
    }
}

/// What a decoded payload and signature give at `now`: a signature that
/// has not 64 bytes, or that the verification key does not accept for the
/// framed payload, is a [`AuthError::Signature`]; only then is the payload
/// read.
pub open spec fn payload_outcome(
    keys: KeysView,
    payload: Seq<u8>,
    signature: Seq<u8>,
    now: Timestamp,
) -> Result<ClaimsView, AuthError> {
    if signature.len() != 64 || !ed25519_accepts(
        keys.verifying_key,
        signed_message(payload),
        signature,
    ) {
        Err(AuthError::Signature)
    } else {
        claims_outcome(payload_claims(payload), now)
    }
}

/// What checking the bytes of a token gives at `now`: a token that is not
/// the header and two segments, or with a segment that is not base64url,
/// is a [`AuthError::TokenFormat`]; else the decoded segments decide.
pub open spec fn verify_outcome(keys: KeysView, token: Seq<u8>, now: Timestamp) -> Result<
    ClaimsView,
    AuthError,
> {
    match token_parts(token) {
        None => Err(AuthError::TokenFormat),
        Some((payload_text, signature_text)) => match (
            base64url_decoded(payload_text),
            base64url_decoded(signature_text),
        ) {
            (Some(payload), Some(signature)) => payload_outcome(keys, payload, signature, now),
            _ => Err(AuthError::TokenFormat),
        },
    }
}

/// The view of checked claims, or the error.
pub open spec fn claims_result(outcome: Result<PasetoClaims, AuthError>) -> Result<
    ClaimsView,
    AuthError,
> {
    match outcome {
        Ok(claims) => Ok(claims@),
        Err(e) => Err(e),
    }
}

/// Frames a payload for signing.
fn frame(payload: &[u8]) -> (message: Vec<u8>)
    ensures
        message@ == signed_message(payload@),
{
    let head = header_bytes();
    let footer: Vec<u8> = Vec::new();
    let mut pieces: Vec<&[u8]> = Vec::new();
    pieces.push(head.as_slice());
    pieces.push(payload);
    pieces.push(footer.as_slice());
    assert(piece_views(pieces@) =~= seq![header(), payload@, Seq::<u8>::empty()]);
    pae(pieces.as_slice())
}

/// Copies 64 bytes into an array.
fn array64(bytes: &[u8]) -> (out: [u8; 64])
    requires
        bytes@.len() == 64,
    ensures
        out@ == bytes@,
{
    let mut out = [0u8; 64];
    let mut i: usize = 0;
    while i < 64
        invariant
            i <= 64,
            bytes@.len() == 64,
            forall|j: int| 0 <= j < i ==> out@[j] == bytes@[j],
        decreases 64 - i,
    {
        out[i] = bytes[i];
        i += 1;
    }
    assert(out@ =~= bytes@);
    out
}

/// Issues the token for `claims`: the claims are written as the payload,
/// the framed payload is signed, and both are set behind the header in
/// base64url. Keys without a signing key give
/// [`AuthError::MissingSigningKey`].
pub fn issue_v4_public(keys: &PasetoKeys, claims: &PasetoClaims) -> (token: Result<
    String,
    AuthError,
>)
    ensures
        match token {
            Ok(t) => keys@.signing_key is Some && issued(keys@.signing_key.unwrap(), claims@, t@),
            Err(e) => e == AuthError::MissingSigningKey && keys@.signing_key is None,
        },
{
    let payload = encode_claims(claims);
    let seed = match &keys.signing_key {
        None => {
            return Err(AuthError::MissingSigningKey);
        },
        Some(seed) => seed,
    };
    let message = frame(payload.as_slice());
    let signature = sign(seed, message.as_slice());
    let payload_text = b64url_nopad(payload.as_slice());
    let signature_text = b64url_nopad(signature.as_slice());
    let mut token = String::from_str("v4.public.");
    token.append(payload_text.as_str());
    token.append(".");
    token.append(signature_text.as_str());
    Ok(token)
}

/// Checks the expiry of authentic claims against `now`. `expiry` is what
/// the claims' `exp` reads as, `None` where it is no timestamp.
pub fn check_expiry(claims: PasetoClaims, expiry: Option<Timestamp>, now: Timestamp) -> (outcome:
    Result<PasetoClaims, AuthError>)
    ensures
        claims_result(outcome) == expiry_outcome(claims@, expiry, now),
{
    match expiry {
        None => Err(AuthError::ClaimsFormat),
        Some(e) => if now.later_than(&e) {
            Err(AuthError::ExpiredToken)
        } else {
            Ok(claims)
        },
    }
}

/// Checks the bytes of a token as of `now`: the header and the two
/// segments, their base64url, the length of the signature and the
/// signature itself over the framed payload, and only then the claims and
/// their expiry.
pub fn verify_at(keys: &PasetoKeys, token: &[u8], now: Timestamp) -> (outcome: Result<
    PasetoClaims,
    AuthError,
>)
    ensures
        claims_result(outcome) == verify_outcome(keys@, token@, now),
{
    let (payload_text, signature_text) = match token_segments(token) {
        None => {
            return Err(AuthError::TokenFormat);
        },
        Some(parts) => parts,
    };
    let payload = match b64url_decode_nopad(payload_text) {
        None => {
            return Err(AuthError::TokenFormat);
        },
        Some(bytes) => bytes,
    };
    let signature = match b64url_decode_nopad(signature_text) {
        None => {
            return Err(AuthError::TokenFormat);
        },
        Some(bytes) => bytes,
    };
    if signature.len() != 64 {
        return Err(AuthError::Signature);
    }
    let message = frame(payload.as_slice());
    let signature = array64(signature.as_slice());
    if !verify(&keys.verifying_key, message.as_slice(), &signature) {
        return Err(AuthError::Signature);
    }
    let claims = match decode_claims(payload.as_slice()) {
        None => {
            return Err(AuthError::ClaimsFormat);
        },
        Some(claims) => claims,
    };
    let expiry = parse_rfc3339(claims.exp.as_str());
    check_expiry(claims, expiry, now)
}

/// Checks a token as of now, by the system's clock. Whatever the clock
/// says, its reading is an ordinary second that has a text, and the
/// outcome is that of `verify_at` for it.
pub fn verify_v4_public(keys: &PasetoKeys, token: &str) -> (outcome: Result<
    PasetoClaims,
    AuthError,
>)
    ensures
        exists|now: Timestamp|
            is_clock_reading(now) && claims_result(outcome) == #[trigger] verify_outcome(
                keys@,
                encode_utf8(token@),
                now,
            ),
{
    let now = current_time();
    verify_at(keys, token.as_bytes(), now)
}

} // verus!
