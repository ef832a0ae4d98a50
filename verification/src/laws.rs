//! What holds of issuing and checking together.

use crate::base64url::{ascii_bytes, base64url_decoded, base64url_text, is_base64url_char};
use crate::claims::{issued_at, payload_claims, ClaimsView};
use crate::ed25519::ed25519_accepts;
use crate::error::AuthError;
use crate::keys::KeysView;
use crate::pae::{framable, pae_injective};
use crate::time::{rfc3339_instant, Timestamp, NANOS_PER_SEC, VALIDITY_SECS};
use crate::token::{
    issued, issued_payload, issued_signature, signed_message, verify_outcome,
};
use crate::wire::{
    dot_count, has_dot, header, is_segment, parts_of_token, token_of_its_parts, token_of_parts,
    token_parts, two_segments_have_one_dot, DOT, HEADER_LEN,
};
use vstd::prelude::*;
use vstd::utf8::{encode_utf8, is_ascii_chars, is_ascii_chars_encode_utf8};

verus! {

/// Text of the base64url alphabet is, byte for byte, a segment of a token,
/// unless it is empty.
proof fn alphabet_text_is_segment(text: Seq<char>)
    requires
        text.len() > 0,
        forall|i: int| 0 <= i < text.len() ==> is_base64url_char(#[trigger] text[i]),
    ensures
        is_segment(ascii_bytes(text)),
        is_ascii_chars(text),
{
    let bytes = ascii_bytes(text);
    assert forall|i: int| 0 <= i < bytes.len() implies bytes[i] != DOT by {
        assert(is_base64url_char(text[i]));
    }
    assert forall|i: int| 0 <= i < text.len() implies '\0' <= #[trigger] text[i] <= '\u{7f}' by {
        assert(is_base64url_char(text[i]));
    }
}

/// The bytes of an issued token are the header and the two segments that
/// stand for the payload and the signature.
pub proof fn issued_token_parts(seed: Seq<u8>, claims: ClaimsView, token: Seq<char>)
    requires
        issued(seed, claims, token),
    ensures
        token_parts(encode_utf8(token)) == Some(
            (
                ascii_bytes(base64url_text(issued_payload(claims))),
                ascii_bytes(base64url_text(issued_signature(seed, claims))),
            ),
        ),
{
    reveal_strlit("v4.public.");
    reveal_strlit(".");
    let head = "v4.public."@;
    let dot = "."@;
    let p = base64url_text(issued_payload(claims));
    let s = base64url_text(issued_signature(seed, claims));
    alphabet_text_is_segment(p);
    alphabet_text_is_segment(s);
    assert(head.len() == 10 && dot.len() == 1);
    assert(head[0] == 'v' && head[1] == '4' && head[2] == '.' && head[3] == 'p' && head[4] == 'u');
    assert(head[5] == 'b' && head[6] == 'l' && head[7] == 'i' && head[8] == 'c' && head[9] == '.');
    assert(dot[0] == '.');
    assert(token == head + p + dot + s);
    assert forall|i: int| 0 <= i < token.len() implies '\0' <= #[trigger] token[i] <= '\u{7f}' by {
        if i < 10 {
            assert(token[i] == head[i]);
        } else if i < 10 + p.len() {
            assert(token[i] == p[i - 10]);
        } else if i == 10 + p.len() {
            assert(token[i] == dot[0]);
        } else {
            assert(token[i] == s[i - 11 - p.len()]);
        }
    }
    is_ascii_chars_encode_utf8(token);
    let bytes = encode_utf8(token);
    let made = token_of_parts(ascii_bytes(p), ascii_bytes(s));
    assert(bytes.len() == made.len());
    assert forall|i: int| 0 <= i < bytes.len() implies bytes[i] == made[i] by {
        assert(bytes[i] == token[i] as u8);
        if i < 10 {
            assert(token[i] == head[i]);
        } else if i < 10 + p.len() {
            assert(token[i] == p[i - 10]);
        } else if i == 10 + p.len() {
            assert(token[i] == dot[0]);
        } else {
            assert(token[i] == s[i - 11 - p.len()]);
        }
    }
    assert(bytes =~= made);
    parts_of_token(ascii_bytes(p), ascii_bytes(s));
}

/// Round trip. A token that a key pair issued for claims is accepted by
/// the same keys, with the claims it was issued for, at every instant that
/// is not after the expiry those claims name.
pub proof fn issued_token_verifies(
    keys: KeysView,
    claims: ClaimsView,
    token: Seq<char>,
    expiry: Timestamp,
    now: Timestamp,
)
    requires
        keys.is_key_pair(),
        issued(keys.signing_key.unwrap(), claims, token),
        rfc3339_instant(claims.exp) == Some(expiry),
        !now.is_after(expiry),
    ensures
        verify_outcome(keys, encode_utf8(token), now) == Ok::<ClaimsView, AuthError>(claims),
{
    issued_token_parts(keys.signing_key.unwrap(), claims, token);
}

/// Round trip of fresh claims. Claims built for a bearer at an instant of
/// the clock, issued as a token by a key pair and checked with the same
/// keys within the hour, come back with the bearer's subject, e-mail
/// address and name.
pub proof fn fresh_token_verifies(
    keys: KeysView,
    sub: Seq<char>,
    email: Option<Seq<char>>,
    name: Option<Seq<char>>,
    issued_on: Timestamp,
    claims: ClaimsView,
    token: Seq<char>,
    now: Timestamp,
)
    requires
        keys.is_key_pair(),
        issued_on.nanos < NANOS_PER_SEC,
        issued_at(claims, sub, email, name, issued_on),
        issued(keys.signing_key.unwrap(), claims, token),
        now.secs < issued_on.secs + VALIDITY_SECS,
    ensures
        verify_outcome(keys, encode_utf8(token), now) == Ok::<ClaimsView, AuthError>(claims),
        claims.sub == sub,
        claims.email == email,
        claims.name == name,
{
    let expiry = Timestamp { secs: (issued_on.secs + VALIDITY_SECS) as i64, nanos: 0 };
    issued_token_verifies(keys, claims, token, expiry, now);
}

/// Fresh claims expire strictly after they were issued: read as instants,
/// their expiry is one hour later than their issue.
pub proof fn fresh_claims_expire_after_issue(
    sub: Seq<char>,
    email: Option<Seq<char>>,
    name: Option<Seq<char>>,
    issued_on: Timestamp,
    claims: ClaimsView,
)
    requires
        issued_on.nanos < NANOS_PER_SEC,
        issued_at(claims, sub, email, name, issued_on),
    ensures
        rfc3339_instant(claims.iat) is Some,
        rfc3339_instant(claims.exp) is Some,
        rfc3339_instant(claims.exp).unwrap().is_after(rfc3339_instant(claims.iat).unwrap()),
        rfc3339_instant(claims.exp).unwrap().secs == rfc3339_instant(claims.iat).unwrap().secs
            + VALIDITY_SECS,
{
}

/// Expiry enforcement. A token that a key pair issued for claims whose
/// expiry lies before `now` is refused as expired, though its signature is
/// valid.
pub proof fn expired_token_is_refused(
    keys: KeysView,
    claims: ClaimsView,
    token: Seq<char>,
    expiry: Timestamp,
    now: Timestamp,
)
    requires
        keys.is_key_pair(),
        issued(keys.signing_key.unwrap(), claims, token),
        rfc3339_instant(claims.exp) == Some(expiry),
        now.is_after(expiry),
    ensures
        verify_outcome(keys, encode_utf8(token), now) == Err::<ClaimsView, AuthError>(
            AuthError::ExpiredToken,
        ),
{
    issued_token_parts(keys.signing_key.unwrap(), claims, token);
}

/// Prefix rejection. Bytes that do not start with the header are refused
/// for their format, whatever follows and whatever the keys and the time.
pub proof fn wrong_prefix_is_refused(keys: KeysView, token: Seq<u8>, now: Timestamp)
    requires
        !header().is_prefix_of(token),
    ensures
        verify_outcome(keys, token, now) == Err::<ClaimsView, AuthError>(AuthError::TokenFormat),
{
}

/// Segment-count rejection. Behind the header, anything but exactly two
/// pieces between dots is refused for its format: nothing, one piece, and
/// three pieces or more.
pub proof fn wrong_segment_count_is_refused(keys: KeysView, token: Seq<u8>, now: Timestamp)
    requires
        header().is_prefix_of(token),
        dot_count(token.skip(HEADER_LEN as int)) != 1,
    ensures
        verify_outcome(keys, token, now) == Err::<ClaimsView, AuthError>(AuthError::TokenFormat),
{
    two_segments_have_one_dot(token.skip(HEADER_LEN as int));
}

/// An empty segment is refused for its format, as a wrong count is.
pub proof fn empty_segment_is_refused(
    keys: KeysView,
    payload_text: Seq<u8>,
    signature_text: Seq<u8>,
    now: Timestamp,
)
    requires
        payload_text.len() == 0 || signature_text.len() == 0,
        !has_dot(payload_text),
        !has_dot(signature_text),
    ensures
        verify_outcome(keys, token_of_parts(payload_text, signature_text), now) == Err::<
            ClaimsView,
            AuthError,
        >(AuthError::TokenFormat),
{
    let token = token_of_parts(payload_text, signature_text);
    if token_parts(token) is Some {
        token_of_its_parts(token);
        let (p, s) = token_parts(token).unwrap();
        assert(token_of_parts(p, s) == token_of_parts(payload_text, signature_text));
        let rest_a = p + seq![DOT] + s;
        let rest_b = payload_text + seq![DOT] + signature_text;
        assert(rest_a =~= token.skip(HEADER_LEN as int));
        assert(rest_b =~= token.skip(HEADER_LEN as int));
        if payload_text.len() == 0 {
            assert(rest_b[0] == DOT);
            assert(rest_a[0] == p[0]);
            assert(p[0] == DOT);
        } else {
            let n = rest_b.len() - 1;
            assert(rest_b[n] == DOT);
            assert(rest_a[n] == s[s.len() - 1]);
            assert(s[s.len() - 1] == DOT);
        }
    }
}

/// No silent success. Whatever bytes are accepted as a token hold a
/// payload and a signature of 64 bytes that the verification key accepts
/// for the framed payload, and the claims returned are those of that
/// payload: a change to either segment is accepted only together with a
/// signature that is valid for the changed bytes.
pub proof fn accepted_token_is_signed(keys: KeysView, token: Seq<u8>, now: Timestamp)
    requires
        verify_outcome(keys, token, now) is Ok,
    ensures
        token_parts(token) is Some,
        base64url_decoded(token_parts(token).unwrap().0) is Some,
        base64url_decoded(token_parts(token).unwrap().1) is Some,
        base64url_decoded(token_parts(token).unwrap().1).unwrap().len() == 64,
        ed25519_accepts(
            keys.verifying_key,
            signed_message(base64url_decoded(token_parts(token).unwrap().0).unwrap()),
            base64url_decoded(token_parts(token).unwrap().1).unwrap(),
        ),
        payload_claims(base64url_decoded(token_parts(token).unwrap().0).unwrap()) == Some(
            verify_outcome(keys, token, now).unwrap(),
        ),
{
}

/// Order of the checks. A token is refused for its claims or its expiry
/// only once its signature has been accepted: what is forged or tampered
/// with is refused on cryptographic grounds, whatever expiry it names.
pub proof fn claims_count_only_when_signed(keys: KeysView, token: Seq<u8>, now: Timestamp)
    requires
        verify_outcome(keys, token, now) == Err::<ClaimsView, AuthError>(AuthError::ClaimsFormat)
            || verify_outcome(keys, token, now) == Err::<ClaimsView, AuthError>(
            AuthError::ExpiredToken,
        ),
    ensures
        token_parts(token) is Some,
        base64url_decoded(token_parts(token).unwrap().0) is Some,
        base64url_decoded(token_parts(token).unwrap().1) is Some,
        ed25519_accepts(
            keys.verifying_key,
            signed_message(base64url_decoded(token_parts(token).unwrap().0).unwrap()),
            base64url_decoded(token_parts(token).unwrap().1).unwrap(),
        ),
{
}

/// Checking needs no signing key: key material with the same verification
/// key gives the same outcome, with or without a signing key.
pub proof fn verification_key_decides(a: KeysView, b: KeysView, token: Seq<u8>, now: Timestamp)
    requires
        a.verifying_key == b.verifying_key,
    ensures
        verify_outcome(a, token, now) == verify_outcome(b, token, now),
{
}

/// Different payloads are never signed as the same bytes: the framing
/// keeps the payload apart from the header before it and the footer
/// behind it.
pub proof fn signed_message_is_injective(a: Seq<u8>, b: Seq<u8>)
    requires
        a.len() <= u64::MAX,
        b.len() <= u64::MAX,
        signed_message(a) == signed_message(b),
    ensures
        a == b,
{
    let pa = seq![header(), a, Seq::<u8>::empty()];
    let pb = seq![header(), b, Seq::<u8>::empty()];
    assert(header().len() == 10);
    assert(framable(pa));
    assert(framable(pb));
    pae_injective(pa, pb);
    assert(pa[1] == pb[1]);
}

/// Cross-key rejection. A token issued with one signing key is refused for
/// its signature by every verification key that does not accept that
/// key's signature of the framed payload, before its claims are read.
pub proof fn foreign_key_is_refused(
    seed: Seq<u8>,
    claims: ClaimsView,
    token: Seq<char>,
    other: KeysView,
    now: Timestamp,
)
    requires
        issued(seed, claims, token),
        !ed25519_accepts(
            other.verifying_key,
            signed_message(issued_payload(claims)),
            issued_signature(seed, claims),
        ),
    ensures
        verify_outcome(other, encode_utf8(token), now) == Err::<ClaimsView, AuthError>(
            AuthError::Signature,
        ),
{
    issued_token_parts(seed, claims, token);
}

} // verus!
