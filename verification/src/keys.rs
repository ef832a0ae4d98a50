//! Key material: the verification key that every instance holds, and the
//! signing key of the instances that issue tokens.

use crate::base64url::{b64url_decode_nopad, base64url_decoded};
use crate::ed25519::{ed25519_key_ok, ed25519_public_key, is_verifying_key, public_key};
use crate::error::AuthError;
use vstd::prelude::*;
use vstd::utf8::encode_utf8;

verus! {

/// The keys of one instance, fixed once they are loaded.
#[derive(Clone)]
pub struct PasetoKeys {
    /// The 32-byte public key under which tokens are checked.
    pub verifying_key: [u8; 32],
    /// The 32-byte seed of the private key with which tokens are signed,
    /// where this instance issues tokens.
    pub signing_key: Option<[u8; 32]>,
}

/// Key material with its keys as sequences of bytes.
pub struct KeysView {
    pub verifying_key: Seq<u8>,
    pub signing_key: Option<Seq<u8>>,
}

impl View for PasetoKeys {
    type V = KeysView;

    open spec fn view(&self) -> KeysView {
        KeysView {
            verifying_key: self.verifying_key@,
            signing_key: match self.signing_key {
                None => None,
                Some(seed) => Some(seed@),
            },
        }
    }
}

impl KeysView {
    /// Whether the two keys belong together: there is a signing key, and
    /// the verification key is the one that belongs to it.
    pub open spec fn is_key_pair(self) -> bool {
        &&& self.signing_key is Some
        &&& self.verifying_key == ed25519_public_key(self.signing_key.unwrap())
    }
}

/// The 32 bytes that a key's text decodes to, or `None` where the text is
/// not base64url or decodes to another length.
pub open spec fn key_bytes(text: Seq<u8>) -> Option<Seq<u8>> {
    match base64url_decoded(text) {
        Some(bytes) => if bytes.len() == 32 {
            Some(bytes)
        } else {
            None
        },
        None => None,
    }
}

/// The key material that the two texts hold: the verification key must
/// decode to 32 bytes that are a key, and the signing key, where one is
/// given, to 32 bytes.
pub open spec fn loaded_keys(public: Seq<u8>, secret: Option<Seq<u8>>) -> Result<
    KeysView,
    AuthError,
> {
    match key_bytes(public) {
        None => Err(AuthError::KeyFormat),
        Some(verifying_key) => if !ed25519_key_ok(verifying_key) {
            Err(AuthError::KeyFormat)
        } else {
            match secret {
                None => Ok(KeysView { verifying_key, signing_key: None }),
                Some(text) => match key_bytes(text) {
                    None => Err(AuthError::KeyFormat),
                    Some(seed) => Ok(KeysView { verifying_key, signing_key: Some(seed) }),
                },
            }
        },
    }
}

/// The bytes of an optional text.
pub open spec fn opt_bytes(text: Option<&str>) -> Option<Seq<u8>> {
    match text {
        None => None,
        Some(s) => Some(encode_utf8(s@)),
    }
}

/// The view of loaded keys, or the error.
pub open spec fn keys_outcome(outcome: Result<PasetoKeys, AuthError>) -> Result<
    KeysView,
    AuthError,
> {
    match outcome {
        Ok(keys) => Ok(keys@),
        Err(e) => Err(e),
    }
}

/// Copies 32 bytes into an array.
pub(crate) fn array32(bytes: &[u8]) -> (out: [u8; 32])
    requires
        bytes@.len() == 32,
    ensures
        out@ == bytes@,
{
    let mut out = [0u8; 32];
    let mut i: usize = 0;
    while i < 32
        invariant
            i <= 32,
            bytes@.len() == 32,
            forall|j: int| 0 <= j < i ==> out@[j] == bytes@[j],
        decreases 32 - i,
    {
        out[i] = bytes[i];
        i += 1;
    }
    assert(out@ =~= bytes@);
    out
}

/// Decodes the text of one key.
fn decode_key(text: &str) -> (key: Option<[u8; 32]>)
    ensures
        match key {
            Some(k) => key_bytes(encode_utf8(text@)) == Some(k@),
            None => key_bytes(encode_utf8(text@)) is None,
        },
{
    match b64url_decode_nopad(text.as_bytes()) {
        None => None,
        Some(bytes) => if bytes.len() == 32 {
            Some(array32(bytes.as_slice()))
        } else {
            None
        },
    }
}

impl PasetoKeys {
    /// Whether these keys can issue tokens.
    pub open spec fn can_sign(&self) -> bool {
        self.signing_key is Some
    }

    /// Says whether the two keys belong together, so that these keys
    /// accept the tokens they issue. Keys without a signing key are no
    /// pair.
    pub fn is_key_pair(&self) -> (yes: bool)
        ensures
            yes == self@.is_key_pair(),
    {
        match &self.signing_key {
            None => false,
            Some(seed) => {
                let expected = public_key(seed);
                let mut i: usize = 0;
                while i < 32
                    invariant
                        i <= 32,
                        self.signing_key == Some(*seed),
                        expected@ == ed25519_public_key(seed@),
                        forall|j: int| 0 <= j < i ==> expected@[j] == self.verifying_key@[j],
                    decreases 32 - i,
                {
                    if expected[i] != self.verifying_key[i] {
                        assert(expected@[i as int] != self.verifying_key@[i as int]);
                        return false;
                    }
                    i += 1;
                }
                assert(expected@ =~= self.verifying_key@);
                true
            },
        }
    }

    /// Loads key material from base64url text without padding: the
    /// verification key always, the signing key where one is given. Either
    /// text that does not decode to a 32-byte key is a
    /// [`AuthError::KeyFormat`].
    pub fn from_base64(public_b64: &str, secret_b64: Option<&str>) -> (keys: Result<
        PasetoKeys,
        AuthError,
    >)
        ensures
            keys_outcome(keys) == loaded_keys(encode_utf8(public_b64@), opt_bytes(secret_b64)),
    {
        let verifying_key = match decode_key(public_b64) {
            None => {
                return Err(AuthError::KeyFormat);
            },
            Some(key) => key,
        };
        if !is_verifying_key(&verifying_key) {
            return Err(AuthError::KeyFormat);
        }
        match secret_b64 {
            None => Ok(PasetoKeys { verifying_key, signing_key: None }),
            Some(text) => match decode_key(text) {
                None => Err(AuthError::KeyFormat),
                Some(seed) => Ok(PasetoKeys { verifying_key, signing_key: Some(seed) }),
            },
        }
    }
}

} // verus!
