//! Public-key bearer tokens: canonical framing, signing, verification and
//! claims validation, together with the plain data and decisions of the
//! service that uses them.

pub mod api;
pub mod assistant;
pub mod base64url;
pub mod bearer;
pub mod claims;
pub mod ed25519;
pub mod error;
pub mod json;
pub mod keys;
pub mod laws;
pub mod pae;
pub mod text;
pub mod time;
pub mod token;
pub mod wire;
pub mod workflow;
