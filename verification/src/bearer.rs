//! The `Authorization` header of a request that carries a bearer token.

use vstd::prelude::*;
use vstd::slice::slice_subrange;

verus! {

/// The number of bytes of the scheme that stands before a bearer token.
pub const BEARER_LEN: usize = 7;

/// The scheme of an `Authorization` value that carries a bearer token: the
/// bytes of `Bearer` and one space.
pub open spec fn bearer() -> Seq<u8> {
    seq![0x42u8, 0x65u8, 0x61u8, 0x72u8, 0x65u8, 0x72u8, 0x20u8]
}

/// The token that an `Authorization` value carries: what follows the
/// scheme, or `None` where the value does not start with it.
pub open spec fn bearer_of(authorization: Seq<u8>) -> Option<Seq<u8>> {
    if bearer().is_prefix_of(authorization) {
        Some(authorization.skip(BEARER_LEN as int))
    } else {
        None
    }
}

/// Hands out the token of an `Authorization` value.
pub fn bearer_token<'a>(authorization: &'a [u8]) -> (token: Option<&'a [u8]>)
    ensures
        match token {
            Some(t) => bearer_of(authorization@) == Some(t@),
            None => bearer_of(authorization@) is None,
        },
{
    if authorization.len() < BEARER_LEN {
        return None;
    }
    let yes = authorization[0] == 0x42 && authorization[1] == 0x65 && authorization[2] == 0x61
        && authorization[3] == 0x72 && authorization[4] == 0x65 && authorization[5] == 0x72
        && authorization[6] == 0x20;
    proof {
        if yes {
            assert(authorization@.subrange(0, 7) =~= bearer());
        } else {
            if bearer().is_prefix_of(authorization@) {
                assert(authorization@.subrange(0, 7) == bearer());
                assert(forall|i: int|
                    0 <= i < 7 ==> authorization@[i] == authorization@.subrange(0, 7)[i]);
            }
        }
    }
    if !yes {
        return None;
    }
    let token = slice_subrange(authorization, BEARER_LEN, authorization.len());
    assert(token@ =~= authorization@.skip(BEARER_LEN as int));
    Some(token)
}

} // verus!
