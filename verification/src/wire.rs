//! The wire form of a token: the fixed header, then the payload segment
//! and the signature segment with one dot between them.

use vstd::prelude::*;
use vstd::slice::slice_subrange;

verus! {

/// The byte of the dot that separates segments.
pub const DOT: u8 = 0x2e;

/// The number of bytes of the header.
pub const HEADER_LEN: usize = 10;

/// The header that every token starts with: the bytes of `v4.public.`,
/// version and purpose with their dots.
pub open spec fn header() -> Seq<u8> {
    seq![0x76u8, 0x34u8, 0x2eu8, 0x70u8, 0x75u8, 0x62u8, 0x6cu8, 0x69u8, 0x63u8, 0x2eu8]
}

/// Whether a dot occurs in `text`.
pub open spec fn has_dot(text: Seq<u8>) -> bool {
    exists|i: int| 0 <= i < text.len() && text[i] == DOT
}

/// Whether `text` is one segment of a token: not empty, and without a dot.
pub open spec fn is_segment(text: Seq<u8>) -> bool {
    text.len() > 0 && !has_dot(text)
}

/// The number of bytes before the first dot at or after `from`, counted
/// from the start of `text`; the length of `text` where there is none.
pub open spec fn first_dot_from(text: Seq<u8>, from: int) -> int
    decreases text.len() - from,
{
    if from < 0 || from >= text.len() {
        text.len() as int
    } else if text[from] == DOT {
        from
    } else {
        first_dot_from(text, from + 1)
    }
}

/// The two segments of what follows the header: the text before the first
/// dot and the text behind it, where both are segments. `None` where there
/// is no dot, a further dot, or an empty segment.
pub open spec fn split_segments(rest: Seq<u8>) -> Option<(Seq<u8>, Seq<u8>)> {
    let dot = first_dot_from(rest, 0);
    if dot >= rest.len() {
        None
    } else {
        let payload = rest.take(dot);
        let signature = rest.skip(dot + 1);
        if is_segment(payload) && is_segment(signature) {
            Some((payload, signature))
        } else {
            None
        }
    }
}

/// The payload segment and the signature segment of a token, or `None`
/// where the token does not start with the header or what follows is not
/// two segments.
pub open spec fn token_parts(token: Seq<u8>) -> Option<(Seq<u8>, Seq<u8>)> {
    if header().is_prefix_of(token) {
        split_segments(token.skip(HEADER_LEN as int))
    } else {
        None
    }
}

/// The token that is made of two segments.
pub open spec fn token_of_parts(payload: Seq<u8>, signature: Seq<u8>) -> Seq<u8> {
    header() + payload + seq![DOT] + signature
}

/// Where the first dot lies: no dot comes before it, and it is a dot
/// unless it is the end of the text.
pub proof fn first_dot_is_first(text: Seq<u8>, from: int)
    requires
        0 <= from <= text.len(),
    ensures
        from <= first_dot_from(text, from) <= text.len(),
        first_dot_from(text, from) < text.len() ==> text[first_dot_from(text, from)] == DOT,
        forall|i: int| from <= i < first_dot_from(text, from) ==> text[i] != DOT,
    decreases text.len() - from,
{
    if from < text.len() && text[from] != DOT {
        first_dot_is_first(text, from + 1);
    }
}

/// A token is taken apart into exactly the segments it was made of.
pub proof fn parts_of_token(payload: Seq<u8>, signature: Seq<u8>)
    requires
        is_segment(payload),
        is_segment(signature),
    ensures
        token_parts(token_of_parts(payload, signature)) == Some((payload, signature)),
{
    let token = token_of_parts(payload, signature);
    let rest = token.skip(HEADER_LEN as int);
    assert(header().len() == 10);
    assert(header().is_prefix_of(token)) by {
        assert(token.subrange(0, 10) =~= header());
    }
    assert(rest =~= payload + seq![DOT] + signature);
    let n = payload.len() as int;
    first_dot_is_first(rest, 0);
    let dot = first_dot_from(rest, 0);
    assert(rest[n] == DOT);
    assert(dot <= n) by {
        if dot > n {
            assert(rest[n] != DOT);
        }
    }
    assert(dot >= n) by {
        if dot < n {
            assert(rest[dot] == payload[dot]);
            assert(has_dot(payload));
        }
    }
    assert(rest.take(dot) =~= payload);
    assert(rest.skip(dot + 1) =~= signature);
}

/// What is taken apart into two segments is the token made of them: no
/// other text has these parts.
pub proof fn token_of_its_parts(token: Seq<u8>)
    requires
        token_parts(token) is Some,
    ensures
        is_segment(token_parts(token).unwrap().0),
        is_segment(token_parts(token).unwrap().1),
        token == token_of_parts(token_parts(token).unwrap().0, token_parts(token).unwrap().1),
{
    let rest = token.skip(HEADER_LEN as int);
    first_dot_is_first(rest, 0);
    let dot = first_dot_from(rest, 0);
    assert(header().len() == 10);
    assert(token.subrange(0, 10) =~= header());
    assert(token =~= header() + rest.take(dot) + seq![DOT] + rest.skip(dot + 1));
}

/// The number of dots in `text`: one less than the number of pieces that
/// the dots cut it into.
pub open spec fn dot_count(text: Seq<u8>) -> nat
    decreases text.len(),
{
    if text.len() == 0 {
        0
    } else if text.last() == DOT {
        1 + dot_count(text.drop_last())
    } else {
        dot_count(text.drop_last())
    }
}

/// The dots of two texts set together are the dots of each.
pub proof fn dot_count_concat(a: Seq<u8>, b: Seq<u8>)
    ensures
        dot_count(a + b) == dot_count(a) + dot_count(b),
    decreases b.len(),
{
    if b.len() == 0 {
        assert(a + b =~= a);
    } else {
        dot_count_concat(a, b.drop_last());
        assert((a + b).drop_last() =~= a + b.drop_last());
    }
}

/// A text without a dot counts none.
pub proof fn dot_count_without_dot(text: Seq<u8>)
    requires
        !has_dot(text),
    ensures
        dot_count(text) == 0,
    decreases text.len(),
{
    if text.len() > 0 {
        assert(text[text.len() - 1] != DOT);
        assert forall|i: int| 0 <= i < text.drop_last().len() implies text.drop_last()[i]
            != DOT by {
            assert(text.drop_last()[i] == text[i]);
        }
        dot_count_without_dot(text.drop_last());
    }
}

/// What follows the header is taken for two segments only where it holds
/// exactly one dot: nothing, one piece, and three pieces or more are
/// refused.
pub proof fn two_segments_have_one_dot(rest: Seq<u8>)
    requires
        dot_count(rest) != 1,
    ensures
        split_segments(rest) is None,
{
    if split_segments(rest) is Some {
        first_dot_is_first(rest, 0);
        let dot = first_dot_from(rest, 0);
        let payload = rest.take(dot);
        let signature = rest.skip(dot + 1);
        assert(rest =~= payload + seq![DOT] + signature);
        dot_count_concat(payload + seq![DOT], signature);
        dot_count_concat(payload, seq![DOT]);
        dot_count_without_dot(payload);
        dot_count_without_dot(signature);
        let one = seq![DOT];
        assert(one.drop_last() =~= Seq::<u8>::empty());
        assert(one.last() == DOT);
        assert(dot_count(one.drop_last()) == 0);
        assert(dot_count(one) == 1);
    }
}

/// The header as bytes.
pub fn header_bytes() -> (bytes: Vec<u8>)
    ensures
        bytes@ == header(),
{
    let bytes: Vec<u8> = vec![0x76, 0x34, 0x2e, 0x70, 0x75, 0x62, 0x6c, 0x69, 0x63, 0x2e];
    assert(bytes@ =~= header());
    bytes
}

/// Whether `token` starts with the header.
fn has_header(token: &[u8]) -> (yes: bool)
    ensures
        yes == header().is_prefix_of(token@),
{
    if token.len() < HEADER_LEN {
        return false;
    }
    let yes = token[0] == 0x76 && token[1] == 0x34 && token[2] == 0x2e && token[3] == 0x70
        && token[4] == 0x75 && token[5] == 0x62 && token[6] == 0x6c && token[7] == 0x69
        && token[8] == 0x63 && token[9] == 0x2e;
    proof {
        if yes {
            assert(token@.subrange(0, 10) =~= header());
        } else {
            if header().is_prefix_of(token@) {
                assert(token@.subrange(0, 10) == header());
                assert(forall|i: int| 0 <= i < 10 ==> token@[i] == token@.subrange(0, 10)[i]);
            }
        }
    }
    yes
}

/// The index of the first dot at or after `from`, or the length of `text`.
fn find_dot(text: &[u8], from: usize) -> (dot: usize)
    requires
        from <= text@.len(),
    ensures
        dot == first_dot_from(text@, from as int),
        from <= dot <= text@.len(),
{
    let mut i: usize = from;
    while i < text.len()
        invariant
            from <= i <= text@.len(),
            first_dot_from(text@, from as int) == first_dot_from(text@, i as int),
        decreases text@.len() - i,
    {
        if text[i] == DOT {
            return i;
        }
        i += 1;
    }
    i
}

/// Takes a token apart: checks the header and hands out the payload
/// segment and the signature segment that follow it.
pub fn token_segments<'a>(token: &'a [u8]) -> (parts: Option<(&'a [u8], &'a [u8])>)
    ensures
        match parts {
            Some((payload, signature)) => token_parts(token@) == Some((payload@, signature@)),
            None => token_parts(token@) is None,
        },
{
    if !has_header(token) {
        return None;
    }
    let rest = slice_subrange(token, HEADER_LEN, token.len());
    assert(rest@ =~= token@.skip(HEADER_LEN as int));
    let dot = find_dot(rest, 0);
    if dot >= rest.len() {
        return None;
    }
    let payload = slice_subrange(rest, 0, dot);
    let signature = slice_subrange(rest, dot + 1, rest.len());
    assert(payload@ =~= rest@.take(dot as int));
    assert(signature@ =~= rest@.skip(dot + 1));
    proof {
        first_dot_is_first(rest@, 0);
        first_dot_is_first(signature@, 0);
    }
    let second = find_dot(signature, 0);
    if payload.len() == 0 || signature.len() == 0 || second < signature.len() {
        return None;
    }
    Some((payload, signature))
}

} // verus!
