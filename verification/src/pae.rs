//! Pre-authentication encoding: an unambiguous framing of a list of byte
//! strings into the single byte string that is signed.

use vstd::prelude::*;

verus! {

/// The eight bytes of `n`, least significant first.
pub open spec fn le64(n: u64) -> Seq<u8> {
    seq![
        (n % 0x100) as u8,
        (n / 0x100 % 0x100) as u8,
        (n / 0x1_0000 % 0x100) as u8,
        (n / 0x100_0000 % 0x100) as u8,
        (n / 0x1_0000_0000 % 0x100) as u8,
        (n / 0x100_0000_0000 % 0x100) as u8,
        (n / 0x1_0000_0000_0000 % 0x100) as u8,
        (n / 0x100_0000_0000_0000 % 0x100) as u8,
    ]
}

/// One piece as it is framed: its length, then its bytes.
pub open spec fn framed_piece(piece: Seq<u8>) -> Seq<u8> {
    le64(piece.len() as u64) + piece
}

/// The framed pieces one after the other, without the leading count.
pub open spec fn framed_pieces(pieces: Seq<Seq<u8>>) -> Seq<u8>
    decreases pieces.len(),
{
    if pieces.len() == 0 {
        Seq::empty()
    } else {
        framed_piece(pieces[0]) + framed_pieces(pieces.drop_first())
    }
}

/// The encoding of a list of pieces: the number of pieces, then each piece
/// behind its own length, every number as eight little-endian bytes.
pub open spec fn pae_spec(pieces: Seq<Seq<u8>>) -> Seq<u8> {
    le64(pieces.len() as u64) + framed_pieces(pieces)
}

/// Whether the count of pieces and the length of each piece fit the
/// 64-bit numbers that the encoding writes.
pub open spec fn framable(pieces: Seq<Seq<u8>>) -> bool {
    &&& pieces.len() <= u64::MAX
    &&& forall|i: int| 0 <= i < pieces.len() ==> (#[trigger] pieces[i]).len() <= u64::MAX
}

/// The byte strings that a list of slices stands for.
pub open spec fn piece_views(pieces: Seq<&[u8]>) -> Seq<Seq<u8>> {
    Seq::new(pieces.len(), |i: int| pieces[i]@)
}

/// Two numbers with the same eight bytes are the same number.
pub proof fn le64_injective(a: u64, b: u64)
    requires
        le64(a) == le64(b),
    ensures
        a == b,
{
    let x = le64(a);
    let y = le64(b);
    assert(x[0] == y[0] && x[1] == y[1] && x[2] == y[2] && x[3] == y[3]);
    assert(x[4] == y[4] && x[5] == y[5] && x[6] == y[6] && x[7] == y[7]);
    let a0: u64 = a % 0x100;
    let b0: u64 = b % 0x100;
    let a1: u64 = a / 0x100 % 0x100;
    let b1: u64 = b / 0x100 % 0x100;
    let a2: u64 = a / 0x1_0000 % 0x100;
    let b2: u64 = b / 0x1_0000 % 0x100;
    let a3: u64 = a / 0x100_0000 % 0x100;
    let b3: u64 = b / 0x100_0000 % 0x100;
    let a4: u64 = a / 0x1_0000_0000 % 0x100;
    let b4: u64 = b / 0x1_0000_0000 % 0x100;
    let a5: u64 = a / 0x100_0000_0000 % 0x100;
    let b5: u64 = b / 0x100_0000_0000 % 0x100;
    let a6: u64 = a / 0x1_0000_0000_0000 % 0x100;
    let b6: u64 = b / 0x1_0000_0000_0000 % 0x100;
    let a7: u64 = a / 0x100_0000_0000_0000 % 0x100;
    let b7: u64 = b / 0x100_0000_0000_0000 % 0x100;
    assert(a0 == x[0] && b0 == y[0] && a1 == x[1] && b1 == y[1]);
    assert(a2 == x[2] && b2 == y[2] && a3 == x[3] && b3 == y[3]);
    assert(a4 == x[4] && b4 == y[4] && a5 == x[5] && b5 == y[5]);
    assert(a6 == x[6] && b6 == y[6] && a7 == x[7] && b7 == y[7]);
    assert(a == b) by (bit_vector)
        requires
            a % 0x100u64 == b % 0x100u64,
            a / 0x100u64 % 0x100u64 == b / 0x100u64 % 0x100u64,
            a / 0x1_0000u64 % 0x100u64 == b / 0x1_0000u64 % 0x100u64,
            a / 0x100_0000u64 % 0x100u64 == b / 0x100_0000u64 % 0x100u64,
            a / 0x1_0000_0000u64 % 0x100u64 == b / 0x1_0000_0000u64 % 0x100u64,
            a / 0x100_0000_0000u64 % 0x100u64 == b / 0x100_0000_0000u64 % 0x100u64,
            a / 0x1_0000_0000_0000u64 % 0x100u64 == b / 0x1_0000_0000_0000u64 % 0x100u64,
            a / 0x100_0000_0000_0000u64 % 0x100u64 == b / 0x100_0000_0000_0000u64 % 0x100u64,
    ;
}

/// Framing one more piece appends that piece's frame.
pub proof fn framed_pieces_push(pieces: Seq<Seq<u8>>, piece: Seq<u8>)
    ensures
        framed_pieces(pieces.push(piece)) == framed_pieces(pieces) + framed_piece(piece),
    decreases pieces.len(),
{
    if pieces.len() == 0 {
        let one = pieces.push(piece);
        assert(one.drop_first() =~= Seq::<Seq<u8>>::empty());
        assert(framed_pieces(one.drop_first()) =~= Seq::<u8>::empty());
        assert(one[0] == piece);
        assert(framed_pieces(one) =~= framed_piece(piece));
        assert(framed_pieces(pieces) =~= Seq::<u8>::empty());
        assert(framed_pieces(pieces.push(piece)) =~= framed_pieces(pieces) + framed_piece(piece));
    } else {
        framed_pieces_push(pieces.drop_first(), piece);
        assert(pieces.push(piece).drop_first() =~= pieces.drop_first().push(piece));
        assert(framed_pieces(pieces.push(piece)) =~= framed_pieces(pieces) + framed_piece(piece));
    }
}

/// Equally many pieces with the same framing are the same pieces.
proof fn framed_pieces_injective(a: Seq<Seq<u8>>, b: Seq<Seq<u8>>)
    requires
        framable(a),
        framable(b),
        a.len() == b.len(),
        framed_pieces(a) == framed_pieces(b),
    ensures
        a == b,
    decreases a.len(),
{
    if a.len() == 0 {
        assert(a =~= b);
    } else {
        let fa = framed_pieces(a);
        let fb = framed_pieces(b);
        let ra = framed_pieces(a.drop_first());
        let rb = framed_pieces(b.drop_first());
        assert(fa == le64(a[0].len() as u64) + a[0] + ra);
        assert(fb == le64(b[0].len() as u64) + b[0] + rb);
        assert(le64(a[0].len() as u64) =~= fa.subrange(0, 8));
        assert(le64(b[0].len() as u64) =~= fb.subrange(0, 8));
        le64_injective(a[0].len() as u64, b[0].len() as u64);
        let n = a[0].len() as int;
        assert(b[0].len() == n);
        assert(a[0] =~= fa.subrange(8, 8 + n));
        assert(b[0] =~= fb.subrange(8, 8 + n));
        assert(ra =~= fa.subrange(8 + n, fa.len() as int));
        assert(rb =~= fb.subrange(8 + n, fb.len() as int));
        assert forall|i: int| 0 <= i < a.drop_first().len() implies (#[trigger] a.drop_first()[i]).len()
            <= u64::MAX by {
            assert(a.drop_first()[i] == a[i + 1]);
        }
        assert forall|i: int| 0 <= i < b.drop_first().len() implies (#[trigger] b.drop_first()[i]).len()
            <= u64::MAX by {
            assert(b.drop_first()[i] == b[i + 1]);
        }
        framed_pieces_injective(a.drop_first(), b.drop_first());
        assert forall|i: int| 0 <= i < a.len() implies a[i] == b[i] by {
            if i > 0 {
                assert(a[i] == a.drop_first()[i - 1]);
                assert(b[i] == b.drop_first()[i - 1]);
            }
        }
        assert(a =~= b);
    }
}

/// No two lists of pieces have the same encoding: whatever the number of
/// pieces and wherever their boundaries lie, equal encodings come from
/// equal lists.
pub proof fn pae_injective(a: Seq<Seq<u8>>, b: Seq<Seq<u8>>)
    requires
        framable(a),
        framable(b),
        pae_spec(a) == pae_spec(b),
    ensures
        a == b,
{
    let ea = pae_spec(a);
    let eb = pae_spec(b);
    assert(le64(a.len() as u64) =~= ea.subrange(0, 8));
    assert(le64(b.len() as u64) =~= eb.subrange(0, 8));
    le64_injective(a.len() as u64, b.len() as u64);
    assert(framed_pieces(a) =~= ea.subrange(8, ea.len() as int));
    assert(framed_pieces(b) =~= eb.subrange(8, eb.len() as int));
    framed_pieces_injective(a, b);
}

/// Appends the eight little-endian bytes of `n`.
fn push_le64(out: &mut Vec<u8>, n: u64)
    ensures
        final(out)@ == old(out)@ + le64(n),
{
    out.push((n % 0x100) as u8);
    out.push((n / 0x100 % 0x100) as u8);
    out.push((n / 0x1_0000 % 0x100) as u8);
    out.push((n / 0x100_0000 % 0x100) as u8);
    out.push((n / 0x1_0000_0000 % 0x100) as u8);
    out.push((n / 0x100_0000_0000 % 0x100) as u8);
    out.push((n / 0x1_0000_0000_0000 % 0x100) as u8);
    out.push((n / 0x100_0000_0000_0000 % 0x100) as u8);
    assert(out@ =~= old(out)@ + le64(n));
}

/// Appends every byte of `piece`.
fn push_bytes(out: &mut Vec<u8>, piece: &[u8])
    ensures
        final(out)@ == old(out)@ + piece@,
{
    let mut i: usize = 0;
    while i < piece.len()
        invariant
            i <= piece.len(),
            out@ == old(out)@ + piece@.take(i as int),
        decreases piece.len() - i,
    {
        out.push(piece[i]);
        assert(piece@.take(i + 1) =~= piece@.take(i as int).push(piece@[i as int]));
        assert(out@ =~= old(out)@ + piece@.take(i + 1));
        i += 1;
    }
    assert(piece@.take(i as int) =~= piece@);
}

/// Frames `pieces` into one byte string: the count of pieces, then for each
/// piece its length and its bytes.
pub fn pae(pieces: &[&[u8]]) -> (out: Vec<u8>)
    ensures
        out@ == pae_spec(piece_views(pieces@)),
{
    let ghost views = piece_views(pieces@);
    let mut out: Vec<u8> = Vec::new();
    push_le64(&mut out, pieces.len() as u64);
    let mut i: usize = 0;
    assert(views.take(0) =~= Seq::<Seq<u8>>::empty());
    assert(out@ =~= le64(views.len() as u64) + framed_pieces(views.take(0)));
    while i < pieces.len()
        invariant
            i <= pieces.len(),
            views == piece_views(pieces@),
            out@ == le64(views.len() as u64) + framed_pieces(views.take(i as int)),
        decreases pieces.len() - i,
    {
        let piece: &[u8] = pieces[i];
        let ghost before = out@;
        push_le64(&mut out, piece.len() as u64);
        push_bytes(&mut out, piece);
        proof {
            framed_pieces_push(views.take(i as int), piece@);
            assert(views.take(i + 1) =~= views.take(i as int).push(piece@));
            assert(out@ =~= before + framed_piece(piece@));
        }
        i += 1;
    }
    assert(views.take(i as int) =~= views);
    out
}

} // verus!
