//! FEN parsing: from a placement string to a populated 64-cell board.
//!
//! Only the first (piece placement) field of a FEN record is interpreted.
//! The record must have six space-separated fields and the placement field
//! must have eight `/`-separated ranks; anything else is `InvalidFenFormat`.
//! Within a rank, a digit advances the column cursor by its value, an
//! uppercase letter places a White piece and a lowercase letter a Black
//! piece; an unrecognized character leaves its cell empty and advances the
//! cursor by one. Cells that would fall beyond column 7 are never written.

use vstd::prelude::*;
use vstd::string::StringSliceAdditionalSpecFns;
use crate::board::{Board, Piece, PieceColor, PieceKind};

verus! {

/// Why a FEN record was rejected.
#[derive(Clone, Copy, Debug, PartialEq, Eq, Structural)]
pub enum FenError {
    /// The record does not have six fields, or the placement field does not
    /// have eight ranks.
    InvalidFenFormat,
}

/// The piece denoted by one placement byte: uppercase is White, lowercase is
/// Black, and any byte that is not a recognized piece letter denotes an
/// empty cell.
pub open spec fn piece_of_byte(b: u8) -> Option<Piece> {
    if b == 75 {  // 'K'
        Some(Piece { kind: PieceKind::King, color: PieceColor::White })
    } else if b == 81 {  // 'Q'
        Some(Piece { kind: PieceKind::Queen, color: PieceColor::White })
    } else if b == 66 {  // 'B'
        Some(Piece { kind: PieceKind::Bishop, color: PieceColor::White })
    } else if b == 78 {  // 'N'
        Some(Piece { kind: PieceKind::Knight, color: PieceColor::White })
    } else if b == 82 {  // 'R'
        Some(Piece { kind: PieceKind::Rook, color: PieceColor::White })
    } else if b == 80 {  // 'P'
        Some(Piece { kind: PieceKind::Pawn, color: PieceColor::White })
    } else if b == 107 {  // 'k'
        Some(Piece { kind: PieceKind::King, color: PieceColor::Black })
    } else if b == 113 {  // 'q'
        Some(Piece { kind: PieceKind::Queen, color: PieceColor::Black })
    } else if b == 98 {  // 'b'
        Some(Piece { kind: PieceKind::Bishop, color: PieceColor::Black })
    } else if b == 110 {  // 'n'
        Some(Piece { kind: PieceKind::Knight, color: PieceColor::Black })
    } else if b == 114 {  // 'r'
        Some(Piece { kind: PieceKind::Rook, color: PieceColor::Black })
    } else if b == 112 {  // 'p'
        Some(Piece { kind: PieceKind::Pawn, color: PieceColor::Black })
    } else {
        None
    }
}

/// Whether `b` is an ASCII decimal digit.
pub open spec fn is_digit_byte(b: u8) -> bool {
    48 <= b <= 57
}

/// The numeric value of an ASCII digit byte.
pub open spec fn digit_val(b: u8) -> nat
    recommends
        is_digit_byte(b),
{
    (b - 48) as nat
}

/// A run of `n` empty cells.
pub open spec fn empty_run(n: nat) -> Seq<Option<Piece>> {
    Seq::new(n, |i: int| None)
}

/// The cells denoted by a rank string, left to right, before padding or
/// truncation to eight columns: a digit contributes that many empty cells,
/// any other byte contributes the cell `piece_of_byte` gives it.
pub open spec fn rank_rec(s: Seq<u8>) -> Seq<Option<Piece>>
    decreases s.len(),
{
    if s.len() == 0 {
        Seq::empty()
    } else {
        let prefix = rank_rec(s.drop_last());
        if is_digit_byte(s.last()) {
            prefix + empty_run(digit_val(s.last()))
        } else {
            prefix.push(piece_of_byte(s.last()))
        }
    }
}

/// The eight cells of one rank: `rank_rec` truncated to the first eight
/// columns (cells beyond column 7 are never written) and padded with empty
/// cells (cells never reached stay empty).
pub open spec fn rank_cells(s: Seq<u8>) -> Seq<Option<Piece>> {
    if rank_rec(s).len() >= 8 {
        rank_rec(s).take(8)
    } else {
        rank_rec(s) + empty_run((8 - rank_rec(s).len()) as nat)
    }
}

/// `s` split on the separator byte `sep`; always at least one part, empty
/// parts kept (so `n` separators give `n + 1` parts).
pub open spec fn split_bytes(s: Seq<u8>, sep: u8) -> Seq<Seq<u8>>
    decreases s.len(),
{
    if s.len() == 0 {
        seq![Seq::<u8>::empty()]
    } else {
        let prev = split_bytes(s.drop_last(), sep);
        if s.last() == sep {
            prev.push(Seq::<u8>::empty())
        } else {
            prev.update(prev.len() - 1, prev.last().push(s.last()))
        }
    }
}

/// The space-separated fields of a FEN record.
pub open spec fn fen_fields(fen: Seq<u8>) -> Seq<Seq<u8>> {
    split_bytes(fen, 32)
}

/// The `/`-separated ranks of the placement field.
pub open spec fn fen_ranks(fen: Seq<u8>) -> Seq<Seq<u8>> {
    split_bytes(fen_fields(fen)[0], 47)
}

/// A FEN record is accepted when it has six fields and eight ranks.
pub open spec fn fen_ok(fen: Seq<u8>) -> bool {
    fen_fields(fen).len() == 6 && fen_ranks(fen).len() == 8
}

/// The board denoted by an accepted FEN record: FEN ranks run from rank 8
/// down to rank 1, so internal row `r` comes from rank string `7 - r`.
pub open spec fn board_of_fen(fen: Seq<u8>) -> Seq<Option<Piece>> {
    Seq::new(64, |i: int| rank_cells(fen_ranks(fen)[7 - i / 8])[i % 8])
}

/// The piece denoted by one placement byte.
fn piece_from_byte(b: u8) -> (r: Option<Piece>)
    ensures
        r == piece_of_byte(b),
{
    if b == 75 {
        Some(Piece::new(PieceKind::King, PieceColor::White))
    } else if b == 81 {
        Some(Piece::new(PieceKind::Queen, PieceColor::White))
    } else if b == 66 {
        Some(Piece::new(PieceKind::Bishop, PieceColor::White))
    } else if b == 78 {
        Some(Piece::new(PieceKind::Knight, PieceColor::White))
    } else if b == 82 {
        Some(Piece::new(PieceKind::Rook, PieceColor::White))
    } else if b == 80 {
        Some(Piece::new(PieceKind::Pawn, PieceColor::White))
    } else if b == 107 {
        Some(Piece::new(PieceKind::King, PieceColor::Black))
    } else if b == 113 {
        Some(Piece::new(PieceKind::Queen, PieceColor::Black))
    } else if b == 98 {
        Some(Piece::new(PieceKind::Bishop, PieceColor::Black))
    } else if b == 110 {
        Some(Piece::new(PieceKind::Knight, PieceColor::Black))
    } else if b == 114 {
        Some(Piece::new(PieceKind::Rook, PieceColor::Black))
    } else if b == 112 {
        Some(Piece::new(PieceKind::Pawn, PieceColor::Black))
    } else {
        None
    }
}

/// Split a byte slice on a separator byte, keeping empty parts.
fn split_on(s: &[u8], sep: u8) -> (r: Vec<Vec<u8>>)
    ensures
        r.deep_view() == split_bytes(s@, sep),
{
    let mut parts: Vec<Vec<u8>> = Vec::new();
    let mut cur: Vec<u8> = Vec::new();
    let mut i: usize = 0;
    proof {
        assert(s@.take(0) =~= Seq::<u8>::empty());
        assert(parts.deep_view().push(cur@) =~~= split_bytes(s@.take(0), sep));
    }
    while i < s.len()
        invariant
            i <= s@.len(),
            parts.deep_view().push(cur@) =~~= split_bytes(s@.take(i as int), sep),
        decreases s@.len() - i,
    {
        let ghost prev = split_bytes(s@.take(i as int), sep);
        let ghost parts0 = parts.deep_view();
        let ghost cur0 = cur@;
        let b = s[i];
        proof {
            Seq::lemma_take_succ_push(s@, i as int);
            assert(s@.take(i + 1).drop_last() =~= s@.take(i as int));
            assert(split_bytes(s@.take(i + 1), sep) == if b == sep {
                split_bytes(s@.take(i as int), sep).push(Seq::<u8>::empty())
            } else {
                split_bytes(s@.take(i as int), sep).update(
                    split_bytes(s@.take(i as int), sep).len() - 1,
                    split_bytes(s@.take(i as int), sep).last().push(b),
                )
            });
        }
        if b == sep {
            parts.push(cur);
            cur = Vec::new();
            proof {
                assert(parts.deep_view() =~~= parts0.push(cur0));
                assert(parts.deep_view().push(cur@) =~~= prev.push(Seq::<u8>::empty()));
            }
        } else {
            cur.push(b);
            proof {
                assert(prev.last() == cur0);
                assert(prev.update(prev.len() - 1, cur0.push(b)) =~~= parts0.push(cur0.push(b)));
                assert(parts.deep_view().push(cur@) =~~= parts0.push(cur0.push(b)));
            }
        }
        i = i + 1;
    }
    proof {
        assert(s@.take(s@.len() as int) =~= s@);
    }
    let ghost parts0 = parts.deep_view();
    let ghost cur0 = cur@;
    parts.push(cur);
    proof {
        assert(parts.deep_view() =~~= parts0.push(cur0));
        assert(parts.deep_view() =~~= split_bytes(s@, sep));
    }
    parts
}

/// Write the cells denoted by one rank string into row `row` of `board`,
/// whose cells in that row must still be empty.
fn parse_rank_into(board: &mut Board, row: usize, s: &[u8])
    requires
        old(board).wf(),
        row < 8,
        forall|k: int|
            row as int * 8 <= k < row as int * 8 + 8 ==> old(board)@[k] is None,
    ensures
        final(board).wf(),
        forall|c: int|
            0 <= c < 8 ==> final(board)@[row as int * 8 + c] == #[trigger] rank_cells(s@)[c],
        forall|k: int|
            0 <= k < 64 && !(row as int * 8 <= k < row as int * 8 + 8) ==> final(board)@[k]
                == old(board)@[k],
{
    let mut col: usize = 0;
    let mut i: usize = 0;
    while i < s.len()
        invariant
            board.wf(),
            row < 8,
            i <= s@.len(),
            col <= 8,
            col as int == if rank_rec(s@.take(i as int)).len() >= 8 {
                8int
            } else {
                rank_rec(s@.take(i as int)).len() as int
            },
            forall|c: int|
                0 <= c < col ==> board@[row as int * 8 + c] == #[trigger] rank_rec(
                    s@.take(i as int),
                )[c],
            forall|k: int|
                row as int * 8 + col <= k < row as int * 8 + 8 ==> board@[k] is None,
            forall|k: int|
                0 <= k < 64 && !(row as int * 8 <= k < row as int * 8 + 8) ==> board@[k] == old(
                    board,
                )@[k],
        decreases s@.len() - i,
    {
        let b = s[i];
        let ghost pre = rank_rec(s@.take(i as int));
        proof {
            Seq::lemma_take_succ_push(s@, i as int);
            assert(s@.take(i + 1).drop_last() =~= s@.take(i as int));
        }
        if 48 <= b && b <= 57 {
            let d = (b - 48) as usize;
            proof {
                assert(rank_rec(s@.take(i + 1)) == pre + empty_run(digit_val(b)));
                assert(forall|c: int|
                    pre.len() <= c < pre.len() + digit_val(b) ==> (pre + empty_run(
                        digit_val(b),
                    ))[c] is None);
            }
            if col + d >= 8 {
                col = 8;
            } else {
                col = col + d;
            }
        } else {
            let p = piece_from_byte(b);
            proof {
                assert(rank_rec(s@.take(i + 1)) == pre.push(piece_of_byte(b)));
            }
            if col < 8 {
                if let Some(pc) = p {
                    board.set(row * 8 + col, Some(pc));
                }
                col = col + 1;
            }
        }
        i = i + 1;
    }
    proof {
        assert(s@.take(s@.len() as int) =~= s@);
        assert forall|c: int| 0 <= c < 8 implies board@[row as int * 8 + c] == rank_cells(s@)[c] by {
            if c < col {
                assert(board@[row as int * 8 + c] == rank_rec(s@)[c]);
            } else {
                assert(board@[row as int * 8 + c] is None);
            }
        }
    }
}

/// Parse a FEN record, given as bytes, into a board.
///
/// Returns `Ok` exactly when the record has six space-separated fields and
/// the first field has eight `/`-separated ranks; the board is then
/// `board_of_fen` of the input.
pub fn parse_fen_bytes(fen: &[u8]) -> (r: Result<Board, FenError>)
    ensures
        r is Ok <==> fen_ok(fen@),
        r is Ok ==> (r->Ok_0).wf() && (r->Ok_0)@ == board_of_fen(fen@),
        r is Err ==> r->Err_0 == FenError::InvalidFenFormat,
{
    let fields = split_on(fen, 32);
    if fields.len() != 6 {
        return Err(FenError::InvalidFenFormat);
    }
    let field0: &Vec<u8> = &fields[0];
    proof {
        assert(field0.deep_view() == fen_fields(fen@)[0]);
        assert(field0@ =~= field0.deep_view());
    }
    let ranks = split_on(field0.as_slice(), 47);
    if ranks.len() != 8 {
        return Err(FenError::InvalidFenFormat);
    }
    let mut board = Board::empty();
    let mut r: usize = 0;
    while r < 8
        invariant
            board.wf(),
            ranks.deep_view() == fen_ranks(fen@),
            ranks@.len() == 8,
            r <= 8,
            forall|rr: int, c: int|
                0 <= rr < r && 0 <= c < 8 ==> board@[(7 - rr) * 8 + c] == #[trigger] rank_cells(
                    #[trigger] fen_ranks(fen@)[rr],
                )[c],
            forall|k: int| 0 <= k < (8 - r as int) * 8 ==> board@[k] is None,
        decreases 8 - r,
    {
        let rank: &Vec<u8> = &ranks[r];
        proof {
            assert(rank.deep_view() == fen_ranks(fen@)[r as int]);
            assert(rank@ =~= rank.deep_view());
        }
        parse_rank_into(&mut board, 7 - r, rank.as_slice());
        r = r + 1;
    }
    proof {
        assert forall|k: int| 0 <= k < 64 implies board@[k] == board_of_fen(fen@)[k] by {
            vstd::arithmetic::div_mod::lemma_fundamental_div_mod(k, 8);
            let rr = 7 - k / 8;
            let c = k % 8;
            assert(0 <= rr < 8 && 0 <= c < 8);
            assert(board@[(7 - rr) * 8 + c] == rank_cells(fen_ranks(fen@)[rr])[c]);
        }
        assert(board@ =~= board_of_fen(fen@));
    }
    Ok(board)
}

/// Parse a FEN record into a board; the string is read byte by byte.
pub fn load_position_from_fen(fen: &str) -> (r: Result<Board, FenError>)
    ensures
        r is Ok <==> fen_ok(fen.spec_bytes()),
        r is Ok ==> (r->Ok_0).wf() && (r->Ok_0)@ == board_of_fen(fen.spec_bytes()),
        r is Err ==> r->Err_0 == FenError::InvalidFenFormat,
{
    parse_fen_bytes(fen.as_bytes())
}

} // verus!
