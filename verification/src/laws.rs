//! What holds of the library as a whole: of the movement rules, of the
//! notation and of the text encoding.

use vstd::prelude::*;
use crate::codec::{
    cells_consistent, decode_outcome, decoded_grid, encode_cell, encode_grid, nth_cell, tags_known,
    text_cell,
};
use crate::error::DecodeError;
use crate::grid::{
    after_move, cell_at, grid_wf, initial_cell, initial_grid, legal_move, move_outcome, Grid,
};
use crate::notation::{coord_of, in_range, notation_of, upper_text};
use crate::piece::{Cell, GamePiece, Piece};
use crate::rules::deltas;

verus! {

/// The verdict on a move depends on nothing but the piece's kind, whether
/// it has moved, the distances covered along files and ranks, and whether
/// the destination is occupied: two moves that agree in these get the same
/// verdict, on whatever boards and between whatever cells they are made.
pub proof fn lemma_verdict_depends_on_step_alone(
    g1: Grid,
    from1: (usize, usize),
    to1: (usize, usize),
    g2: Grid,
    from2: (usize, usize),
    to2: (usize, usize),
    piece: GamePiece,
)
    requires
        deltas(from1, to1) == deltas(from2, to2),
        cell_at(g1, to1).occupied() == cell_at(g2, to2).occupied(),
    ensures
        legal_move(g1, from1, to1, piece) == legal_move(g2, from2, to2, piece),
{
}

/// A piece that is no pawn may make a move exactly if it may make the move
/// back. This holds in particular of rook, bishop and queen; it does not
/// hold of pawns, whose verdict depends on what stands on the destination.
pub proof fn lemma_verdict_symmetric(
    g: Grid,
    from: (usize, usize),
    to: (usize, usize),
    piece: GamePiece,
)
    requires
        piece.piece_type != Piece::Pawn,
    ensures
        legal_move(g, from, to, piece) == legal_move(g, to, from, piece),
{
}

/// The distances of a move do not depend on its direction.
pub proof fn lemma_deltas_symmetric(from: (usize, usize), to: (usize, usize))
    ensures
        deltas(from, to) == deltas(to, from),
{
}

/// No piece may stay where it is: a move from a cell to itself is illegal.
pub proof fn lemma_no_null_move(g: Grid, at: (usize, usize), piece: GamePiece)
    ensures
        !legal_move(g, at, at, piece),
{
}

/// The starting position is a well-formed grid.
pub proof fn lemma_initial_grid_wf()
    ensures
        grid_wf(initial_grid()),
{
    assert forall|x: int, y: int| 0 <= x < 8 && 0 <= y < 8 implies (#[trigger] initial_grid()[x][y]).wf() by {
        assert(initial_grid()[x][y] == initial_cell(x, y));
    }
}

/// A move that succeeds on a well-formed grid gives a well-formed grid, on
/// which the destination holds the piece that stood on the source, marked
/// as moved, the source is empty, and every other cell is as before.
pub proof fn lemma_move_keeps_grid_wf(g: Grid, from: (usize, usize), to: (usize, usize))
    requires
        grid_wf(g),
        in_range(from),
        in_range(to),
        move_outcome(g, from, to) is Ok,
    ensures
        from != to,
        grid_wf(move_outcome(g, from, to)->Ok_0),
        cell_at(move_outcome(g, from, to)->Ok_0, to) == cell_at(g, from).arrived(),
        cell_at(move_outcome(g, from, to)->Ok_0, from) == Cell::spec_empty(),
        forall|other: (usize, usize)|
            in_range(other) && other != from && other != to ==> cell_at(
                move_outcome(g, from, to)->Ok_0,
                other,
            ) == cell_at(g, other),
{
    let after = after_move(g, from, to);
    assert(cell_at(g, from).wf());
    assert forall|x: int, y: int| 0 <= x < 8 && 0 <= y < 8 implies (#[trigger] after[x][y]).wf() by {
        assert(g[x][y].wf());
    }
}

/// The grid that a sequence of moves leads to from `g`. A move that fails
/// changes nothing.
pub open spec fn played(g: Grid, moves: Seq<((usize, usize), (usize, usize))>) -> Grid
    decreases moves.len(),
{
    if moves.len() == 0 {
        g
    } else {
        let before = played(g, moves.drop_last());
        match move_outcome(before, moves.last().0, moves.last().1) {
            Ok(after) => after,
            Err(_) => before,
        }
    }
}

/// Whatever moves are played from a well-formed grid, the grid stays
/// well-formed.
pub proof fn lemma_played_grid_wf(g: Grid, moves: Seq<((usize, usize), (usize, usize))>)
    requires
        grid_wf(g),
        forall|i: int| 0 <= i < moves.len() ==> in_range(moves[i].0) && in_range(moves[i].1),
    ensures
        grid_wf(played(g, moves)),
    decreases moves.len(),
{
    if moves.len() > 0 {
        lemma_played_grid_wf(g, moves.drop_last());
        let before = played(g, moves.drop_last());
        if move_outcome(before, moves.last().0, moves.last().1) is Ok {
            lemma_move_keeps_grid_wf(before, moves.last().0, moves.last().1);
        }
    }
}

/// Decoding the encoding of a well-formed grid gives the grid back.
pub proof fn lemma_decode_inverts_encode(g: Grid)
    requires
        grid_wf(g),
    ensures
        decode_outcome(encode_grid(g)) == Ok::<Grid, DecodeError>(g),
{
    let text = encode_grid(g);
    assert forall|k: int| 0 <= k < 64 implies #[trigger] text_cell(text, k) == Some(
        nth_cell(g, k),
    ) by {
        assert(text[3 * k] == encode_cell(nth_cell(g, (3 * k) / 3))[(3 * k) % 3]);
        assert(text[3 * k + 1] == encode_cell(nth_cell(g, (3 * k + 1) / 3))[(3 * k + 1) % 3]);
        assert(text[3 * k + 2] == encode_cell(nth_cell(g, (3 * k + 2) / 3))[(3 * k + 2) % 3]);
    }
    assert(tags_known(text));
    assert forall|k: int| 0 <= k < 64 && (#[trigger] text_cell(text, k)) is Some implies text_cell(
        text,
        k,
    )->0.wf() by {
        assert(g[k / 8][k % 8].wf());
    }
    assert(cells_consistent(text));
    assert forall|x: int, y: int| 0 <= x < 8 && 0 <= y < 8 implies #[trigger] decoded_grid(
        text,
    )[x][y] == g[x][y] by {
        assert(text_cell(text, x * 8 + y) == Some(nth_cell(g, x * 8 + y)));
    }
    assert(decoded_grid(text) =~~= g);
}

/// Decoding the encoding gives the board back for the starting position
/// and for every position that moves lead to from it.
pub proof fn lemma_round_trip_of_reachable(moves: Seq<((usize, usize), (usize, usize))>)
    requires
        forall|i: int| 0 <= i < moves.len() ==> in_range(moves[i].0) && in_range(moves[i].1),
    ensures
        decode_outcome(encode_grid(initial_grid())) == Ok::<Grid, DecodeError>(initial_grid()),
        decode_outcome(encode_grid(played(initial_grid(), moves))) == Ok::<Grid, DecodeError>(
            played(initial_grid(), moves),
        ),
{
    lemma_initial_grid_wf();
    lemma_played_grid_wf(initial_grid(), moves);
    lemma_decode_inverts_encode(initial_grid());
    lemma_decode_inverts_encode(played(initial_grid(), moves));
}

/// A text that decodes is the encoding of the grid it decodes to: no two
/// texts stand for the same board.
pub proof fn lemma_encode_inverts_decode(text: Seq<char>)
    requires
        decode_outcome(text) is Ok,
    ensures
        grid_wf(decode_outcome(text)->Ok_0),
        encode_grid(decode_outcome(text)->Ok_0) == text,
{
    let g = decoded_grid(text);
    assert forall|x: int, y: int| 0 <= x < 8 && 0 <= y < 8 implies (#[trigger] g[x][y]).wf() by {
        assert(text_cell(text, x * 8 + y) is Some);
    }
    assert forall|i: int| 0 <= i < 192 implies #[trigger] encode_grid(g)[i] == text[i] by {
        let k = i / 3;
        assert(text_cell(text, k) is Some);
        assert(nth_cell(g, k) == text_cell(text, k)->0);
    }
    assert(encode_grid(g) =~= text);
}

/// Writing the coordinate that a notation stands for gives the notation
/// back, with its file letter in upper case.
pub proof fn lemma_notation_round_trip(text: Seq<char>)
    requires
        coord_of(text) is Ok,
    ensures
        in_range(coord_of(text)->Ok_0),
        notation_of(coord_of(text)->Ok_0) == upper_text(text),
{
    assert(notation_of(coord_of(text)->Ok_0) =~= upper_text(text));
}

/// Reading the notation of a coordinate on the grid gives the coordinate
/// back.
pub proof fn lemma_coord_round_trip(coord: (usize, usize))
    requires
        in_range(coord),
    ensures
        coord_of(notation_of(coord)) == Ok::<(usize, usize), crate::error::NotationError>(coord),
{
}

} // verus!
