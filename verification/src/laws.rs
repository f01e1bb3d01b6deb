//! What holds of every position and of every request to move, proved from
//! the definitions in [`crate::position`].

use vstd::prelude::*;
use vstd::set_lib::{lemma_int_range, lemma_len_subset, lemma_map_size, set_int_range};
use crate::game::{Board, Color, GameState, PieceType, Pos};
use crate::position::{distance, horse_leg, midpoint, Position};

verus! {

/// A board stands for a well-formed position: every piece that its view
/// holds is on a square of the board, so a square off the board is empty.
pub proof fn lemma_board_view_wf(board: Board)
    ensures
        board@.wf(),
        forall|pos: Pos| !pos.on_board() ==> board@.piece_at(pos) is None,
{
}

/// Two boards that stand for the same position are the same board: the view
/// loses nothing.
pub proof fn lemma_board_view_injective(a: Board, b: Board)
    requires
        a@ == b@,
    ensures
        a == b,
{
    assert forall|y: int| 0 <= y < 10 implies a.grid[y] == b.grid[y] by {
        assert forall|x: int| 0 <= x < 9 implies a.grid[y][x] == b.grid[y][x] by {
            let p = Pos { x: x as usize, y: y as usize };
            assert(a@.piece_at(p) == a.grid[p.y as int][p.x as int]);
            assert(b@.piece_at(p) == b.grid[p.y as int][p.x as int]);
        }
        assert(a.grid[y] =~= b.grid[y]);
    }
    assert(a.grid =~= b.grid);
}

/// The squares of the board.
pub open spec fn squares() -> Set<Pos> {
    Set::new(|p: Pos| p.on_board())
}

/// The board has ninety squares.
pub proof fn lemma_ninety_squares()
    ensures
        squares().finite(),
        squares().len() == 90,
{
    let numbers = set_int_range(0, 90);
    let square_of = |i: int| Pos { x: (i % 9) as usize, y: (i / 9) as usize };
    lemma_int_range(0, 90);
    assert forall|p: Pos| squares().contains(p) implies numbers.map(square_of).contains(p) by {
        let i = p.y * 9 + p.x;
        assert(numbers.contains(i) && square_of(i) == p);
    }
    assert(numbers.map(square_of) =~= squares());
    lemma_map_size(numbers, squares(), square_of);
}

/// A board holds finitely many pieces, at most one to a square.
pub proof fn lemma_board_holds_at_most_ninety(board: Board)
    ensures
        board@.pieces.dom().finite(),
        board@.pieces.dom().len() <= 90,
{
    lemma_ninety_squares();
    lemma_len_subset(board@.pieces.dom(), squares());
}

/// An accepted move that captures leaves one piece fewer on the board; any
/// other accepted move leaves as many as there were.
pub proof fn lemma_move_removes_at_most_one_piece(p: Position, from: Pos, to: Pos)
    requires
        p.pieces.dom().finite(),
        p.accepts(from, to),
    ensures
        p.after_move(from, to).pieces.dom().finite(),
        p.after_move(from, to).pieces.dom().len() == if p.pieces.contains_key(to) {
            p.pieces.dom().len() - 1
        } else {
            p.pieces.dom().len() as int
        },
{
    assert(p.after_move(from, to).pieces.dom() =~= p.pieces.dom().remove(from).insert(to));
}

/// A request to move is refused, and changes nothing, whenever the game is
/// won, no piece stands on `from`, the piece there is not of the side to
/// move, or the move breaks the rule of its kind.
pub proof fn lemma_refused_move_changes_nothing(p: Position, from: Pos, to: Pos)
    requires
        p.state is Won || !p.pieces.contains_key(from) || p.pieces[from].color != p.turn
            || !p.moves_as(p.pieces[from], from, to) || !p.legal(from, to),
    ensures
        !p.accepts(from, to),
        p.after_move(from, to) == p,
{
}

/// Once a side has won, the position never changes again.
pub proof fn lemma_won_is_final(p: Position, from: Pos, to: Pos)
    requires
        p.state is Won,
    ensures
        p.after_move(from, to) == p,
{
}

/// An accepted move takes exactly one piece from `from` to `to`: afterwards
/// `from` is empty, `to` holds the piece that stood on `from` in place of
/// whatever stood there, and every other square is as it was. The selection
/// is untouched.
pub proof fn lemma_accepted_move_relocates_one_piece(p: Position, from: Pos, to: Pos)
    requires
        p.accepts(from, to),
    ensures
        p.after_move(from, to).piece_at(from) is None,
        p.after_move(from, to).piece_at(to) == p.piece_at(from),
        forall|s: Pos| s != from && s != to ==> p.after_move(from, to).piece_at(s) == p.piece_at(s),
        p.after_move(from, to).selected == p.selected,
{
}

/// After an accepted move that captures no general the game goes on and the
/// turn has passed to the other side.
pub proof fn lemma_plain_move_passes_turn(p: Position, from: Pos, to: Pos)
    requires
        p.accepts(from, to),
        !p.general_on(to),
    ensures
        p.after_move(from, to).state == GameState::Playing,
        p.after_move(from, to).turn == p.turn.spec_opposite(),
        p.after_move(from, to).turn != p.turn,
{
}

/// Capturing a general wins the game for the side that moved, and that side
/// stays the side to move.
pub proof fn lemma_capturing_general_wins(p: Position, from: Pos, to: Pos)
    requires
        p.accepts(from, to),
        p.general_on(to),
    ensures
        p.after_move(from, to).state == GameState::Won(p.pieces[from].color),
        p.after_move(from, to).turn == p.pieces[from].color,
        p.after_move(from, to).turn == p.turn,
        p.pieces[to].color != p.pieces[from].color,
{
}

/// The game is won by capturing a general and in no other way.
pub proof fn lemma_won_only_by_capture(p: Position, from: Pos, to: Pos)
    requires
        p.state == GameState::Playing,
    ensures
        p.after_move(from, to).state is Won <==> p.accepts(from, to) && p.general_on(to),
{
}

/// A move keeps every piece on the board.
pub proof fn lemma_move_keeps_wf(p: Position, from: Pos, to: Pos)
    requires
        p.wf(),
    ensures
        p.after_move(from, to).wf(),
{
}

/// A move creates no piece: whatever stands on a square afterwards stood on
/// that square before, or is the piece that moved.
pub proof fn lemma_move_creates_no_piece(p: Position, from: Pos, to: Pos, s: Pos)
    requires
        p.after_move(from, to).pieces.contains_key(s),
    ensures
        p.pieces.contains_key(s) && p.pieces[s] == p.after_move(from, to).pieces[s] || (s == to
            && p.pieces.contains_key(from) && p.pieces[from] == p.after_move(
            from,
            to,
        ).pieces[s]),
{
}

/// Whether at most one general of `color` stands on the board.
pub open spec fn at_most_one_general(p: Position, color: Color) -> bool {
    forall|s: Pos, t: Pos|
        #![trigger p.pieces[s], p.pieces[t]]
        p.pieces.contains_key(s) && p.pieces.contains_key(t) && p.pieces[s].color == color
            && p.pieces[t].color == color && p.pieces[s].piece_type == PieceType::General
            && p.pieces[t].piece_type == PieceType::General ==> s == t
}

/// The starting position is well formed, and each side has exactly one
/// general in it, in the middle of its back rank.
pub proof fn lemma_initial_position(color: Color)
    ensures
        Position::initial().wf(),
        at_most_one_general(Position::initial(), color),
        Position::initial().general_on(Pos { x: 4, y: 0 }),
        Position::initial().general_on(Pos { x: 4, y: 9 }),
        Position::initial().pieces[Pos { x: 4, y: 0 }].color == Color::Black,
        Position::initial().pieces[Pos { x: 4, y: 9 }].color == Color::Red,
{
}

/// A side that has at most one general has at most one after any move.
pub proof fn lemma_move_keeps_generals_unique(p: Position, from: Pos, to: Pos, color: Color)
    requires
        at_most_one_general(p, color),
    ensures
        at_most_one_general(p.after_move(from, to), color),
{
    let q = p.after_move(from, to);
    assert forall|s: Pos, t: Pos|
        #![trigger q.pieces[s], q.pieces[t]]
        q.pieces.contains_key(s) && q.pieces.contains_key(t) && q.pieces[s].color == color
            && q.pieces[t].color == color && q.pieces[s].piece_type == PieceType::General
            && q.pieces[t].piece_type == PieceType::General implies s == t by {
        if p.accepts(from, to) {
            let src = |u: Pos| if u == to { from } else { u };
            assert(p.pieces.contains_key(src(s)) && p.pieces[src(s)] == q.pieces[s]);
            assert(p.pieces.contains_key(src(t)) && p.pieces[src(t)] == q.pieces[t]);
            assert(src(s) == src(t));
        }
    }
}

/// The eye of an elephant's move is the square that the elephant crosses:
/// one diagonal step from where it starts and one from where it lands, and on
/// the board whenever both of those are.
pub proof fn lemma_elephant_eye_is_crossed(from: Pos, to: Pos)
    requires
        distance(from.x, to.x) == 2,
        distance(from.y, to.y) == 2,
    ensures
        distance(from.x, midpoint(from, to).x) == 1,
        distance(from.y, midpoint(from, to).y) == 1,
        distance(midpoint(from, to).x, to.x) == 1,
        distance(midpoint(from, to).y, to.y) == 1,
        from.on_board() && to.on_board() ==> midpoint(from, to).on_board(),
{
}

/// The leg of a horse's move is its first step: next to the start along the
/// axis on which the horse goes two squares, one diagonal step short of the
/// destination, and on the board whenever start and destination are.
pub proof fn lemma_horse_leg_is_first_step(from: Pos, to: Pos)
    requires
        (distance(from.x, to.x) == 1 && distance(from.y, to.y) == 2) || (distance(from.x, to.x) == 2
            && distance(from.y, to.y) == 1),
    ensures
        distance(from.x, to.x) == 2 ==> horse_leg(from, to).y == from.y && distance(
            from.x,
            horse_leg(from, to).x,
        ) == 1,
        distance(from.y, to.y) == 2 ==> horse_leg(from, to).x == from.x && distance(
            from.y,
            horse_leg(from, to).y,
        ) == 1,
        distance(horse_leg(from, to).x, to.x) == 1,
        distance(horse_leg(from, to).y, to.y) == 1,
        from.on_board() && to.on_board() ==> horse_leg(from, to).on_board(),
{
}

/// A chariot may go exactly where a straight line leads over empty squares
/// only, whether or not a piece stands on the destination.
pub proof fn lemma_chariot_needs_clear_path(p: Position, from: Pos, to: Pos)
    requires
        p.pieces.contains_key(from),
        p.pieces[from].piece_type == PieceType::Chariot,
    ensures
        p.legal(from, to) ==> p.obstacles(from, to) == 0,
        p.legal(from, to) <==> {
            &&& from != to
            &&& to.on_board()
            &&& p.pieces.contains_key(to) ==> p.pieces[to].color != p.pieces[from].color
            &&& from.x == to.x || from.y == to.y
            &&& p.obstacles(from, to) == 0
        },
{
}

/// A cannon goes to an empty square over empty squares only, and captures
/// over exactly one piece.
pub proof fn lemma_cannon_needs_screen_to_capture(p: Position, from: Pos, to: Pos)
    requires
        p.pieces.contains_key(from),
        p.pieces[from].piece_type == PieceType::Cannon,
    ensures
        p.legal(from, to) && !p.pieces.contains_key(to) ==> p.obstacles(from, to) == 0,
        p.legal(from, to) && p.pieces.contains_key(to) ==> p.obstacles(from, to) == 1,
        p.legal(from, to) <==> {
            &&& from != to
            &&& to.on_board()
            &&& p.pieces.contains_key(to) ==> p.pieces[to].color != p.pieces[from].color
            &&& from.x == to.x || from.y == to.y
            &&& p.obstacles(from, to) == if p.pieces.contains_key(to) {
                1nat
            } else {
                0nat
            }
        },
{
}

/// The pieces between two squares are finitely many, and fewer than the
/// squares are apart.
pub proof fn lemma_obstacles_bounded(p: Position, a: Pos, b: Pos)
    ensures
        p.obstacles_between(a, b).finite(),
        a.x == b.x && a.y != b.y ==> p.obstacles(a, b) < distance(a.y, b.y),
        a.y == b.y && a.x != b.x ==> p.obstacles(a, b) < distance(a.x, b.x),
        a == b || (a.x != b.x && a.y != b.y) ==> p.obstacles(a, b) == 0,
{
    if a.x == b.x && a.y != b.y {
        let lo = if a.y < b.y { a.y } else { b.y };
        let hi = if a.y < b.y { b.y } else { a.y };
        lemma_column_bounded(p, a.x, lo, hi);
        p.lemma_obstacles_symmetric(a, b);
    } else if a.y == b.y && a.x != b.x {
        let lo = if a.x < b.x { a.x } else { b.x };
        let hi = if a.x < b.x { b.x } else { a.x };
        lemma_row_bounded(p, a.y, lo, hi);
        p.lemma_obstacles_symmetric(a, b);
    } else {
        p.lemma_no_room_no_obstacles(a, b);
    }
}

proof fn lemma_column_bounded(p: Position, x: usize, lo: usize, hi: usize)
    requires
        lo < hi,
    ensures
        p.obstacles_between(Pos { x, y: lo }, Pos { x, y: hi }).finite(),
        p.obstacles(Pos { x, y: lo }, Pos { x, y: hi }) < hi - lo,
    decreases hi - lo,
{
    if hi == lo + 1 {
        p.lemma_no_room_no_obstacles(Pos { x, y: lo }, Pos { x, y: hi });
    } else {
        lemma_column_bounded(p, x, lo, (hi - 1) as usize);
        p.lemma_obstacles_extend_column(x, lo, (hi - 1) as usize);
    }
}

proof fn lemma_row_bounded(p: Position, y: usize, lo: usize, hi: usize)
    requires
        lo < hi,
    ensures
        p.obstacles_between(Pos { x: lo, y }, Pos { x: hi, y }).finite(),
        p.obstacles(Pos { x: lo, y }, Pos { x: hi, y }) < hi - lo,
    decreases hi - lo,
{
    if hi == lo + 1 {
        p.lemma_no_room_no_obstacles(Pos { x: lo, y }, Pos { x: hi, y });
    } else {
        lemma_row_bounded(p, y, lo, (hi - 1) as usize);
        p.lemma_obstacles_extend_row(y, lo, (hi - 1) as usize);
    }
}

} // verus!
