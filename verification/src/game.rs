//! The executable board and the operations on it.

use vstd::prelude::*;
use crate::position::{back_rank, Position};

verus! {

/// The two sides. Red moves first and starts at the bottom of the board.
#[derive(Clone, Copy, PartialEq, Eq, Debug, Structural)]
pub enum Color {
    Red,
    Black,
}

impl Color {
    /// The other side, for use in contracts.
    pub open spec fn spec_opposite(&self) -> Color {
        match self {
            Color::Red => Color::Black,
            Color::Black => Color::Red,
        }
    }

    /// The other side.
    #[verifier::when_used_as_spec(spec_opposite)]
    pub fn opposite(&self) -> (other: Color)
        ensures
            other == self.spec_opposite(),
            other != *self,
            other.spec_opposite() == *self,
    {
        match self {
            Color::Red => Color::Black,
            Color::Black => Color::Red,
        }
    }
}

/// The seven kinds of piece.
#[derive(Clone, Copy, PartialEq, Eq, Debug, Structural)]
pub enum PieceType {
    General,
    Advisor,
    Elephant,
    Horse,
    Chariot,
    Cannon,
    Soldier,
}

/// A piece: its side and its kind.
#[derive(Clone, Copy, PartialEq, Eq, Debug, Structural)]
pub struct Piece {
    pub color: Color,
    pub piece_type: PieceType,
}

/// A square, by column `x` and row `y`. The board has columns 0 to 8 and
/// rows 0 to 9; row 0 is Black's back rank and row 9 is Red's.
#[derive(Clone, Copy, PartialEq, Eq, Debug, Structural)]
pub struct Pos {
    pub x: usize,
    pub y: usize,
}

impl Pos {
    /// The square in column `x` of row `y`. Any pair of numbers is accepted;
    /// one that names no square of the board is a square off the board.
    pub fn new(x: usize, y: usize) -> (pos: Pos)
        ensures
            pos.x == x,
            pos.y == y,
    {
        Pos { x, y }
    }

    /// Whether the square lies on the 9 by 10 board.
    pub open spec fn on_board(self) -> bool {
        self.x < 9 && self.y < 10
    }
}

/// Whether the game is still going, or who has won it.
#[derive(Clone, Copy, PartialEq, Eq, Debug, Structural)]
pub enum GameState {
    Playing,
    Won(Color),
}

/// The board of a game in progress: ten rows of nine squares, indexed
/// `grid[y][x]`, the side to move, the square that the player has picked, and
/// the state of the game.
pub struct Board {
    pub grid: [[Option<Piece>; 9]; 10],
    pub turn: Color,
    pub selected: Option<Pos>,
    pub state: GameState,
}

impl View for Board {
    type V = Position;

    open spec fn view(&self) -> Position {
        Position {
            pieces: Map::new(
                |p: Pos| p.on_board() && self.grid[p.y as int][p.x as int] is Some,
                |p: Pos| self.grid[p.y as int][p.x as int]->0,
            ),
            turn: self.turn,
            selected: self.selected,
            state: self.state,
        }
    }
}

/// A square with a piece of the given side and kind on it.
fn occupied_by(color: Color, piece_type: PieceType) -> (square: Option<Piece>)
    ensures
        square == Some(Piece { color, piece_type }),
{
    Some(Piece { color, piece_type })
}

/// The back rank of one side at the start of a game.
fn back_rank_row(color: Color) -> (row: [Option<Piece>; 9])
    ensures
        forall|x: int|
            0 <= x < 9 ==> row[x] == Some(Piece { color, piece_type: back_rank(x as usize) }),
{
    [
        occupied_by(color, PieceType::Chariot),
        occupied_by(color, PieceType::Horse),
        occupied_by(color, PieceType::Elephant),
        occupied_by(color, PieceType::Advisor),
        occupied_by(color, PieceType::General),
        occupied_by(color, PieceType::Advisor),
        occupied_by(color, PieceType::Elephant),
        occupied_by(color, PieceType::Horse),
        occupied_by(color, PieceType::Chariot),
    ]
}

/// The row of one side's two cannons at the start of a game.
fn cannon_row(color: Color) -> (row: [Option<Piece>; 9])
    ensures
        forall|x: int|
            0 <= x < 9 ==> row[x] == if x == 1 || x == 7 {
                Some(Piece { color, piece_type: PieceType::Cannon })
            } else {
                None
            },
{
    let cannon = occupied_by(color, PieceType::Cannon);
    [None, cannon, None, None, None, None, None, cannon, None]
}

/// The row of one side's five soldiers at the start of a game.
fn soldier_row(color: Color) -> (row: [Option<Piece>; 9])
    ensures
        forall|x: int|
            0 <= x < 9 ==> row[x] == if x % 2 == 0 {
                Some(Piece { color, piece_type: PieceType::Soldier })
            } else {
                None
            },
{
    let soldier = occupied_by(color, PieceType::Soldier);
    [soldier, None, soldier, None, soldier, None, soldier, None, soldier]
}

impl Board {
    /// A board set up for a new game: the standard layout, Red to move,
    /// nothing selected.
    pub fn new() -> (board: Board)
        ensures
            board@ == Position::initial(),
    {
        let empty: [Option<Piece>; 9] = [None; 9];
        let grid = [
            back_rank_row(Color::Black),
            empty,
            cannon_row(Color::Black),
            soldier_row(Color::Black),
            empty,
            empty,
            soldier_row(Color::Red),
            cannon_row(Color::Red),
            empty,
            back_rank_row(Color::Red),
        ];
        let board = Board { grid, turn: Color::Red, selected: None, state: GameState::Playing };
        assert(board@.pieces =~= Position::initial().pieces);
        board
    }

    /// The piece on `pos`. A square off the board holds none.
    pub fn get_piece(&self, pos: Pos) -> (piece: Option<Piece>)
        ensures
            piece == self@.piece_at(pos),
            !pos.on_board() ==> piece is None,
    {
        if pos.x < 9 && pos.y < 10 {
            self.grid[pos.y][pos.x]
        } else {
            None
        }
    }

    /// Carries out the move from `from` to `to` if the game is going on, the
    /// piece on `from` belongs to the side to move, and the move is legal; it
    /// then returns `true`. Otherwise the board stays as it is and the result
    /// is `false`.
    ///
    /// The piece replaces whatever stood on `to`. Capturing a general wins
    /// the game, and the winner stays the side to move; after any other move
    /// the turn passes to the other side.
    pub fn move_piece(&mut self, from: Pos, to: Pos) -> (moved: bool)
        ensures
            moved == old(self)@.accepts(from, to),
            final(self)@ == old(self)@.after_move(from, to),
            !moved ==> *final(self) == *old(self),
    {
        if self.state != GameState::Playing {
            return false;
        }
        if let Some(piece) = self.get_piece(from) {
            if piece.color != self.turn {
                return false;
            }
            if self.is_valid_move(from, to) {
                if let Some(target) = self.get_piece(to) {
                    if target.piece_type == PieceType::General {
                        self.state = GameState::Won(self.turn);
                    }
                }
                self.grid[to.y][to.x] = self.grid[from.y][from.x];
                self.grid[from.y][from.x] = None;

                if self.state == GameState::Playing {
                    self.turn = self.turn.opposite();
                }
                assert(self@.pieces =~= old(self)@.after_move(from, to).pieces);
                return true;
            }
        }
        false
    }

    /// Handles the player picking the square `pos`. A square off the board
    /// is ignored. With a square selected, the move from it to `pos` is
    /// tried, and made if it is accepted; nothing is selected afterwards.
    /// With no square selected, or when the move is refused, `pos` becomes
    /// the selected square if a piece of the side to move stands on it, and
    /// nothing is selected if none does.
    pub fn click(&mut self, pos: Pos)
        ensures
            final(self)@ == old(self)@.after_click(pos),
    {
        if pos.x >= 9 || pos.y >= 10 {
            return;
        }
        if let Some(picked) = self.selected {
            if self.move_piece(picked, pos) {
                self.selected = None;
                return;
            }
        }
        self.selected = match self.get_piece(pos) {
            Some(piece) => if piece.color == self.turn {
                Some(pos)
            } else {
                None
            },
            None => None,
        };
    }

    /// Whether the piece on `from` may go to `to` under the rule of its kind.
    /// The board is only read. Whose turn it is and whether the game is over
    /// play no part.
    pub fn is_valid_move(&self, from: Pos, to: Pos) -> (ok: bool)
        ensures
            ok == self@.legal(from, to),
    {
        if from == to {
            return false;
        }
        if to.x >= 9 || to.y >= 10 {
            return false;
        }
        let piece = match self.get_piece(from) {
            Some(p) => p,
            None => return false,
        };

        // A piece never captures one of its own side.
        if let Some(target) = self.get_piece(to) {
            if target.color == piece.color {
                return false;
            }
        }
        let dx: usize = if from.x <= to.x { to.x - from.x } else { from.x - to.x };
        let dy: usize = if from.y <= to.y { to.y - from.y } else { from.y - to.y };

        match piece.piece_type {
            PieceType::General => {
                // One step along a line, inside the palace.
                if dx + dy != 1 {
                    return false;
                }
                if to.x < 3 || to.x > 5 {
                    return false;
                }
                match piece.color {
                    Color::Red => to.y >= 7,
                    Color::Black => to.y <= 2,
                }
            },
            PieceType::Advisor => {
                // One step diagonally, inside the palace.
                if dx != 1 || dy != 1 {
                    return false;
                }
                if to.x < 3 || to.x > 5 {
                    return false;
                }
                match piece.color {
                    Color::Red => to.y >= 7,
                    Color::Black => to.y <= 2,
                }
            },
            PieceType::Elephant => {
                // Two steps diagonally, never across the river, and the
                // square in the middle must be empty.
                if dx != 2 || dy != 2 {
                    return false;
                }
                let stays: bool = match piece.color {
                    Color::Red => to.y >= 5,
                    Color::Black => to.y <= 4,
                };
                if !stays {
                    return false;
                }
                let eye_x: usize = (from.x + to.x) / 2;
                let eye_y: usize = (from.y + to.y) / 2;
                self.grid[eye_y][eye_x].is_none()
            },
            PieceType::Horse => {
                // One step along a line, then one diagonally; the square of
                // the first step must be empty.
                if !((dx == 1 && dy == 2) || (dx == 2 && dy == 1)) {
                    return false;
                }
                let leg_x: usize = if dx == 2 { (from.x + to.x) / 2 } else { from.x };
                let leg_y: usize = if dy == 2 { (from.y + to.y) / 2 } else { from.y };
                self.grid[leg_y][leg_x].is_none()
            },
            PieceType::Chariot => {
                // Any distance along a line, over empty squares only.
                if dx != 0 && dy != 0 {
                    return false;
                }
                self.count_obstacles(from, to) == 0
            },
            PieceType::Cannon => {
                // Moves as the chariot does; captures by jumping over
                // exactly one piece.
                if dx != 0 && dy != 0 {
                    return false;
                }
                let obstacles: i32 = self.count_obstacles(from, to);
                if self.get_piece(to).is_some() {
                    obstacles == 1
                } else {
                    obstacles == 0
                }
            },
            PieceType::Soldier => {
                // One step, never backwards; sideways only once across the
                // river.
                if dx + dy != 1 {
                    return false;
                }
                match piece.color {
                    Color::Red => to.y <= from.y && !(from.y >= 5 && dx != 0),
                    Color::Black => to.y >= from.y && !(from.y <= 4 && dx != 0),
                }
            },
        }
    }

    /// Counts the pieces strictly between two squares of one row or one
    /// column.
    fn count_obstacles(&self, from: Pos, to: Pos) -> (count: i32)
        requires
            from.on_board(),
            to.on_board(),
            from.x == to.x || from.y == to.y,
        ensures
            count == self@.obstacles(from, to),
    {
        let mut count: i32 = 0;
        if from.x == to.x {
            let min_y: usize = if from.y < to.y { from.y } else { to.y };
            let max_y: usize = if from.y < to.y { to.y } else { from.y };
            let ghost start = Pos { x: from.x, y: min_y };
            let mut y: usize = min_y + 1;
            proof {
                self@.lemma_no_room_no_obstacles(start, Pos { x: from.x, y });
                self@.lemma_no_room_no_obstacles(from, from);
            }
            while y < max_y
                invariant
                    from.x < 9,
                    max_y < 10,
                    min_y < y,
                    y <= max_y || (min_y == max_y && count == 0),
                    start == (Pos { x: from.x, y: min_y }),
                    self@.obstacles_between(start, Pos { x: from.x, y }).finite(),
                    count == self@.obstacles(start, Pos { x: from.x, y }),
                    count < y - min_y,
                decreases max_y - y,
            {
                proof {
                    self@.lemma_obstacles_extend_column(from.x, min_y, y);
                }
                if self.grid[y][from.x].is_some() {
                    count += 1;
                }
                y += 1;
            }
            proof {
                self@.lemma_obstacles_symmetric(from, to);
            }
        } else {
            let min_x: usize = if from.x < to.x { from.x } else { to.x };
            let max_x: usize = if from.x < to.x { to.x } else { from.x };
            let ghost start = Pos { x: min_x, y: from.y };
            let mut x: usize = min_x + 1;
            proof {
                self@.lemma_no_room_no_obstacles(start, Pos { x, y: from.y });
            }
            while x < max_x
                invariant
                    from.y < 10,
                    max_x < 9,
                    min_x < x <= max_x,
                    start == (Pos { x: min_x, y: from.y }),
                    self@.obstacles_between(start, Pos { x, y: from.y }).finite(),
                    count == self@.obstacles(start, Pos { x, y: from.y }),
                    count < x - min_x,
                decreases max_x - x,
            {
                proof {
                    self@.lemma_obstacles_extend_row(from.y, min_x, x);
                }
                if self.grid[from.y][x].is_some() {
                    count += 1;
                }
                x += 1;
            }
            proof {
                self@.lemma_obstacles_symmetric(from, to);
            }
        }
        count
    }
}

} // verus!
