//! The mathematical model of a game: which squares hold which piece, whose
//! turn it is, and the movement rules stated over that model.

use vstd::prelude::*;
use crate::game::{Color, GameState, Piece, PieceType, Pos};

verus! {

/// What a board stands for. `pieces` maps each occupied square to the piece
/// on it; a square outside its domain is empty.
pub struct Position {
    pub pieces: Map<Pos, Piece>,
    pub turn: Color,
    pub selected: Option<Pos>,
    pub state: GameState,
}

/// The distance between two coordinates on one axis.
pub open spec fn distance(a: usize, b: usize) -> int {
    if a <= b {
        b - a
    } else {
        a - b
    }
}

/// Whether `pos` lies in the palace of `color`: columns 3 to 5 of the three
/// rows nearest that side's back rank.
pub open spec fn in_palace(color: Color, pos: Pos) -> bool {
    &&& 3 <= pos.x <= 5
    &&& match color {
        Color::Red => 7 <= pos.y <= 9,
        Color::Black => pos.y <= 2,
    }
}

/// Whether `pos` lies on the side of the river where `color` starts.
pub open spec fn on_own_side(color: Color, pos: Pos) -> bool {
    match color {
        Color::Red => 5 <= pos.y <= 9,
        Color::Black => pos.y <= 4,
    }
}

/// The square halfway between two squares, each coordinate rounded down.
pub open spec fn midpoint(a: Pos, b: Pos) -> Pos {
    Pos { x: ((a.x + b.x) / 2) as usize, y: ((a.y + b.y) / 2) as usize }
}

/// The leg of a horse's move: the square next to `from` along the axis on
/// which the move is two steps long.
pub open spec fn horse_leg(from: Pos, to: Pos) -> Pos {
    Pos {
        x: if distance(from.x, to.x) == 2 {
            ((from.x + to.x) / 2) as usize
        } else {
            from.x
        },
        y: if distance(from.y, to.y) == 2 {
            ((from.y + to.y) / 2) as usize
        } else {
            from.y
        },
    }
}

/// Whether `p` lies strictly between `a` and `b` on a row or column that the
/// two share. No square lies between two squares that share neither.
pub open spec fn strictly_between(a: Pos, b: Pos, p: Pos) -> bool {
    ||| a.x == b.x && p.x == a.x && (a.y < p.y < b.y || b.y < p.y < a.y)
    ||| a.y == b.y && p.y == a.y && (a.x < p.x < b.x || b.x < p.x < a.x)
}

/// The kind of piece that starts in column `x` of a back rank.
pub open spec fn back_rank(x: usize) -> PieceType {
    if x == 0 || x == 8 {
        PieceType::Chariot
    } else if x == 1 || x == 7 {
        PieceType::Horse
    } else if x == 2 || x == 6 {
        PieceType::Elephant
    } else if x == 3 || x == 5 {
        PieceType::Advisor
    } else {
        PieceType::General
    }
}

/// The piece that stands on `pos` when a game starts, if any.
pub open spec fn starting_piece(pos: Pos) -> Option<Piece> {
    if pos.x >= 9 {
        None
    } else if pos.y == 0 {
        Some(Piece { color: Color::Black, piece_type: back_rank(pos.x) })
    } else if pos.y == 9 {
        Some(Piece { color: Color::Red, piece_type: back_rank(pos.x) })
    } else if pos.y == 2 && (pos.x == 1 || pos.x == 7) {
        Some(Piece { color: Color::Black, piece_type: PieceType::Cannon })
    } else if pos.y == 7 && (pos.x == 1 || pos.x == 7) {
        Some(Piece { color: Color::Red, piece_type: PieceType::Cannon })
    } else if pos.y == 3 && pos.x % 2 == 0 {
        Some(Piece { color: Color::Black, piece_type: PieceType::Soldier })
    } else if pos.y == 6 && pos.x % 2 == 0 {
        Some(Piece { color: Color::Red, piece_type: PieceType::Soldier })
    } else {
        None
    }
}

impl Position {
    /// Every piece stands on a square of the board.
    pub open spec fn wf(self) -> bool {
        forall|p: Pos| self.pieces.contains_key(p) ==> p.on_board()
    }

    /// The position at the start of a game: the standard layout, Red to
    /// move, nothing selected.
    pub open spec fn initial() -> Position {
        Position {
            pieces: Map::new(|p: Pos| starting_piece(p) is Some, |p: Pos| starting_piece(p)->0),
            turn: Color::Red,
            selected: None,
            state: GameState::Playing,
        }
    }

    /// The piece on `pos`, or `None` where the square is empty or off the
    /// board.
    pub open spec fn piece_at(self, pos: Pos) -> Option<Piece> {
        if self.pieces.contains_key(pos) {
            Some(self.pieces[pos])
        } else {
            None
        }
    }

    /// The occupied squares strictly between `from` and `to` on the row or
    /// column that they share.
    pub open spec fn obstacles_between(self, from: Pos, to: Pos) -> Set<Pos> {
        Set::new(|p: Pos| strictly_between(from, to, p) && self.pieces.contains_key(p))
    }

    /// How many pieces stand strictly between `from` and `to`.
    pub open spec fn obstacles(self, from: Pos, to: Pos) -> nat {
        self.obstacles_between(from, to).len()
    }

    /// Whether going from `from` to `to` has the shape that the movement rule
    /// of `piece` asks for, with the squares that the rule wants empty being
    /// empty. It says nothing of what stands on `from` or on `to`, but for the
    /// cannon, which needs a screen exactly when it captures.
    pub open spec fn moves_as(self, piece: Piece, from: Pos, to: Pos) -> bool {
        let dx = distance(from.x, to.x);
        let dy = distance(from.y, to.y);
        match piece.piece_type {
            PieceType::General => dx + dy == 1 && in_palace(piece.color, to),
            PieceType::Advisor => dx == 1 && dy == 1 && in_palace(piece.color, to),
            PieceType::Elephant => {
                &&& dx == 2 && dy == 2
                &&& on_own_side(piece.color, to)
                &&& !self.pieces.contains_key(midpoint(from, to))
            },
            PieceType::Horse => {
                &&& (dx == 1 && dy == 2) || (dx == 2 && dy == 1)
                &&& !self.pieces.contains_key(horse_leg(from, to))
            },
            PieceType::Chariot => (dx == 0 || dy == 0) && self.obstacles(from, to) == 0,
            PieceType::Cannon => {
                &&& dx == 0 || dy == 0
                &&& if self.pieces.contains_key(to) {
                    self.obstacles(from, to) == 1
                } else {
                    self.obstacles(from, to) == 0
                }
            },
            PieceType::Soldier => {
                &&& dx + dy == 1
                &&& match piece.color {
                    Color::Red => to.y <= from.y && (from.y >= 5 ==> dx == 0),
                    Color::Black => to.y >= from.y && (from.y <= 4 ==> dx == 0),
                }
            },
        }
    }

    /// Whether the piece on `from` may go to `to`: the two squares differ,
    /// `to` is on the board, a piece stands on `from`, no piece of its own
    /// side stands on `to`, and the move follows the rule of its kind.
    /// Whose turn it is plays no part.
    pub open spec fn legal(self, from: Pos, to: Pos) -> bool {
        &&& from != to
        &&& to.on_board()
        &&& self.pieces.contains_key(from)
        &&& !(self.pieces.contains_key(to) && self.pieces[to].color == self.pieces[from].color)
        &&& self.moves_as(self.pieces[from], from, to)
    }

    /// Whether a request to move from `from` to `to` is carried out: the game
    /// is going on, the piece on `from` belongs to the side to move, and the
    /// move is legal.
    pub open spec fn accepts(self, from: Pos, to: Pos) -> bool {
        &&& self.state == GameState::Playing
        &&& self.pieces.contains_key(from)
        &&& self.pieces[from].color == self.turn
        &&& self.legal(from, to)
    }

    /// Whether a general stands on `to`.
    pub open spec fn general_on(self, to: Pos) -> bool {
        self.pieces.contains_key(to) && self.pieces[to].piece_type == PieceType::General
    }

    /// The position after a request to move from `from` to `to`. A request
    /// that is not accepted leaves the position as it is. An accepted one
    /// takes the piece from `from` to `to`, where it replaces what stood
    /// there. If that was a general, the side that moved has won and stays
    /// the side to move; otherwise the turn passes to the other side.
    pub open spec fn after_move(self, from: Pos, to: Pos) -> Position {
        if !self.accepts(from, to) {
            self
        } else if self.general_on(to) {
            Position {
                pieces: self.pieces.remove(from).insert(to, self.pieces[from]),
                turn: self.turn,
                selected: self.selected,
                state: GameState::Won(self.turn),
            }
        } else {
            Position {
                pieces: self.pieces.remove(from).insert(to, self.pieces[from]),
                turn: self.turn.spec_opposite(),
                selected: self.selected,
                state: GameState::Playing,
            }
        }
    }

    /// Whether a piece of the side to move stands on `pos`.
    pub open spec fn own_piece_on(self, pos: Pos) -> bool {
        self.pieces.contains_key(pos) && self.pieces[pos].color == self.turn
    }

    /// The position after the player has picked the square `pos`. A square
    /// off the board is ignored. If a square was selected and the move from
    /// it to `pos` is accepted, the move is made and nothing is selected.
    /// Otherwise nothing moves, and `pos` becomes the selected square if a
    /// piece of the side to move stands on it; if none does, nothing is
    /// selected.
    pub open spec fn after_click(self, pos: Pos) -> Position {
        if !pos.on_board() {
            self
        } else if self.selected is Some && self.accepts(self.selected->0, pos) {
            let moved = self.after_move(self.selected->0, pos);
            Position {
                pieces: moved.pieces,
                turn: moved.turn,
                selected: None,
                state: moved.state,
            }
        } else {
            Position {
                pieces: self.pieces,
                turn: self.turn,
                selected: if self.own_piece_on(pos) {
                    Some(pos)
                } else {
                    None
                },
                state: self.state,
            }
        }
    }
}

/// Facts about the pieces between two squares.
impl Position {
    /// The pieces between two squares are the same in both directions.
    pub proof fn lemma_obstacles_symmetric(self, a: Pos, b: Pos)
        ensures
            self.obstacles_between(a, b) == self.obstacles_between(b, a),
            self.obstacles(a, b) == self.obstacles(b, a),
    {
        assert(self.obstacles_between(a, b) =~= self.obstacles_between(b, a));
    }

    /// Nothing stands between two squares that are neighbours on a line, or
    /// the same square, or share neither row nor column.
    pub proof fn lemma_no_room_no_obstacles(self, a: Pos, b: Pos)
        requires
            distance(a.x, b.x) <= 1 && distance(a.y, b.y) <= 1 || (a.x != b.x && a.y != b.y),
        ensures
            self.obstacles_between(a, b) == Set::<Pos>::empty(),
            self.obstacles(a, b) == 0,
    {
        assert(self.obstacles_between(a, b) =~= Set::<Pos>::empty());
    }

    /// Going one square further down a column adds the square that was the
    /// end, if a piece stands on it, to the pieces in between.
    pub(crate) proof fn lemma_obstacles_extend_column(self, x: usize, lo: usize, y: usize)
        requires
            lo < y < usize::MAX,
            self.obstacles_between(Pos { x, y: lo }, Pos { x, y }).finite(),
        ensures
            self.obstacles_between(Pos { x, y: lo }, Pos { x, y: (y + 1) as usize }).finite(),
            self.obstacles(Pos { x, y: lo }, Pos { x, y: (y + 1) as usize }) == self.obstacles(
                Pos { x, y: lo },
                Pos { x, y },
            ) + if self.pieces.contains_key(Pos { x, y }) {
                1nat
            } else {
                0nat
            },
    {
        let a = Pos { x, y: lo };
        let shorter = self.obstacles_between(a, Pos { x, y });
        let longer = self.obstacles_between(a, Pos { x, y: (y + 1) as usize });
        if self.pieces.contains_key(Pos { x, y }) {
            assert(longer =~= shorter.insert(Pos { x, y }));
        } else {
            assert(longer =~= shorter);
        }
    }

    /// Going one square further along a row adds the square that was the
    /// end, if a piece stands on it, to the pieces in between.
    pub(crate) proof fn lemma_obstacles_extend_row(self, y: usize, lo: usize, x: usize)
        requires
            lo < x < usize::MAX,
            self.obstacles_between(Pos { x: lo, y }, Pos { x, y }).finite(),
        ensures
            self.obstacles_between(Pos { x: lo, y }, Pos { x: (x + 1) as usize, y }).finite(),
            self.obstacles(Pos { x: lo, y }, Pos { x: (x + 1) as usize, y }) == self.obstacles(
                Pos { x: lo, y },
                Pos { x, y },
            ) + if self.pieces.contains_key(Pos { x, y }) {
                1nat
            } else {
                0nat
            },
    {
        let a = Pos { x: lo, y };
        let shorter = self.obstacles_between(a, Pos { x, y });
        let longer = self.obstacles_between(a, Pos { x: (x + 1) as usize, y });
        if self.pieces.contains_key(Pos { x, y }) {
            assert(longer =~= shorter.insert(Pos { x, y }));
        } else {
            assert(longer =~= shorter);
        }
    }
}

} // verus!
