//! The messages that the two peers exchange, as typed values.

use vstd::prelude::*;
use crate::board::Board;
use crate::piece::{Color, Piece};

verus! {

/// The coordinate that marks a move, or half of one, as not entered yet.
pub const UNSET: usize = usize::MAX;

/// A move from one cell to another.
#[derive(Clone, Copy, Debug, PartialEq, Eq, Structural)]
pub struct Move {
    pub start_x: usize,
    pub start_y: usize,
    pub end_x: usize,
    pub end_y: usize,
    pub promotion: Piece,
}

impl Move {
    /// The move between the given cells, with no promotion piece.
    pub open spec fn spec_between(from: (usize, usize), to: (usize, usize)) -> Move {
        Move { start_x: from.0, start_y: from.1, end_x: to.0, end_y: to.1, promotion: Piece::Empty }
    }

    /// The value that stands for "no move pending".
    pub open spec fn spec_unset() -> Move {
        Self::spec_between((UNSET, UNSET), (UNSET, UNSET))
    }

    /// Whether no coordinate of the move has been entered.
    pub open spec fn spec_is_unset(self) -> bool {
        self.start_x == UNSET && self.start_y == UNSET && self.end_x == UNSET && self.end_y
            == UNSET
    }

    /// The move between the given cells, with no promotion piece.
    pub fn between(from: (usize, usize), to: (usize, usize)) -> (r: Move)
        ensures
            r == Self::spec_between(from, to),
    {
        Move { start_x: from.0, start_y: from.1, end_x: to.0, end_y: to.1, promotion: Piece::Empty }
    }

    /// The value that stands for "no move pending".
    pub fn unset() -> (r: Move)
        ensures
            r == Self::spec_unset(),
            r.spec_is_unset(),
    {
        Move::between((UNSET, UNSET), (UNSET, UNSET))
    }

    /// Whether no coordinate of the move has been entered.
    pub fn is_unset(&self) -> (r: bool)
        ensures
            r == self.spec_is_unset(),
    {
        self.start_x == UNSET && self.start_y == UNSET && self.end_x == UNSET && self.end_y
            == UNSET
    }
}

/// How the game stands.
#[derive(Clone, Copy, Debug, PartialEq, Eq, Structural)]
pub enum GameStatus {
    White,
    Black,
    Draw,
    Indeterminate,
    Ongoing,
}

impl GameStatus {
    /// Whether the game is over.
    pub open spec fn spec_is_terminal(self) -> bool {
        self != GameStatus::Ongoing
    }

    /// The status that the host reports: over in an undetermined way once
    /// the end-of-game flag is set, ongoing before.
    pub open spec fn spec_reported(game_end: bool) -> GameStatus {
        if game_end {
            GameStatus::Indeterminate
        } else {
            GameStatus::Ongoing
        }
    }

    /// Whether the game is over.
    pub fn is_terminal(self) -> (r: bool)
        ensures
            r == self.spec_is_terminal(),
    {
        match self {
            GameStatus::Ongoing => false,
            _ => true,
        }
    }

    /// The status that the host reports for its end-of-game flag.
    pub fn reported(game_end: bool) -> (r: GameStatus)
        ensures
            r == Self::spec_reported(game_end),
            r.spec_is_terminal() == game_end,
    {
        if game_end {
            GameStatus::Indeterminate
        } else {
            GameStatus::Ongoing
        }
    }
}

/// A rule of the game that a host may announce in its greeting.
#[derive(Clone, Copy, Debug, PartialEq, Eq, Structural)]
pub enum Feature {
    EnPassant,
    Castling,
    Promotion,
    Stalemate,
    Other,
}

/// The features that this host announces.
pub open spec fn announced_features() -> Seq<Feature> {
    seq![Feature::EnPassant, Feature::Castling]
}

/// The text of the notice that rejects a move.
pub open spec fn rejection_text() -> Seq<char> {
    "Bad move."@
}

/// The greeting of the client: the colour it would like to play.
#[derive(Clone, Copy, Debug, PartialEq, Eq, Structural)]
pub struct ClientHello {
    pub preferred_color: Color,
}

/// The greeting of the host.
#[derive(Clone, Debug, PartialEq, Eq)]
pub struct HostHello {
    pub features: Vec<Feature>,
    pub board: Board,
    pub moves: Vec<Move>,
    pub status: GameStatus,
}

impl HostHello {
    /// Whether this is the greeting that a host sends at the start of a
    /// session over the given board: the announced features, no move
    /// history, game ongoing.
    pub open spec fn is_opening(self, board: Board) -> bool {
        &&& self.features@ == announced_features()
        &&& self.board == board
        &&& self.moves@ == Seq::<Move>::empty()
        &&& self.status == GameStatus::Ongoing
    }
}

/// What the client may send once the session is running.
#[derive(Clone, Copy, Debug, PartialEq, Eq)]
pub enum ClientMessage {
    Move(Move),
    Draw,
    Resign,
}

/// What the host may send once the session is running. Both carry the whole
/// board.
#[derive(Clone, Debug, PartialEq, Eq)]
pub enum HostMessage {
    /// A move was made: the board after it.
    State { board: Board, moves: Vec<Move>, status: GameStatus, last_move: Move },
    /// A move was rejected: the board as it still is.
    Error { board: Board, moves: Vec<Move>, status: GameStatus, message: String },
}

impl HostMessage {
    /// The board that the message carries.
    pub open spec fn spec_board(self) -> Board {
        match self {
            HostMessage::State { board, .. } => board,
            HostMessage::Error { board, .. } => board,
        }
    }

    /// The status that the message carries.
    pub open spec fn spec_status(self) -> GameStatus {
        match self {
            HostMessage::State { status, .. } => status,
            HostMessage::Error { status, .. } => status,
        }
    }

    /// Whether this is the broadcast of `last_move` with the given board and
    /// status and no move history.
    pub open spec fn is_state_of(self, board: Board, status: GameStatus, last_move: Move) -> bool {
        &&& self matches HostMessage::State { board: b, moves: m, status: s, last_move: l }
        &&& b == board
        &&& m@ == Seq::<Move>::empty()
        &&& s == status
        &&& l == last_move
    }

    /// Whether this is the rejection notice with the given board and status,
    /// no move history and the fixed rejection text.
    pub open spec fn is_rejection_of(self, board: Board, status: GameStatus) -> bool {
        &&& self matches HostMessage::Error { board: b, moves: m, status: s, message: t }
        &&& b == board
        &&& m@ == Seq::<Move>::empty()
        &&& s == status
        &&& t@ == rejection_text()
    }

    /// The board that the message carries.
    pub fn board(&self) -> (r: Board)
        ensures
            r == self.spec_board(),
    {
        match self {
            HostMessage::State { board, .. } => *board,
            HostMessage::Error { board, .. } => *board,
        }
    }

    /// The status that the message carries.
    pub fn status(&self) -> (r: GameStatus)
        ensures
            r == self.spec_status(),
    {
        match self {
            HostMessage::State { status, .. } => *status,
            HostMessage::Error { status, .. } => *status,
        }
    }

    /// The broadcast of `last_move` with the given board and status.
    pub fn state(board: Board, status: GameStatus, last_move: Move) -> (r: HostMessage)
        ensures
            r.is_state_of(board, status, last_move),
    {
        HostMessage::State { board, moves: Vec::new(), status, last_move }
    }

    /// The rejection notice with the given board and status.
    pub fn rejection(board: Board, status: GameStatus) -> (r: HostMessage)
        ensures
            r.is_rejection_of(board, status),
    {
        HostMessage::Error { board, moves: Vec::new(), status, message: "Bad move.".to_owned() }
    }
}

} // verus!
