//! Colours, piece kinds and the cell values of a board snapshot.

use vstd::prelude::*;

verus! {

/// The code that stands for an empty cell in an encoded snapshot.
pub const EMPTY_CODE: u8 = 12;

/// One of the two sides of the game.
#[derive(Clone, Copy, Debug, PartialEq, Eq, Structural)]
pub enum Color {
    White,
    Black,
}

impl Color {
    /// The other side.
    pub open spec fn spec_opposite(self) -> Color {
        match self {
            Color::White => Color::Black,
            Color::Black => Color::White,
        }
    }

    /// The other side.
    pub fn opposite(self) -> (r: Color)
        ensures
            r == self.spec_opposite(),
            r != self,
    {
        match self {
            Color::White => Color::Black,
            Color::Black => Color::White,
        }
    }
}

/// A kind of chess piece, in the order in which the rules engine and the
/// sprite sheet number them.
#[derive(Clone, Copy, Debug, PartialEq, Eq, Structural)]
pub enum PieceKind {
    Pawn,
    Rook,
    Knight,
    Bishop,
    Queen,
    King,
}

impl PieceKind {
    /// Position of the kind in the sprite sheet, from 0 to 5.
    pub open spec fn spec_index(self) -> nat {
        match self {
            PieceKind::Pawn => 0,
            PieceKind::Rook => 1,
            PieceKind::Knight => 2,
            PieceKind::Bishop => 3,
            PieceKind::Queen => 4,
            PieceKind::King => 5,
        }
    }

    /// Offset of the kind inside one colour's block of wire codes, from 0 to 5.
    pub open spec fn spec_wire_offset(self) -> nat {
        match self {
            PieceKind::Pawn => 0,
            PieceKind::Knight => 1,
            PieceKind::Bishop => 2,
            PieceKind::Rook => 3,
            PieceKind::Queen => 4,
            PieceKind::King => 5,
        }
    }

    /// Position of the kind in the sprite sheet.
    pub fn index(self) -> (r: usize)
        ensures
            r == self.spec_index(),
            r < 6,
    {
        match self {
            PieceKind::Pawn => 0,
            PieceKind::Rook => 1,
            PieceKind::Knight => 2,
            PieceKind::Bishop => 3,
            PieceKind::Queen => 4,
            PieceKind::King => 5,
        }
    }

    /// Whether a pawn that reaches the last rank may become this kind.
    pub open spec fn spec_is_promotion_target(self) -> bool {
        self != PieceKind::Pawn && self != PieceKind::King
    }

    /// Whether a pawn that reaches the last rank may become this kind.
    pub fn is_promotion_target(self) -> (r: bool)
        ensures
            r == self.spec_is_promotion_target(),
    {
        match self {
            PieceKind::Pawn => false,
            PieceKind::King => false,
            _ => true,
        }
    }
}

/// What one cell of a board snapshot holds: one of the twelve piece
/// identities, or nothing.
#[derive(Clone, Copy, Debug, PartialEq, Eq, Structural)]
pub enum Piece {
    BlackPawn,
    BlackKnight,
    BlackBishop,
    BlackRook,
    BlackQueen,
    BlackKing,
    WhitePawn,
    WhiteKnight,
    WhiteBishop,
    WhiteRook,
    WhiteQueen,
    WhiteKing,
    Empty,
}

impl Piece {
    /// The piece of the given colour and kind.
    pub open spec fn spec_of(color: Color, kind: PieceKind) -> Piece {
        match (color, kind) {
            (Color::Black, PieceKind::Pawn) => Piece::BlackPawn,
            (Color::Black, PieceKind::Rook) => Piece::BlackRook,
            (Color::Black, PieceKind::Knight) => Piece::BlackKnight,
            (Color::Black, PieceKind::Bishop) => Piece::BlackBishop,
            (Color::Black, PieceKind::Queen) => Piece::BlackQueen,
            (Color::Black, PieceKind::King) => Piece::BlackKing,
            (Color::White, PieceKind::Pawn) => Piece::WhitePawn,
            (Color::White, PieceKind::Rook) => Piece::WhiteRook,
            (Color::White, PieceKind::Knight) => Piece::WhiteKnight,
            (Color::White, PieceKind::Bishop) => Piece::WhiteBishop,
            (Color::White, PieceKind::Queen) => Piece::WhiteQueen,
            (Color::White, PieceKind::King) => Piece::WhiteKing,
        }
    }

    /// The colour of the piece; `None` for an empty cell.
    pub open spec fn spec_color(self) -> Option<Color> {
        match self {
            Piece::BlackPawn | Piece::BlackKnight | Piece::BlackBishop | Piece::BlackRook
            | Piece::BlackQueen | Piece::BlackKing => Some(Color::Black),
            Piece::WhitePawn | Piece::WhiteKnight | Piece::WhiteBishop | Piece::WhiteRook
            | Piece::WhiteQueen | Piece::WhiteKing => Some(Color::White),
            Piece::Empty => None,
        }
    }

    /// The kind of the piece; `None` for an empty cell.
    pub open spec fn spec_kind(self) -> Option<PieceKind> {
        match self {
            Piece::BlackPawn | Piece::WhitePawn => Some(PieceKind::Pawn),
            Piece::BlackKnight | Piece::WhiteKnight => Some(PieceKind::Knight),
            Piece::BlackBishop | Piece::WhiteBishop => Some(PieceKind::Bishop),
            Piece::BlackRook | Piece::WhiteRook => Some(PieceKind::Rook),
            Piece::BlackQueen | Piece::WhiteQueen => Some(PieceKind::Queen),
            Piece::BlackKing | Piece::WhiteKing => Some(PieceKind::King),
            Piece::Empty => None,
        }
    }

    /// The wire code of the cell value: black pieces take 0 to 5, white
    /// pieces 6 to 11, each in the order pawn, knight, bishop, rook, queen,
    /// king, and the empty cell takes 12.
    pub open spec fn spec_code(self) -> nat {
        match (self.spec_color(), self.spec_kind()) {
            (Some(Color::Black), Some(k)) => k.spec_wire_offset(),
            (Some(Color::White), Some(k)) => 6 + k.spec_wire_offset(),
            _ => 12,
        }
    }

    /// The cell value that a wire code stands for; `None` above 12.
    pub open spec fn spec_from_code(code: nat) -> Option<Piece> {
        if code == 0 {
            Some(Piece::BlackPawn)
        } else if code == 1 {
            Some(Piece::BlackKnight)
        } else if code == 2 {
            Some(Piece::BlackBishop)
        } else if code == 3 {
            Some(Piece::BlackRook)
        } else if code == 4 {
            Some(Piece::BlackQueen)
        } else if code == 5 {
            Some(Piece::BlackKing)
        } else if code == 6 {
            Some(Piece::WhitePawn)
        } else if code == 7 {
            Some(Piece::WhiteKnight)
        } else if code == 8 {
            Some(Piece::WhiteBishop)
        } else if code == 9 {
            Some(Piece::WhiteRook)
        } else if code == 10 {
            Some(Piece::WhiteQueen)
        } else if code == 11 {
            Some(Piece::WhiteKing)
        } else if code == 12 {
            Some(Piece::Empty)
        } else {
            None
        }
    }

    /// The piece of the given colour and kind.
    pub fn of(color: Color, kind: PieceKind) -> (r: Piece)
        ensures
            r == Self::spec_of(color, kind),
            r.spec_color() == Some(color),
            r.spec_kind() == Some(kind),
    {
        match color {
            Color::Black => match kind {
                PieceKind::Pawn => Piece::BlackPawn,
                PieceKind::Rook => Piece::BlackRook,
                PieceKind::Knight => Piece::BlackKnight,
                PieceKind::Bishop => Piece::BlackBishop,
                PieceKind::Queen => Piece::BlackQueen,
                PieceKind::King => Piece::BlackKing,
            },
            Color::White => match kind {
                PieceKind::Pawn => Piece::WhitePawn,
                PieceKind::Rook => Piece::WhiteRook,
                PieceKind::Knight => Piece::WhiteKnight,
                PieceKind::Bishop => Piece::WhiteBishop,
                PieceKind::Queen => Piece::WhiteQueen,
                PieceKind::King => Piece::WhiteKing,
            },
        }
    }

    /// The colour of the piece; `None` for an empty cell.
    pub fn color(self) -> (r: Option<Color>)
        ensures
            r == self.spec_color(),
            r.is_none() <==> self == Piece::Empty,
    {
        match self {
            Piece::BlackPawn | Piece::BlackKnight | Piece::BlackBishop | Piece::BlackRook
            | Piece::BlackQueen | Piece::BlackKing => Some(Color::Black),
            Piece::WhitePawn | Piece::WhiteKnight | Piece::WhiteBishop | Piece::WhiteRook
            | Piece::WhiteQueen | Piece::WhiteKing => Some(Color::White),
            Piece::Empty => None,
        }
    }

    /// The kind of the piece; `None` for an empty cell.
    pub fn kind(self) -> (r: Option<PieceKind>)
        ensures
            r == self.spec_kind(),
            r.is_none() <==> self == Piece::Empty,
    {
        match self {
            Piece::BlackPawn | Piece::WhitePawn => Some(PieceKind::Pawn),
            Piece::BlackKnight | Piece::WhiteKnight => Some(PieceKind::Knight),
            Piece::BlackBishop | Piece::WhiteBishop => Some(PieceKind::Bishop),
            Piece::BlackRook | Piece::WhiteRook => Some(PieceKind::Rook),
            Piece::BlackQueen | Piece::WhiteQueen => Some(PieceKind::Queen),
            Piece::BlackKing | Piece::WhiteKing => Some(PieceKind::King),
            Piece::Empty => None,
        }
    }

    /// The wire code of the cell value.
    pub fn code(self) -> (r: u8)
        ensures
            r == self.spec_code(),
            r <= EMPTY_CODE,
            (r < 6) <==> self.spec_color() == Some(Color::Black),
            (6 <= r < 12) <==> self.spec_color() == Some(Color::White),
            r == EMPTY_CODE <==> self == Piece::Empty,
    {
        match self {
            Piece::BlackPawn => 0,
            Piece::BlackKnight => 1,
            Piece::BlackBishop => 2,
            Piece::BlackRook => 3,
            Piece::BlackQueen => 4,
            Piece::BlackKing => 5,
            Piece::WhitePawn => 6,
            Piece::WhiteKnight => 7,
            Piece::WhiteBishop => 8,
            Piece::WhiteRook => 9,
            Piece::WhiteQueen => 10,
            Piece::WhiteKing => 11,
            Piece::Empty => 12,
        }
    }

    /// The cell value that a wire code stands for. Codes above 12 stand for
    /// nothing and give `None`.
    pub fn from_code(code: u8) -> (r: Option<Piece>)
        ensures
            r == Self::spec_from_code(code as nat),
            r.is_some() <==> code <= EMPTY_CODE,
            r matches Some(p) ==> p.spec_code() == code,
    {
        if code == 0 {
            Some(Piece::BlackPawn)
        } else if code == 1 {
            Some(Piece::BlackKnight)
        } else if code == 2 {
            Some(Piece::BlackBishop)
        } else if code == 3 {
            Some(Piece::BlackRook)
        } else if code == 4 {
            Some(Piece::BlackQueen)
        } else if code == 5 {
            Some(Piece::BlackKing)
        } else if code == 6 {
            Some(Piece::WhitePawn)
        } else if code == 7 {
            Some(Piece::WhiteKnight)
        } else if code == 8 {
            Some(Piece::WhiteBishop)
        } else if code == 9 {
            Some(Piece::WhiteRook)
        } else if code == 10 {
            Some(Piece::WhiteQueen)
        } else if code == 11 {
            Some(Piece::WhiteKing)
        } else if code == 12 {
            Some(Piece::Empty)
        } else {
            None
        }
    }
}

/// Decoding the code of a cell value gives the cell value back.
pub proof fn lemma_code_round_trip(p: Piece)
    ensures
        p.spec_code() <= 12,
        Piece::spec_from_code(p.spec_code()) == Some(p),
{
}

/// Encoding what a code decodes to gives the code back, and exactly the
/// codes up to 12 decode.
pub proof fn lemma_decode_round_trip(code: nat)
    ensures
        Piece::spec_from_code(code).is_some() <==> code <= 12,
        Piece::spec_from_code(code) matches Some(p) ==> p.spec_code() == code,
{
}

} // verus!
