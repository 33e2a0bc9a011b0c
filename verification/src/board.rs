//! The 8×8 board snapshot that travels with every message of the host.

use vstd::prelude::*;
use crate::piece::{Color, Piece, PieceKind, EMPTY_CODE};

verus! {

/// Number of files and of ranks.
pub const BOARD_SIDE: usize = 8;

/// Number of cells of a board.
pub const BOARD_CELLS: usize = 64;

/// A full snapshot of the board. The cell at file `x` and rank `y` is stored
/// at index `8 * y + x`.
#[derive(Clone, Copy, Debug, PartialEq, Eq)]
pub struct Board {
    pub cells: [Piece; 64],
}

/// Whether the tile at file `x` and rank `y` is a light one: the corner tile
/// at file 0 and rank 0 is, and the tiles alternate from there.
pub open spec fn spec_light_tile(x: usize, y: usize) -> bool {
    (x + y) % 2 == 0
}

/// Whether the tile at file `x` and rank `y` is a light one.
pub fn light_tile(x: usize, y: usize) -> (r: bool)
    ensures
        r == spec_light_tile(x, y),
{
    (x % 2 == 0) == (y % 2 == 0)
}

/// Whether every entry of a position list lies on the board.
pub open spec fn on_board(ps: Seq<(PieceKind, u8, u8)>) -> bool {
    forall|i: int| 0 <= i < ps.len() ==> (#[trigger] ps[i]).1 < 8 && ps[i].2 < 8
}

/// The kind of the last entry of a position list that stands on the cell at
/// file `x` and rank `y`, if any entry does.
pub open spec fn last_at(ps: Seq<(PieceKind, u8, u8)>, x: int, y: int) -> Option<PieceKind>
    decreases ps.len(),
{
    if ps.len() == 0 {
        None
    } else if ps.last().1 == x && ps.last().2 == y {
        Some(ps.last().0)
    } else {
        last_at(ps.drop_last(), x, y)
    }
}

/// What a snapshot of the two position lists shows on the cell at file `x`
/// and rank `y`: the white piece listed there, else the black piece listed
/// there, else nothing.
pub open spec fn snapshot_cell(
    white: Seq<(PieceKind, u8, u8)>,
    black: Seq<(PieceKind, u8, u8)>,
    x: int,
    y: int,
) -> Piece {
    match last_at(white, x, y) {
        Some(k) => Piece::spec_of(Color::White, k),
        None => match last_at(black, x, y) {
            Some(k) => Piece::spec_of(Color::Black, k),
            None => Piece::Empty,
        },
    }
}

/// Whether every entry of a position list lies on the board.
pub fn positions_on_board(ps: &Vec<(PieceKind, u8, u8)>) -> (r: bool)
    ensures
        r == on_board(ps@),
{
    let mut i: usize = 0;
    while i < ps.len()
        invariant
            i <= ps.len(),
            forall|j: int| 0 <= j < i ==> (#[trigger] ps@[j]).1 < 8 && ps@[j].2 < 8,
        decreases ps.len() - i,
    {
        if ps[i].1 >= 8 || ps[i].2 >= 8 {
            return false;
        }
        i += 1;
    }
    true
}

impl Board {
    /// The cell at file `x` and rank `y`.
    pub open spec fn spec_cell(self, x: int, y: int) -> Piece {
        self.cells@[8 * y + x]
    }

    /// The board as the sequence of its 64 cells, rank by rank.
    pub open spec fn view(&self) -> Seq<Piece> {
        self.cells@
    }

    /// The board with no piece on it.
    pub fn empty() -> (r: Board)
        ensures
            forall|i: int| 0 <= i < 64 ==> r@[i] == Piece::Empty,
    {
        Board { cells: [Piece::Empty; 64] }
    }

    /// The cell at file `x` and rank `y`; `None` off the board.
    pub fn get(&self, x: usize, y: usize) -> (r: Option<Piece>)
        ensures
            r.is_some() <==> x < 8 && y < 8,
            r matches Some(p) ==> p == self.spec_cell(x as int, y as int),
    {
        if x < BOARD_SIDE && y < BOARD_SIDE {
            Some(self.cells[8 * y + x])
        } else {
            None
        }
    }

    /// Puts `piece` on the cell at file `x` and rank `y`, and says whether
    /// the cell is on the board. Off the board nothing changes.
    pub fn set(&mut self, x: usize, y: usize, piece: Piece) -> (r: bool)
        ensures
            r == (x < 8 && y < 8),
            r ==> final(self)@ == old(self)@.update(8 * y + x, piece),
            !r ==> *final(self) == *old(self),
    {
        if x < BOARD_SIDE && y < BOARD_SIDE {
            self.cells[8 * y + x] = piece;
            true
        } else {
            false
        }
    }

    /// The snapshot of the rules engine's two position lists: the black
    /// pieces are placed first and the white pieces over them.
    pub fn from_positions(
        white: &Vec<(PieceKind, u8, u8)>,
        black: &Vec<(PieceKind, u8, u8)>,
    ) -> (r: Board)
        requires
            on_board(white@),
            on_board(black@),
        ensures
            forall|x: int, y: int|
                0 <= x < 8 && 0 <= y < 8 ==> #[trigger] r.spec_cell(x, y) == snapshot_cell(
                    white@,
                    black@,
                    x,
                    y,
                ),
    {
        let mut board = Board::empty();
        let mut i: usize = 0;
        while i < black.len()
            invariant
                i <= black.len(),
                on_board(black@),
                forall|x: int, y: int|
                    0 <= x < 8 && 0 <= y < 8 ==> #[trigger] board.spec_cell(x, y) == snapshot_cell(
                        Seq::empty(),
                        black@.take(i as int),
                        x,
                        y,
                    ),
            decreases black.len() - i,
        {
            let (kind, x, y) = black[i];
            let ghost before = board;
            board.cells[8 * (y as usize) + (x as usize)] = Piece::of(Color::Black, kind);
            proof {
                assert(black@.take(i + 1).drop_last() == black@.take(i as int));
                assert(black@.take(i + 1).last() == black@[i as int]);
                assert forall|a: int, b: int| 0 <= a < 8 && 0 <= b < 8 implies #[trigger] board.spec_cell(
                    a,
                    b,
                ) == snapshot_cell(Seq::empty(), black@.take(i + 1), a, b) by {
                    assert(before.spec_cell(a, b) == snapshot_cell(
                        Seq::empty(),
                        black@.take(i as int),
                        a,
                        b,
                    ));
                }
            }
            i += 1;
        }
        assert(black@.take(black.len() as int) == black@);
        let mut j: usize = 0;
        while j < white.len()
            invariant
                j <= white.len(),
                on_board(white@),
                forall|x: int, y: int|
                    0 <= x < 8 && 0 <= y < 8 ==> #[trigger] board.spec_cell(x, y) == snapshot_cell(
                        white@.take(j as int),
                        black@,
                        x,
                        y,
                    ),
            decreases white.len() - j,
        {
            let (kind, x, y) = white[j];
            let ghost before = board;
            board.cells[8 * (y as usize) + (x as usize)] = Piece::of(Color::White, kind);
            proof {
                assert(white@.take(j + 1).drop_last() == white@.take(j as int));
                assert(white@.take(j + 1).last() == white@[j as int]);
                assert forall|a: int, b: int| 0 <= a < 8 && 0 <= b < 8 implies #[trigger] board.spec_cell(
                    a,
                    b,
                ) == snapshot_cell(white@.take(j + 1), black@, a, b) by {
                    assert(before.spec_cell(a, b) == snapshot_cell(
                        white@.take(j as int),
                        black@,
                        a,
                        b,
                    ));
                }
            }
            j += 1;
        }
        assert(white@.take(white.len() as int) == white@);
        board
    }

    /// The snapshot of the rules engine's two position lists, where both lie
    /// on the board; `None` where an entry of either lies off it.
    pub fn snapshot(
        white: &Vec<(PieceKind, u8, u8)>,
        black: &Vec<(PieceKind, u8, u8)>,
    ) -> (r: Option<Board>)
        ensures
            r.is_some() <==> on_board(white@) && on_board(black@),
            r matches Some(b) ==> forall|x: int, y: int|
                0 <= x < 8 && 0 <= y < 8 ==> #[trigger] b.spec_cell(x, y) == snapshot_cell(
                    white@,
                    black@,
                    x,
                    y,
                ),
    {
        if positions_on_board(white) && positions_on_board(black) {
            Some(Board::from_positions(white, black))
        } else {
            None
        }
    }

    /// The position list of one colour, derived from the whole snapshot:
    /// each piece of that colour as its file, its rank and the sprite index
    /// of its kind, rank by rank.
    pub fn placements(&self, color: Color) -> (r: Vec<(usize, usize, usize)>)
        ensures
            r@ == placements(*self, color),
    {
        let mut list: Vec<(usize, usize, usize)> = Vec::new();
        let mut i: usize = 0;
        while i < BOARD_CELLS
            invariant
                i <= 64,
                list@ == placements_upto(self@, color, i as nat),
            decreases 64 - i,
        {
            let piece = self.cells[i];
            match (piece.color(), piece.kind()) {
                (Some(c), Some(k)) => {
                    if c == color {
                        list.push((i % 8, i / 8, k.index()));
                    }
                },
                _ => {},
            }
            i += 1;
        }
        list
    }

    /// The board as 64 wire codes, rank by rank.
    pub fn to_codes(&self) -> (r: Vec<u8>)
        ensures
            r@ == encode_cells(self@),
    {
        let mut codes: Vec<u8> = Vec::new();
        let mut i: usize = 0;
        while i < BOARD_CELLS
            invariant
                i <= 64,
                codes@.len() == i,
                forall|j: int| 0 <= j < i ==> codes@[j] == (#[trigger] self@[j]).spec_code(),
            decreases 64 - i,
        {
            codes.push(self.cells[i].code());
            i += 1;
        }
        assert(codes@ =~= encode_cells(self@));
        codes
    }

    /// The board that 64 wire codes stand for. Any other number of codes, or
    /// a code above 12 among them, gives `None`.
    pub fn from_codes(codes: &Vec<u8>) -> (r: Option<Board>)
        ensures
            r.is_some() <==> decodable(codes@),
            r matches Some(b) ==> encode_cells(b@) == codes@,
    {
        if codes.len() != BOARD_CELLS {
            return None;
        }
        let mut board = Board::empty();
        let mut i: usize = 0;
        while i < BOARD_CELLS
            invariant
                i <= 64,
                codes@.len() == 64,
                forall|j: int| 0 <= j < i ==> (#[trigger] codes@[j]) <= EMPTY_CODE,
                forall|j: int| 0 <= j < i ==> (#[trigger] board@[j]).spec_code() == codes@[j],
            decreases 64 - i,
        {
            match Piece::from_code(codes[i]) {
                Some(p) => {
                    let ghost before = board;
                    board.cells[i] = p;
                    assert(forall|j: int| 0 <= j < i ==> board@[j] == #[trigger] before@[j]);
                },
                None => {
                    assert(codes@[i as int] > EMPTY_CODE);
                    return None;
                },
            }
            i += 1;
        }
        assert(encode_cells(board@) =~= codes@);
        Some(board)
    }
}

/// The pieces of one colour on the first `n` cells, rank by rank and file by
/// file: each as its file, its rank and the sprite index of its kind.
pub open spec fn placements_upto(cells: Seq<Piece>, color: Color, n: nat) -> Seq<
    (usize, usize, usize),
>
    decreases n,
{
    if n == 0 {
        Seq::empty()
    } else {
        let i = (n - 1) as int;
        let earlier = placements_upto(cells, color, (n - 1) as nat);
        if cells[i].spec_color() == Some(color) {
            earlier.push(
                ((i % 8) as usize, (i / 8) as usize, cells[i].spec_kind().unwrap().spec_index() as usize),
            )
        } else {
            earlier
        }
    }
}

/// The position list of one colour that a client derives from a snapshot.
pub open spec fn placements(board: Board, color: Color) -> Seq<(usize, usize, usize)> {
    placements_upto(board@, color, 64)
}

/// The wire codes of a sequence of cells, one for one.
pub open spec fn encode_cells(cells: Seq<Piece>) -> Seq<u8> {
    Seq::new(cells.len(), |i: int| cells[i].spec_code() as u8)
}

/// Whether a sequence of wire codes stands for a board: 64 codes, none of
/// them above 12.
pub open spec fn decodable(codes: Seq<u8>) -> bool {
    &&& codes.len() == 64
    &&& forall|i: int| 0 <= i < 64 ==> (#[trigger] codes[i]) <= EMPTY_CODE
}

/// A snapshot survives the wire: its codes are decodable, and two boards
/// with the same codes hold the same piece on each of the 64 cells.
pub proof fn lemma_snapshot_round_trip(a: Board, b: Board)
    requires
        encode_cells(b@) == encode_cells(a@),
    ensures
        decodable(encode_cells(a@)),
        forall|x: int, y: int| 0 <= x < 8 && 0 <= y < 8 ==> b.spec_cell(x, y) == a.spec_cell(x, y),
        b@ == a@,
{
    assert(a@.len() == 64 && b@.len() == 64);
    assert forall|i: int| 0 <= i < 64 implies b@[i] == a@[i] by {
        crate::piece::lemma_code_round_trip(a@[i]);
        crate::piece::lemma_code_round_trip(b@[i]);
        assert(encode_cells(a@)[i] == a@[i].spec_code());
        assert(encode_cells(b@)[i] == b@[i].spec_code());
    }
    assert(b@ =~= a@);
}

/// Whether no two entries of a position list stand on the same cell.
pub open spec fn distinct_cells(ps: Seq<(PieceKind, u8, u8)>) -> bool {
    forall|i: int, j: int|
        0 <= i < ps.len() && 0 <= j < ps.len() && i != j ==> !((#[trigger] ps[i]).1 == (
        #[trigger] ps[j]).1 && ps[i].2 == ps[j].2)
}

/// `last_at` finds an entry of the list on the cell, and finds none only
/// where the list has none there.
pub proof fn lemma_last_at_is_an_entry(ps: Seq<(PieceKind, u8, u8)>, x: int, y: int)
    ensures
        last_at(ps, x, y) matches Some(k) ==> exists|i: int|
            0 <= i < ps.len() && #[trigger] ps[i] == (k, x as u8, y as u8) && ps[i].1 == x
                && ps[i].2 == y,
        last_at(ps, x, y).is_none() ==> forall|i: int|
            0 <= i < ps.len() ==> !((#[trigger] ps[i]).1 == x && ps[i].2 == y),
    decreases ps.len(),
{
    if ps.len() > 0 {
        let front = ps.drop_last();
        lemma_last_at_is_an_entry(front, x, y);
        if ps.last().1 == x && ps.last().2 == y {
            assert(ps[ps.len() - 1] == (ps.last().0, x as u8, y as u8));
        } else {
            if let Some(k) = last_at(front, x, y) {
                let i = choose|i: int|
                    0 <= i < front.len() && #[trigger] front[i] == (k, x as u8, y as u8)
                        && front[i].1 == x && front[i].2 == y;
                assert(ps[i] == front[i]);
            } else {
                assert forall|i: int| 0 <= i < ps.len() implies !((#[trigger] ps[i]).1 == x
                    && ps[i].2 == y) by {
                    if i < front.len() {
                        assert(ps[i] == front[i]);
                    }
                }
            }
        }
    }
}

/// Where no two entries share a cell, `last_at` gives the kind of the one
/// entry on the cell.
pub proof fn lemma_last_at_of_distinct_cells(
    ps: Seq<(PieceKind, u8, u8)>,
    kind: PieceKind,
    x: u8,
    y: u8,
)
    requires
        distinct_cells(ps),
    ensures
        ps.contains((kind, x, y)) <==> last_at(ps, x as int, y as int) == Some(kind),
{
    lemma_last_at_is_an_entry(ps, x as int, y as int);
    if ps.contains((kind, x, y)) {
        let j = choose|j: int| 0 <= j < ps.len() && ps[j] == (kind, x, y);
        assert(ps[j].1 == x && ps[j].2 == y);
        match last_at(ps, x as int, y as int) {
            Some(k) => {
                let i = choose|i: int|
                    0 <= i < ps.len() && #[trigger] ps[i] == (k, x as int as u8, y as int as u8)
                        && ps[i].1 == x as int && ps[i].2 == y as int;
                assert(i == j);
            },
            None => {},
        }
    }
    if let Some(k) = last_at(ps, x as int, y as int) {
        let i = choose|i: int|
            0 <= i < ps.len() && #[trigger] ps[i] == (k, x as int as u8, y as int as u8)
                && ps[i].1 == x as int && ps[i].2 == y as int;
        assert(ps[i] == (k, x, y));
    }
}

/// What the first `n` cells contribute to a derived position list: an entry
/// is in it exactly if its cell is among them and holds a piece of the
/// colour whose kind has the entry's sprite index.
pub proof fn lemma_placements_upto_contains(
    cells: Seq<Piece>,
    color: Color,
    n: nat,
    e: (usize, usize, usize),
)
    requires
        n <= 64,
    ensures
        placements_upto(cells, color, n).contains(e) <==> {
            &&& e.0 < 8
            &&& 8 * e.1 + e.0 < n
            &&& cells[8 * e.1 + e.0].spec_color() == Some(color)
            &&& cells[8 * e.1 + e.0].spec_kind().unwrap().spec_index() == e.2
        },
    decreases n,
{
    if n > 0 {
        let i = (n - 1) as int;
        let earlier = placements_upto(cells, color, (n - 1) as nat);
        lemma_placements_upto_contains(cells, color, (n - 1) as nat, e);
        if cells[i].spec_color() == Some(color) {
            let v = (
                (i % 8) as usize,
                (i / 8) as usize,
                cells[i].spec_kind().unwrap().spec_index() as usize,
            );
            vstd::seq_lib::lemma_seq_contains_after_push(earlier, v, e);
            if e.0 < 8 && 8 * e.1 + e.0 == i {
                assert(e.0 == i % 8 && e.1 == i / 8);
            }
        } else {
        }
    } else {
        assert(!Seq::<(usize, usize, usize)>::empty().contains(e));
    }
}

/// A derived position list shows the board: on every cell, the list of a
/// colour has the entry of a kind exactly if the cell holds the piece of
/// that colour and kind.
pub proof fn lemma_placements_show_the_board(
    board: Board,
    color: Color,
    kind: PieceKind,
    x: usize,
    y: usize,
)
    requires
        x < 8,
        y < 8,
    ensures
        placements(board, color).contains((x, y, kind.spec_index() as usize)) <==> board.spec_cell(
            x as int,
            y as int,
        ) == Piece::spec_of(color, kind),
{
    lemma_placements_upto_contains(board@, color, 64, (x, y, kind.spec_index() as usize));
}

/// From the rules engine to the client and nothing lost: where the two
/// position lists lie on the board and no two of their entries share a
/// cell, the lists that a client derives from the snapshot hold a piece on
/// a cell exactly if the engine's list of that colour does.
pub proof fn lemma_positions_round_trip(
    white: Seq<(PieceKind, u8, u8)>,
    black: Seq<(PieceKind, u8, u8)>,
    board: Board,
    kind: PieceKind,
    x: u8,
    y: u8,
)
    requires
        on_board(white),
        on_board(black),
        distinct_cells(white + black),
        forall|a: int, b: int|
            0 <= a < 8 && 0 <= b < 8 ==> #[trigger] board.spec_cell(a, b) == snapshot_cell(
                white,
                black,
                a,
                b,
            ),
        x < 8,
        y < 8,
    ensures
        white.contains((kind, x, y)) <==> placements(board, Color::White).contains(
            (x as usize, y as usize, kind.spec_index() as usize),
        ),
        black.contains((kind, x, y)) <==> placements(board, Color::Black).contains(
            (x as usize, y as usize, kind.spec_index() as usize),
        ),
{
    let both = white + black;
    assert forall|i: int, j: int|
        0 <= i < white.len() && 0 <= j < white.len() && i != j implies !((
    #[trigger] white[i]).1 == (#[trigger] white[j]).1 && white[i].2 == white[j].2) by {
        assert(both[i] == white[i] && both[j] == white[j]);
    }
    assert forall|i: int, j: int|
        0 <= i < black.len() && 0 <= j < black.len() && i != j implies !((
    #[trigger] black[i]).1 == (#[trigger] black[j]).1 && black[i].2 == black[j].2) by {
        assert(both[white.len() + i] == black[i] && both[white.len() + j] == black[j]);
    }
    lemma_last_at_of_distinct_cells(white, kind, x, y);
    lemma_last_at_of_distinct_cells(black, kind, x, y);
    lemma_last_at_is_an_entry(white, x as int, y as int);
    lemma_last_at_is_an_entry(black, x as int, y as int);
    lemma_placements_show_the_board(board, Color::White, kind, x as usize, y as usize);
    lemma_placements_show_the_board(board, Color::Black, kind, x as usize, y as usize);
    assert(board.spec_cell(x as int, y as int) == snapshot_cell(white, black, x as int, y as int));
    if let Some(kw) = last_at(white, x as int, y as int) {
        if let Some(kb) = last_at(black, x as int, y as int) {
            let i = choose|i: int|
                0 <= i < white.len() && #[trigger] white[i] == (kw, x as int as u8, y as int as u8)
                    && white[i].1 == x as int && white[i].2 == y as int;
            let j = choose|j: int|
                0 <= j < black.len() && #[trigger] black[j] == (kb, x as int as u8, y as int as u8)
                    && black[j].1 == x as int && black[j].2 == y as int;
            assert(both[i] == white[i] && both[white.len() + j] == black[j]);
            assert(false);
        }
    }
}

} // verus!
