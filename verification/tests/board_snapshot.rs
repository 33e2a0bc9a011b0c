use chess_session::board::{light_tile, positions_on_board, Board};
use chess_session::piece::{Color, Piece, PieceKind};

fn back_rank() -> [PieceKind; 8] {
    [
        PieceKind::Rook,
        PieceKind::Knight,
        PieceKind::Bishop,
        PieceKind::Queen,
        PieceKind::King,
        PieceKind::Bishop,
        PieceKind::Knight,
        PieceKind::Rook,
    ]
}

fn starting_side(back: u8, pawns: u8) -> Vec<(PieceKind, u8, u8)> {
    let mut list = Vec::new();
    for (x, kind) in back_rank().iter().enumerate() {
        list.push((*kind, x as u8, back));
    }
    for x in 0..8u8 {
        list.push((PieceKind::Pawn, x, pawns));
    }
    list
}

fn starting_board() -> Board {
    Board::from_positions(&starting_side(0, 1), &starting_side(7, 6))
}

#[test]
fn empty_board_has_no_piece_anywhere() {
    let board = Board::empty();
    for y in 0..8 {
        for x in 0..8 {
            assert_eq!(board.get(x, y), Some(Piece::Empty));
        }
    }
}

#[test]
fn get_off_the_board_gives_nothing() {
    let board = Board::empty();
    assert_eq!(board.get(8, 0), None);
    assert_eq!(board.get(0, 8), None);
    assert_eq!(board.get(usize::MAX, usize::MAX), None);
}

#[test]
fn set_places_a_piece_on_one_cell_only() {
    let mut board = Board::empty();
    assert!(board.set(3, 5, Piece::WhiteKing));
    for y in 0..8 {
        for x in 0..8 {
            let expected = if (x, y) == (3, 5) { Piece::WhiteKing } else { Piece::Empty };
            assert_eq!(board.get(x, y), Some(expected));
        }
    }
    assert_eq!(board.cells[5 * 8 + 3], Piece::WhiteKing);
}

#[test]
fn set_off_the_board_changes_nothing() {
    let mut board = starting_board();
    let before = board;
    assert!(!board.set(8, 3, Piece::BlackQueen));
    assert!(!board.set(3, 8, Piece::BlackQueen));
    assert_eq!(board, before);
}

#[test]
fn snapshot_of_the_starting_position() {
    let board = starting_board();
    assert_eq!(board.get(0, 0), Some(Piece::WhiteRook));
    assert_eq!(board.get(1, 0), Some(Piece::WhiteKnight));
    assert_eq!(board.get(2, 0), Some(Piece::WhiteBishop));
    assert_eq!(board.get(3, 0), Some(Piece::WhiteQueen));
    assert_eq!(board.get(4, 0), Some(Piece::WhiteKing));
    assert_eq!(board.get(7, 0), Some(Piece::WhiteRook));
    assert_eq!(board.get(4, 7), Some(Piece::BlackKing));
    assert_eq!(board.get(3, 7), Some(Piece::BlackQueen));
    for x in 0..8 {
        assert_eq!(board.get(x, 1), Some(Piece::WhitePawn));
        assert_eq!(board.get(x, 6), Some(Piece::BlackPawn));
        for y in 2..6 {
            assert_eq!(board.get(x, y), Some(Piece::Empty));
        }
    }
}

#[test]
fn snapshot_puts_white_over_black_and_later_entries_over_earlier_ones() {
    let white = vec![(PieceKind::Pawn, 2, 2), (PieceKind::Queen, 2, 2)];
    let black = vec![(PieceKind::King, 2, 2), (PieceKind::Rook, 5, 5), (PieceKind::Knight, 5, 5)];
    let board = Board::from_positions(&white, &black);
    assert_eq!(board.get(2, 2), Some(Piece::WhiteQueen));
    assert_eq!(board.get(5, 5), Some(Piece::BlackKnight));
    assert_eq!(board.get(0, 0), Some(Piece::Empty));
}

#[test]
fn position_lists_are_checked_against_the_board_edge() {
    assert!(positions_on_board(&starting_side(0, 1)));
    assert!(positions_on_board(&Vec::new()));
    assert!(!positions_on_board(&vec![(PieceKind::Pawn, 8, 0)]));
    assert!(!positions_on_board(&vec![(PieceKind::Pawn, 0, 0), (PieceKind::Pawn, 0, 8)]));
}

#[test]
fn codes_of_the_starting_position() {
    let codes = starting_board().to_codes();
    let mut expected: Vec<u8> = vec![9, 7, 8, 10, 11, 8, 7, 9];
    expected.extend(vec![6u8; 8]);
    expected.extend(vec![12u8; 32]);
    expected.extend(vec![0u8; 8]);
    expected.extend(vec![3u8, 1, 2, 4, 5, 2, 1, 3]);
    assert_eq!(codes, expected);
}

#[test]
fn a_snapshot_round_trip_reproduces_all_64_cells() {
    let mut board = starting_board();
    board.set(4, 1, Piece::Empty);
    board.set(4, 3, Piece::WhitePawn);
    let decoded = Board::from_codes(&board.to_codes()).unwrap();
    for y in 0..8 {
        for x in 0..8 {
            assert_eq!(decoded.get(x, y), board.get(x, y));
        }
    }
    assert_eq!(decoded, board);
}

#[test]
fn codes_of_the_wrong_length_do_not_decode() {
    assert_eq!(Board::from_codes(&vec![12u8; 63]), None);
    assert_eq!(Board::from_codes(&vec![12u8; 65]), None);
    assert_eq!(Board::from_codes(&Vec::new()), None);
}

#[test]
fn an_unknown_code_does_not_decode() {
    let mut codes = vec![12u8; 64];
    codes[63] = 13;
    assert_eq!(Board::from_codes(&codes), None);
    codes[63] = 11;
    let board = Board::from_codes(&codes).unwrap();
    assert_eq!(board.get(7, 7), Some(Piece::WhiteKing));
}

#[test]
fn derived_lists_of_the_starting_position() {
    let board = starting_board();
    let white = board.placements(Color::White);
    let black = board.placements(Color::Black);
    let mut expected_white = vec![
        (0, 0, 1),
        (1, 0, 2),
        (2, 0, 3),
        (3, 0, 4),
        (4, 0, 5),
        (5, 0, 3),
        (6, 0, 2),
        (7, 0, 1),
    ];
    for x in 0..8 {
        expected_white.push((x, 1, 0));
    }
    assert_eq!(white, expected_white);
    let mut expected_black = Vec::new();
    for x in 0..8 {
        expected_black.push((x, 6, 0));
    }
    expected_black.extend(vec![
        (0, 7, 1),
        (1, 7, 2),
        (2, 7, 3),
        (3, 7, 4),
        (4, 7, 5),
        (5, 7, 3),
        (6, 7, 2),
        (7, 7, 1),
    ]);
    assert_eq!(black, expected_black);
}

#[test]
fn derived_lists_hold_what_the_position_lists_held() {
    let white = starting_side(0, 1);
    let black = starting_side(7, 6);
    let board = Board::from_positions(&white, &black);
    let derived_white = board.placements(Color::White);
    let derived_black = board.placements(Color::Black);
    assert_eq!(derived_white.len(), white.len());
    assert_eq!(derived_black.len(), black.len());
    for (kind, x, y) in white {
        assert!(derived_white.contains(&(x as usize, y as usize, kind.index())));
    }
    for (kind, x, y) in black {
        assert!(derived_black.contains(&(x as usize, y as usize, kind.index())));
    }
}

#[test]
fn deriving_twice_from_one_snapshot_gives_the_same_lists() {
    let board = starting_board();
    assert_eq!(board.placements(Color::White), board.placements(Color::White));
    assert_eq!(board.placements(Color::Black), board.placements(Color::Black));
}

#[test]
fn tiles_alternate_from_a_light_corner() {
    assert!(light_tile(0, 0));
    assert!(!light_tile(1, 0));
    assert!(!light_tile(0, 1));
    assert!(light_tile(1, 1));
    assert!(light_tile(7, 7));
    assert!(!light_tile(7, 0));
}

#[test]
fn a_snapshot_is_refused_where_a_piece_lies_off_the_board() {
    let on = vec![(PieceKind::King, 4, 0)];
    let off = vec![(PieceKind::King, 4, 8)];
    assert_eq!(Board::snapshot(&on, &on), Some(Board::from_positions(&on, &on)));
    assert_eq!(Board::snapshot(&off, &on), None);
    assert_eq!(Board::snapshot(&on, &off), None);
    assert_eq!(Board::snapshot(&starting_side(0, 1), &starting_side(7, 6)), Some(starting_board()));
}
