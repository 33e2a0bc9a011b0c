use chess_session::board::Board;
use chess_session::host::{HostGame, HostState, Side};
use chess_session::message::{
    ClientHello, ClientMessage, Feature, GameStatus, HostMessage, Move, UNSET,
};
use chess_session::oracle::{default_promotion, low_byte, OracleCall, OracleStatus, Phase};
use chess_session::piece::{Color, Piece, PieceKind};

fn starting_side(back: u8, pawns: u8) -> Vec<(PieceKind, u8, u8)> {
    let order = [
        PieceKind::Rook,
        PieceKind::Knight,
        PieceKind::Bishop,
        PieceKind::Queen,
        PieceKind::King,
        PieceKind::Bishop,
        PieceKind::Knight,
        PieceKind::Rook,
    ];
    let mut list = Vec::new();
    for (x, kind) in order.iter().enumerate() {
        list.push((*kind, x as u8, back));
    }
    for x in 0..8u8 {
        list.push((PieceKind::Pawn, x, pawns));
    }
    list
}

fn starting_board() -> Board {
    Board::from_positions(&starting_side(0, 1), &starting_side(7, 6))
}

fn status(phase: Phase, player: Color) -> OracleStatus {
    OracleStatus { phase, player }
}

fn connected(preferred: Color) -> HostGame {
    let mut game = HostGame::new();
    let hello = ClientHello { preferred_color: preferred };
    assert!(game.on_client_hello(&hello, starting_board()).is_some());
    game
}

fn step_to(move_from: (usize, usize), move_to: (usize, usize)) -> Move {
    Move {
        start_x: move_from.0,
        start_y: move_from.1,
        end_x: move_to.0,
        end_y: move_to.1,
        promotion: Piece::Empty,
    }
}

#[test]
fn a_fresh_host_waits_for_a_connection() {
    let game = HostGame::new();
    assert_eq!(game.state, HostState::WaitingForConnection);
    assert!(!game.client_connected);
    assert!(!game.game_end);
    assert!(!game.promoting);
    assert!(game.host_turn);
    assert_eq!(game.selected_prom, PieceKind::Pawn);
    assert!(game.received_move.is_unset());
    assert!(!game.start_selected);
    assert!(game.made_move.is_unset());
    assert_eq!(game.made_move, step_to((UNSET, UNSET), (UNSET, UNSET)));
    assert!(!game.can_pick());
    assert!(!game.has_outbound());
    assert!(!game.awaits_client_message());
    assert_eq!(game.state.turn_owner(), None);
}

#[test]
fn client_prefers_black_and_the_host_moves_first() {
    let mut game = HostGame::new();
    let hello = ClientHello { preferred_color: Color::Black };
    let greeting = game.on_client_hello(&hello, starting_board()).unwrap();
    assert_eq!(greeting.board, starting_board());
    assert_eq!(greeting.status, GameStatus::Ongoing);
    assert_eq!(greeting.features, vec![Feature::EnPassant, Feature::Castling]);
    assert!(greeting.moves.is_empty());
    assert_eq!(greeting.board.get(4, 0), Some(Piece::WhiteKing));
    assert_eq!(greeting.board.get(4, 7), Some(Piece::BlackKing));
    assert_eq!(game.state, HostState::HostIsPlaying);
    assert!(game.host_turn);
    assert!(game.client_connected);
    assert_eq!(game.state.turn_owner(), Some(Side::Host));
}

#[test]
fn a_client_that_prefers_white_moves_first() {
    let game = connected(Color::White);
    assert_eq!(game.state, HostState::ClientIsPlaying);
    assert!(!game.host_turn);
    assert!(game.awaits_client_message());
    assert_eq!(game.state.turn_owner(), Some(Side::Client));
}

#[test]
fn a_second_greeting_changes_nothing() {
    let mut game = connected(Color::Black);
    let before = game;
    let hello = ClientHello { preferred_color: Color::White };
    assert_eq!(game.on_client_hello(&hello, starting_board()), None);
    assert_eq!(game, before);
}

#[test]
fn host_moves_a_pawn_and_the_turn_passes_to_the_client() {
    let mut game = connected(Color::Black);
    assert!(game.can_pick());

    assert_eq!(game.pick_call(Phase::SelectPiece, 4, 1), OracleCall::SelectPiece(4, 1));
    game.on_pick_result(
        4,
        1,
        status(Phase::SelectPiece, Color::White),
        status(Phase::SelectMove, Color::White),
    );
    assert_eq!(game.state, HostState::HostIsPlaying);
    assert_eq!(game.made_move, step_to((4, 1), (UNSET, UNSET)));

    assert_eq!(game.pick_call(Phase::SelectMove, 4, 3), OracleCall::SelectMove(4, 3));
    game.on_pick_result(
        4,
        3,
        status(Phase::SelectMove, Color::White),
        status(Phase::SelectPiece, Color::Black),
    );
    assert_eq!(game.state, HostState::PreparingBroadcastAfterHostMove);
    assert_eq!(game.made_move, step_to((4, 1), (4, 3)));
    assert!(game.has_outbound());
    assert!(game.host_turn);

    let mut after = starting_board();
    after.set(4, 1, Piece::Empty);
    after.set(4, 3, Piece::WhitePawn);
    let message = game.outbound(after).unwrap();
    assert_eq!(
        message,
        HostMessage::State {
            board: after,
            moves: Vec::new(),
            status: GameStatus::Ongoing,
            last_move: step_to((4, 1), (4, 3)),
        }
    );
    assert_eq!(message.board().get(4, 3), Some(Piece::WhitePawn));
    assert_eq!(message.board().get(4, 1), Some(Piece::Empty));
    assert_eq!(game.state, HostState::ClientIsPlaying);
    assert!(!game.host_turn);
    assert!(game.made_move.is_unset());
    assert!(!game.has_outbound());
}

#[test]
fn client_move_from_an_empty_cell_is_rejected() {
    let mut game = connected(Color::White);
    let before = game;
    game.on_client_message(&ClientMessage::Move(step_to((4, 4), (4, 5))));
    assert_eq!(game.state, HostState::ValidatingClientMove);
    assert_eq!(game.received_move, step_to((4, 4), (4, 5)));

    assert!(!game.start_selected);
    assert_eq!(game.validation_call(), OracleCall::SelectPiece(4, 4));
    game.on_validation_result(
        status(Phase::SelectPiece, Color::White),
        status(Phase::SelectPiece, Color::White),
    );
    assert_eq!(game.state, HostState::ClientMoveRejected);
    assert!(game.has_outbound());

    let notice = game.outbound(starting_board()).unwrap();
    assert_eq!(
        notice,
        HostMessage::Error {
            board: starting_board(),
            moves: Vec::new(),
            status: GameStatus::Ongoing,
            message: String::from("Bad move."),
        }
    );
    assert_eq!(game.state, HostState::ClientIsPlaying);
    assert_eq!(game.host_turn, before.host_turn);
    assert!(!game.host_turn);
    assert!(game.awaits_client_message());
}

#[test]
fn a_client_move_to_an_illegal_destination_is_rejected() {
    let mut game = connected(Color::White);
    game.on_client_message(&ClientMessage::Move(step_to((4, 1), (4, 6))));
    game.on_validation_result(
        status(Phase::SelectPiece, Color::White),
        status(Phase::SelectMove, Color::White),
    );
    assert_eq!(game.state, HostState::ValidatingClientMove);
    assert!(game.start_selected);
    assert_eq!(game.validation_call(), OracleCall::SelectMove(4, 6));
    game.on_validation_result(
        status(Phase::SelectMove, Color::White),
        status(Phase::SelectMove, Color::White),
    );
    assert_eq!(game.state, HostState::ClientMoveRejected);
    assert!(matches!(game.outbound(starting_board()), Some(HostMessage::Error { .. })));
    assert_eq!(game.state, HostState::ClientIsPlaying);
}

#[test]
fn an_accepted_client_move_passes_the_turn_to_the_host() {
    let mut game = connected(Color::White);
    let sent = Move { start_x: 4, start_y: 1, end_x: 4, end_y: 3, promotion: Piece::WhiteQueen };
    game.on_client_message(&ClientMessage::Move(sent));
    assert_eq!(game.received_move, step_to((4, 1), (4, 3)));
    game.on_validation_result(
        status(Phase::SelectPiece, Color::White),
        status(Phase::SelectMove, Color::White),
    );
    game.on_validation_result(
        status(Phase::SelectMove, Color::White),
        status(Phase::SelectPiece, Color::Black),
    );
    assert_eq!(game.state, HostState::PreparingResponseToClient);
    assert!(!game.host_turn);

    let mut after = starting_board();
    after.set(4, 1, Piece::Empty);
    after.set(4, 3, Piece::WhitePawn);
    let message = game.outbound(after).unwrap();
    assert_eq!(
        message,
        HostMessage::State {
            board: after,
            moves: Vec::new(),
            status: GameStatus::Ongoing,
            last_move: step_to((4, 1), (4, 3)),
        }
    );
    assert_eq!(game.state, HostState::HostIsPlaying);
    assert!(game.host_turn);
    assert!(game.received_move.is_unset());
    assert_eq!(game.received_move, step_to((UNSET, UNSET), (UNSET, UNSET)));
    assert!(!game.start_selected);
}

#[test]
fn host_pawn_reaches_the_last_rank_and_becomes_a_queen() {
    let mut game = connected(Color::Black);
    game.on_pick_result(
        0,
        6,
        status(Phase::SelectPiece, Color::White),
        status(Phase::SelectMove, Color::White),
    );
    game.on_pick_result(
        0,
        7,
        status(Phase::SelectMove, Color::White),
        status(Phase::SelectPromotion, Color::White),
    );
    assert_eq!(game.state, HostState::AwaitingHostPromotionChoice);
    assert_eq!(game.made_move, step_to((0, 6), (0, 7)));
    assert!(game.promoting);
    assert!(!game.has_outbound());
    assert!(!game.can_pick());

    let waiting = game;
    assert_eq!(game.on_observation(Phase::SelectPromotion), OracleCall::Nothing);
    assert_eq!(game.outbound(Board::empty()), None);
    assert_eq!(game, waiting);

    let call = game.on_promotion_key(PieceKind::Queen);
    assert_eq!(call, OracleCall::SelectPromotion(PieceKind::Queen));
    assert_eq!(game.state, HostState::PreparingBroadcastAfterHostMove);
    assert_eq!(game.selected_prom, PieceKind::Queen);
    assert!(!game.promoting);
    assert!(game.host_turn);

    let mut after = Board::empty();
    after.set(0, 7, Piece::of(Color::White, PieceKind::Queen));
    let message = game.outbound(after).unwrap();
    assert_eq!(message.board().get(0, 7), Some(Piece::WhiteQueen));
    assert_eq!(message.status(), GameStatus::Ongoing);
    assert_eq!(game.state, HostState::ClientIsPlaying);
    assert!(!game.host_turn);
}

#[test]
fn a_client_promotion_is_resolved_with_the_default_piece() {
    let mut game = connected(Color::White);
    game.on_client_message(&ClientMessage::Move(step_to((0, 6), (0, 7))));
    game.on_validation_result(
        status(Phase::SelectPiece, Color::White),
        status(Phase::SelectMove, Color::White),
    );
    game.on_validation_result(
        status(Phase::SelectMove, Color::White),
        status(Phase::SelectPromotion, Color::White),
    );
    assert_eq!(game.state, HostState::AwaitingClientPromotionChoice);
    assert_eq!(
        game.on_observation(Phase::SelectPromotion),
        OracleCall::SelectPromotion(default_promotion())
    );
    assert_eq!(default_promotion(), PieceKind::Queen);
    assert_eq!(game.state, HostState::PreparingResponseToClient);
    assert!(matches!(game.outbound(Board::empty()), Some(HostMessage::State { .. })));
    assert_eq!(game.state, HostState::HostIsPlaying);
    assert!(game.host_turn);
}

#[test]
fn a_promotion_phase_outside_the_promotion_states_asks_for_no_call() {
    let mut game = connected(Color::White);
    let before = game;
    assert_eq!(game.on_observation(Phase::SelectPromotion), OracleCall::Nothing);
    assert_eq!(game, before);
    assert_eq!(game.on_observation(Phase::SelectPiece), OracleCall::Nothing);
    assert_eq!(game.on_observation(Phase::SelectMove), OracleCall::Nothing);
    assert_eq!(game.on_observation(Phase::Other), OracleCall::Nothing);
    assert_eq!(game, before);
}

#[test]
fn checkmate_ends_the_game_in_any_state() {
    let mut waiting = HostGame::new();
    assert_eq!(waiting.on_observation(Phase::CheckMate), OracleCall::Nothing);
    assert!(waiting.game_end);
    assert_eq!(waiting.state, HostState::WaitingForConnection);

    let mut playing = connected(Color::Black);
    playing.on_observation(Phase::CheckMate);
    assert!(playing.game_end);
    assert_eq!(playing.state, HostState::HostIsPlaying);
    assert!(!playing.can_pick());
    playing.on_observation(Phase::SelectPiece);
    assert!(playing.game_end);
}

#[test]
fn the_reported_status_follows_the_end_of_game_flag() {
    let mut game = connected(Color::White);
    game.on_client_message(&ClientMessage::Move(step_to((4, 4), (4, 5))));
    game.on_observation(Phase::CheckMate);
    game.on_validation_result(
        status(Phase::SelectPiece, Color::White),
        status(Phase::SelectPiece, Color::White),
    );
    let notice = game.outbound(Board::empty()).unwrap();
    assert_eq!(notice.status(), GameStatus::Indeterminate);
    assert_eq!(GameStatus::reported(false), GameStatus::Ongoing);
    assert_eq!(GameStatus::reported(true), GameStatus::Indeterminate);
    assert!(GameStatus::Indeterminate.is_terminal());
    assert!(GameStatus::Draw.is_terminal());
    assert!(GameStatus::White.is_terminal());
    assert!(GameStatus::Black.is_terminal());
    assert!(!GameStatus::Ongoing.is_terminal());
}

#[test]
fn draw_and_resignation_end_the_game_and_keep_the_state() {
    let mut game = connected(Color::White);
    game.on_client_message(&ClientMessage::Draw);
    assert!(game.game_end);
    assert_eq!(game.state, HostState::ClientIsPlaying);

    let mut other = connected(Color::White);
    other.on_client_message(&ClientMessage::Resign);
    assert!(other.game_end);
    assert_eq!(other.state, HostState::ClientIsPlaying);
}

#[test]
fn a_client_message_out_of_turn_changes_nothing() {
    let mut game = connected(Color::Black);
    let before = game;
    game.on_client_message(&ClientMessage::Move(step_to((4, 6), (4, 4))));
    assert_eq!(game, before);
    game.on_client_message(&ClientMessage::Resign);
    assert_eq!(game, before);
}

#[test]
fn a_rejected_click_of_the_host_changes_nothing() {
    let mut game = connected(Color::Black);
    let before = game;
    game.on_pick_result(
        4,
        4,
        status(Phase::SelectPiece, Color::White),
        status(Phase::SelectPiece, Color::White),
    );
    assert_eq!(game, before);
    game.on_pick_result(
        4,
        1,
        status(Phase::SelectPiece, Color::White),
        status(Phase::SelectMove, Color::White),
    );
    let chosen = game;
    game.on_pick_result(
        4,
        6,
        status(Phase::SelectMove, Color::White),
        status(Phase::SelectMove, Color::White),
    );
    assert_eq!(game, chosen);
    assert_eq!(game.state, HostState::HostIsPlaying);
}

#[test]
fn clicks_do_not_count_when_it_is_not_the_hosts_turn() {
    let mut game = connected(Color::White);
    let before = game;
    assert!(!game.can_pick());
    assert_eq!(game.pick_call(Phase::SelectPiece, 4, 1), OracleCall::Nothing);
    game.on_pick_result(
        4,
        1,
        status(Phase::SelectPiece, Color::White),
        status(Phase::SelectMove, Color::White),
    );
    assert_eq!(game, before);

    let mut promoting = connected(Color::Black);
    promoting.promoting = true;
    assert!(!promoting.can_pick());
    assert_eq!(promoting.pick_call(Phase::SelectMove, 1, 1), OracleCall::Nothing);
}

#[test]
fn validation_asks_for_the_start_cell_first_and_then_for_the_destination() {
    let mut game = connected(Color::White);
    assert_eq!(game.validation_call(), OracleCall::Nothing);
    game.on_client_message(&ClientMessage::Move(step_to((1, 2), (3, 4))));
    assert_eq!(game.validation_call(), OracleCall::SelectPiece(1, 2));
    game.on_validation_result(
        status(Phase::SelectPiece, Color::White),
        status(Phase::SelectMove, Color::White),
    );
    assert_eq!(game.state, HostState::ValidatingClientMove);
    assert_eq!(game.validation_call(), OracleCall::SelectMove(3, 4));
    game.on_validation_result(
        status(Phase::SelectMove, Color::White),
        status(Phase::SelectPiece, Color::Black),
    );
    assert_eq!(game.state, HostState::PreparingResponseToClient);
    assert_eq!(game.validation_call(), OracleCall::Nothing);
    let before = game;
    game.on_validation_result(
        status(Phase::SelectPiece, Color::White),
        status(Phase::SelectPiece, Color::White),
    );
    assert_eq!(game, before);
}

#[test]
fn a_move_after_a_refused_destination_is_validated_from_its_own_start_cell() {
    let mut game = connected(Color::White);
    game.on_client_message(&ClientMessage::Move(step_to((4, 1), (4, 6))));
    game.on_validation_result(
        status(Phase::SelectPiece, Color::White),
        status(Phase::SelectMove, Color::White),
    );
    game.on_validation_result(
        status(Phase::SelectMove, Color::White),
        status(Phase::SelectMove, Color::White),
    );
    assert_eq!(game.state, HostState::ClientMoveRejected);
    assert!(!game.start_selected);
    assert!(matches!(game.outbound(starting_board()), Some(HostMessage::Error { .. })));

    game.on_client_message(&ClientMessage::Move(step_to((3, 1), (3, 3))));
    assert_eq!(game.validation_call(), OracleCall::SelectPiece(3, 1));
    game.on_validation_result(
        status(Phase::SelectMove, Color::White),
        status(Phase::SelectMove, Color::White),
    );
    assert_eq!(game.validation_call(), OracleCall::SelectMove(3, 3));
    game.on_validation_result(
        status(Phase::SelectMove, Color::White),
        status(Phase::SelectPiece, Color::Black),
    );
    assert_eq!(game.state, HostState::PreparingResponseToClient);
    let answer = game.outbound(starting_board()).unwrap();
    assert_eq!(
        answer,
        HostMessage::State {
            board: starting_board(),
            moves: Vec::new(),
            status: GameStatus::Ongoing,
            last_move: step_to((3, 1), (3, 3)),
        }
    );
}

#[test]
fn only_the_low_byte_of_a_coordinate_reaches_the_rules_engine() {
    assert_eq!(low_byte(0), 0);
    assert_eq!(low_byte(7), 7);
    assert_eq!(low_byte(255), 255);
    assert_eq!(low_byte(256), 0);
    assert_eq!(low_byte(259), 3);
    assert_eq!(low_byte(usize::MAX), 255);
    let mut game = connected(Color::White);
    game.on_client_message(&ClientMessage::Move(step_to((260, 513), (UNSET, 0))));
    assert_eq!(game.validation_call(), OracleCall::SelectPiece(4, 1));
    game.on_validation_result(
        status(Phase::SelectPiece, Color::White),
        status(Phase::SelectMove, Color::White),
    );
    assert_eq!(game.validation_call(), OracleCall::SelectMove(255, 0));
}

#[test]
fn a_promotion_key_counts_only_while_the_hosts_promotion_is_pending() {
    let mut game = connected(Color::Black);
    let playing = game;
    assert_eq!(game.on_promotion_key(PieceKind::Rook), OracleCall::Nothing);
    assert_eq!(game, playing);

    game.on_pick_result(
        0,
        6,
        status(Phase::SelectPiece, Color::White),
        status(Phase::SelectMove, Color::White),
    );
    game.on_pick_result(
        0,
        7,
        status(Phase::SelectMove, Color::White),
        status(Phase::SelectPromotion, Color::White),
    );
    let waiting = game;
    assert_eq!(game.on_promotion_key(PieceKind::King), OracleCall::Nothing);
    assert_eq!(game.on_promotion_key(PieceKind::Pawn), OracleCall::Nothing);
    assert_eq!(game, waiting);
    assert_eq!(game.on_promotion_key(PieceKind::Rook), OracleCall::SelectPromotion(PieceKind::Rook));
    assert_eq!(game.selected_prom, PieceKind::Rook);
    assert_eq!(game.state, HostState::PreparingBroadcastAfterHostMove);
    assert!(!game.promoting);
    let chosen = game;
    assert_eq!(game.on_promotion_key(PieceKind::Queen), OracleCall::Nothing);
    assert_eq!(game, chosen);

    let mut client_promotes = connected(Color::White);
    client_promotes.state = HostState::AwaitingClientPromotionChoice;
    assert_eq!(client_promotes.on_promotion_key(PieceKind::Queen), OracleCall::Nothing);
    assert_eq!(client_promotes.state, HostState::AwaitingClientPromotionChoice);
}

#[test]
fn no_message_is_due_while_somebody_is_to_move() {
    let mut game = connected(Color::Black);
    let before = game;
    assert_eq!(game.outbound(starting_board()), None);
    assert_eq!(game, before);
    let mut waiting = HostGame::new();
    assert_eq!(waiting.outbound(starting_board()), None);
    assert_eq!(waiting, HostGame::new());
}

#[test]
fn turns_alternate_over_two_accepted_moves() {
    let mut game = connected(Color::Black);
    game.on_pick_result(
        4,
        1,
        status(Phase::SelectPiece, Color::White),
        status(Phase::SelectMove, Color::White),
    );
    game.on_pick_result(
        4,
        3,
        status(Phase::SelectMove, Color::White),
        status(Phase::SelectPiece, Color::Black),
    );
    game.outbound(starting_board());
    assert!(!game.host_turn);
    game.on_client_message(&ClientMessage::Move(step_to((4, 6), (4, 4))));
    game.on_validation_result(
        status(Phase::SelectPiece, Color::Black),
        status(Phase::SelectMove, Color::Black),
    );
    game.on_validation_result(
        status(Phase::SelectMove, Color::Black),
        status(Phase::SelectPiece, Color::White),
    );
    game.outbound(starting_board());
    assert!(game.host_turn);
    assert_eq!(game.state, HostState::HostIsPlaying);
}

#[test]
fn the_host_is_told_how_the_game_stands() {
    let mut game = connected(Color::Black);
    assert_eq!(game.status_line(), "You are playing.");
    game.host_turn = false;
    assert_eq!(game.status_line(), "Client is playing.");
    game.game_end = true;
    assert_eq!(game.status_line(), "You win!");
    game.host_turn = true;
    assert_eq!(game.status_line(), "You lose!");
}

#[test]
fn moves_are_built_from_two_cells() {
    assert_eq!(Move::between((1, 2), (3, 4)), step_to((1, 2), (3, 4)));
    assert_eq!(Move::unset(), step_to((UNSET, UNSET), (UNSET, UNSET)));
    assert!(Move::unset().is_unset());
    assert!(!Move::between((UNSET, UNSET), (UNSET, 0)).is_unset());
    assert_eq!(UNSET, usize::MAX);
}
