//! The session state machine of the hosting peer.
//!
//! The host owns the rules engine. The machine itself never touches it: it
//! says which call to make, is told what the engine reported before and
//! after, and decides from that alone.

use vstd::prelude::*;
use crate::board::Board;
use crate::message::{ClientHello, ClientMessage, GameStatus, HostHello, HostMessage, Move, Feature};
use crate::message::announced_features;
use crate::oracle::{OracleCall, OracleStatus, Phase};
use crate::oracle::{destination_refused, piece_refused, spec_default_promotion, spec_low_byte};
use crate::oracle::{default_promotion, low_byte};
use crate::piece::{Color, PieceKind};

verus! {

/// Where the host stands in the session.
#[derive(Clone, Copy, Debug, PartialEq, Eq, Structural)]
pub enum HostState {
    WaitingForConnection,
    HostIsPlaying,
    ClientIsPlaying,
    ValidatingClientMove,
    ClientMoveRejected,
    PreparingResponseToClient,
    PreparingBroadcastAfterHostMove,
    AwaitingHostPromotionChoice,
    AwaitingClientPromotionChoice,
}

/// One of the two peers.
#[derive(Clone, Copy, Debug, PartialEq, Eq, Structural)]
pub enum Side {
    Host,
    Client,
}

impl HostState {
    /// The peer whose move the state belongs to; `None` before a client has
    /// connected.
    pub open spec fn spec_turn_owner(self) -> Option<Side> {
        match self {
            HostState::WaitingForConnection => None,
            HostState::HostIsPlaying
            | HostState::AwaitingHostPromotionChoice
            | HostState::PreparingBroadcastAfterHostMove => Some(Side::Host),
            HostState::ClientIsPlaying
            | HostState::ValidatingClientMove
            | HostState::ClientMoveRejected
            | HostState::PreparingResponseToClient
            | HostState::AwaitingClientPromotionChoice => Some(Side::Client),
        }
    }

    /// The peer whose move the state belongs to; `None` before a client has
    /// connected.
    pub fn turn_owner(self) -> (r: Option<Side>)
        ensures
            r == self.spec_turn_owner(),
    {
        match self {
            HostState::WaitingForConnection => None,
            HostState::HostIsPlaying
            | HostState::AwaitingHostPromotionChoice
            | HostState::PreparingBroadcastAfterHostMove => Some(Side::Host),
            HostState::ClientIsPlaying
            | HostState::ValidatingClientMove
            | HostState::ClientMoveRejected
            | HostState::PreparingResponseToClient
            | HostState::AwaitingClientPromotionChoice => Some(Side::Client),
        }
    }
}

/// The game state that the host's network side and its input side share.
#[derive(Clone, Copy, Debug, PartialEq, Eq, Structural)]
pub struct HostGame {
    /// Set once the game is over; never cleared.
    pub game_end: bool,
    /// Whether the input side is asking for a promotion piece.
    pub promoting: bool,
    /// The promotion piece last chosen on the input side.
    pub selected_prom: PieceKind,
    /// Whether the next move is the host's.
    pub host_turn: bool,
    /// The client's move under validation.
    pub received_move: Move,
    /// Whether the start cell of the move under validation has been
    /// selected on the rules engine, so that its destination is due next.
    pub start_selected: bool,
    /// The host's own move as far as it has been entered.
    pub made_move: Move,
    /// Whether a client has connected.
    pub client_connected: bool,
    /// Where the session stands.
    pub state: HostState,
}

/// Something that happens to the host's session.
#[derive(Clone, Copy, Debug, PartialEq, Eq)]
pub enum HostEvent {
    /// The greeting of a client arrived.
    Hello(ClientHello),
    /// A message of the client arrived.
    Message(ClientMessage),
    /// The call asked for by `validation_call` was made; the rules engine
    /// reported the first status before it and the second after it.
    Validated(OracleStatus, OracleStatus),
    /// The rules engine reported this phase between two moves.
    Observed(Phase),
    /// The host clicked the cell at this file and rank, and the call asked
    /// for by `pick_call` was made between the two reports.
    Picked(usize, usize, OracleStatus, OracleStatus),
    /// The host pressed the key of a promotion piece, and the call asked
    /// for by `on_promotion_key` was made.
    PromotionChosen(PieceKind),
    /// The message that was due has been handed out for sending.
    Sent,
}

impl HostGame {
    /// The state of a session before anyone has connected.
    pub open spec fn spec_new() -> HostGame {
        HostGame {
            game_end: false,
            promoting: false,
            selected_prom: PieceKind::Pawn,
            host_turn: true,
            received_move: Move::spec_unset(),
            start_selected: false,
            made_move: Move::spec_unset(),
            client_connected: false,
            state: HostState::WaitingForConnection,
        }
    }

    /// The flags agree with the state: before a client has connected nobody
    /// is marked as connected, and afterwards the turn flag names the peer
    /// whose move the state belongs to; the input side asks for a promotion
    /// piece exactly while the host's own promotion is pending; and a start
    /// cell counts as selected only while a client move is under validation.
    pub open spec fn consistent(self) -> bool {
        &&& match self.state.spec_turn_owner() {
            None => !self.client_connected,
            Some(Side::Host) => self.client_connected && self.host_turn,
            Some(Side::Client) => self.client_connected && !self.host_turn,
        }
        &&& self.promoting <==> self.state == HostState::AwaitingHostPromotionChoice
        &&& self.start_selected ==> self.state == HostState::ValidatingClientMove
    }

    /// Whether the host may enter a move now.
    pub open spec fn host_may_move(self) -> bool {
        self.state == HostState::HostIsPlaying
    }

    /// Whether a move of the client is accepted for validation now.
    pub open spec fn client_may_move(self) -> bool {
        self.state == HostState::ClientIsPlaying
    }

    /// The state after the greeting of a client: white moves first, and the
    /// host plays white exactly when the client asked for black. Outside
    /// `WaitingForConnection` a greeting changes nothing.
    pub open spec fn spec_on_client_hello(self, hello: ClientHello) -> HostGame {
        if self.state == HostState::WaitingForConnection {
            let host_first = hello.preferred_color == Color::Black;
            HostGame {
                host_turn: host_first,
                client_connected: true,
                state: if host_first {
                    HostState::HostIsPlaying
                } else {
                    HostState::ClientIsPlaying
                },
                ..self
            }
        } else {
            self
        }
    }

    /// The state after a message of the client. While the client is to move,
    /// a move is kept for validation, without its promotion piece and with
    /// its start cell still to be selected, and a draw or a resignation ends
    /// the game. In any other state the message changes nothing.
    pub open spec fn spec_on_client_message(self, msg: ClientMessage) -> HostGame {
        if self.state == HostState::ClientIsPlaying {
            match msg {
                ClientMessage::Move(m) => HostGame {
                    received_move: Move::spec_between((m.start_x, m.start_y), (m.end_x, m.end_y)),
                    start_selected: false,
                    state: HostState::ValidatingClientMove,
                    ..self
                },
                ClientMessage::Draw => HostGame { game_end: true, ..self },
                ClientMessage::Resign => HostGame { game_end: true, ..self },
            }
        } else {
            self
        }
    }

    /// The call that is due in the validation of the client's move: the
    /// selection of its start cell first, and of its destination once that
    /// selection was accepted. Every move is validated from its own start
    /// cell, whatever the rules engine was left waiting for.
    pub open spec fn spec_validation_call(self) -> OracleCall {
        if self.state == HostState::ValidatingClientMove {
            if self.start_selected {
                OracleCall::SelectMove(
                    spec_low_byte(self.received_move.end_x),
                    spec_low_byte(self.received_move.end_y),
                )
            } else {
                OracleCall::SelectPiece(
                    spec_low_byte(self.received_move.start_x),
                    spec_low_byte(self.received_move.start_y),
                )
            }
        } else {
            OracleCall::Nothing
        }
    }

    /// The state after the validating call was made.
    pub open spec fn spec_on_validation_result(
        self,
        before: OracleStatus,
        after: OracleStatus,
    ) -> HostGame {
        if self.state == HostState::ValidatingClientMove {
            if !self.start_selected {
                if piece_refused(after) {
                    HostGame { state: HostState::ClientMoveRejected, ..self }
                } else {
                    HostGame { start_selected: true, ..self }
                }
            } else if after.phase == Phase::SelectPromotion {
                HostGame {
                    start_selected: false,
                    state: HostState::AwaitingClientPromotionChoice,
                    ..self
                }
            } else if destination_refused(before, after) {
                HostGame { start_selected: false, state: HostState::ClientMoveRejected, ..self }
            } else {
                HostGame {
                    start_selected: false,
                    state: HostState::PreparingResponseToClient,
                    ..self
                }
            }
        } else {
            self
        }
    }

    /// The call that answers a phase which the rules engine reports between
    /// two moves: a pending promotion of the client, who is not asked, is
    /// resolved with the default piece. The host's own promotion waits for
    /// the host's key.
    pub open spec fn spec_observation_call(self, phase: Phase) -> OracleCall {
        if phase == Phase::SelectPromotion && self.state
            == HostState::AwaitingClientPromotionChoice {
            OracleCall::SelectPromotion(spec_default_promotion())
        } else {
            OracleCall::Nothing
        }
    }

    /// The state after the rules engine reported a phase between two moves.
    /// Checkmate ends the game in every state. A pending promotion of the
    /// client is resolved towards the response that is due to it.
    pub open spec fn spec_on_observation(self, phase: Phase) -> HostGame {
        match phase {
            Phase::CheckMate => HostGame { game_end: true, ..self },
            Phase::SelectPromotion => if self.state == HostState::AwaitingClientPromotionChoice {
                HostGame { state: HostState::PreparingResponseToClient, ..self }
            } else {
                self
            },
            _ => self,
        }
    }

    /// Whether a click of the host on the board counts.
    pub open spec fn spec_can_pick(self) -> bool {
        !self.game_end && !self.promoting && self.state == HostState::HostIsPlaying
            && self.client_connected
    }

    /// The call that a click of the host on the cell at file `x` and rank
    /// `y` asks for.
    pub open spec fn spec_pick_call(self, phase: Phase, x: usize, y: usize) -> OracleCall {
        if self.spec_can_pick() {
            match phase {
                Phase::SelectPiece => OracleCall::SelectPiece(spec_low_byte(x), spec_low_byte(y)),
                Phase::SelectMove => OracleCall::SelectMove(spec_low_byte(x), spec_low_byte(y)),
                _ => OracleCall::Nothing,
            }
        } else {
            OracleCall::Nothing
        }
    }

    /// The state after the call of a click was made.
    pub open spec fn spec_on_pick_result(
        self,
        x: usize,
        y: usize,
        before: OracleStatus,
        after: OracleStatus,
    ) -> HostGame {
        if self.spec_can_pick() {
            match before.phase {
                Phase::SelectPiece => if piece_refused(after) {
                    self
                } else {
                    HostGame { made_move: Move { start_x: x, start_y: y, ..self.made_move }, ..self }
                },
                Phase::SelectMove => if after.phase == Phase::SelectPromotion {
                    HostGame {
                        made_move: Move { end_x: x, end_y: y, ..self.made_move },
                        promoting: true,
                        state: HostState::AwaitingHostPromotionChoice,
                        ..self
                    }
                } else if destination_refused(before, after) {
                    self
                } else {
                    HostGame {
                        made_move: Move { end_x: x, end_y: y, ..self.made_move },
                        state: HostState::PreparingBroadcastAfterHostMove,
                        ..self
                    }
                },
                _ => self,
            }
        } else {
            self
        }
    }

    /// Whether the key of a promotion piece counts: the host's own promotion
    /// is pending and a pawn may become that kind.
    pub open spec fn spec_promotion_key_counts(self, kind: PieceKind) -> bool {
        self.state == HostState::AwaitingHostPromotionChoice && kind.spec_is_promotion_target()
    }

    /// The call that the key of a promotion piece asks for.
    pub open spec fn spec_promotion_call(self, kind: PieceKind) -> OracleCall {
        if self.spec_promotion_key_counts(kind) {
            OracleCall::SelectPromotion(kind)
        } else {
            OracleCall::Nothing
        }
    }

    /// The state after the host pressed the key of a promotion piece: where
    /// the key counts, the kind is kept, the input side stops asking and the
    /// broadcast of the host's move is due.
    pub open spec fn spec_on_promotion_key(self, kind: PieceKind) -> HostGame {
        if self.spec_promotion_key_counts(kind) {
            HostGame {
                selected_prom: kind,
                promoting: false,
                state: HostState::PreparingBroadcastAfterHostMove,
                ..self
            }
        } else {
            self
        }
    }

    /// Whether a message to the client is due.
    pub open spec fn spec_has_outbound(self) -> bool {
        self.state == HostState::PreparingResponseToClient || self.state
            == HostState::ClientMoveRejected || self.state
            == HostState::PreparingBroadcastAfterHostMove
    }

    /// The state after the message that was due has been handed out.
    pub open spec fn spec_after_outbound(self) -> HostGame {
        match self.state {
            HostState::PreparingResponseToClient => HostGame {
                received_move: Move::spec_unset(),
                host_turn: true,
                state: HostState::HostIsPlaying,
                ..self
            },
            HostState::ClientMoveRejected => HostGame { state: HostState::ClientIsPlaying, ..self },
            HostState::PreparingBroadcastAfterHostMove => HostGame {
                made_move: Move::spec_unset(),
                host_turn: false,
                state: HostState::ClientIsPlaying,
                ..self
            },
            _ => self,
        }
    }

    /// Whether `msg` is the message that is due over the given board.
    pub open spec fn spec_is_outbound(self, board: Board, msg: HostMessage) -> bool {
        let status = GameStatus::spec_reported(self.game_end);
        match self.state {
            HostState::PreparingResponseToClient => msg.is_state_of(
                board,
                status,
                self.received_move,
            ),
            HostState::ClientMoveRejected => msg.is_rejection_of(board, status),
            HostState::PreparingBroadcastAfterHostMove => msg.is_state_of(
                board,
                status,
                self.made_move,
            ),
            _ => false,
        }
    }

    /// The line that tells the host how the game stands.
    pub open spec fn spec_status_line(self) -> Seq<char> {
        if self.game_end {
            if self.host_turn {
                "You lose!"@
            } else {
                "You win!"@
            }
        } else if self.host_turn {
            "You are playing."@
        } else {
            "Client is playing."@
        }
    }

    /// The state after an event.
    pub open spec fn step(self, event: HostEvent) -> HostGame {
        match event {
            HostEvent::Hello(hello) => self.spec_on_client_hello(hello),
            HostEvent::Message(msg) => self.spec_on_client_message(msg),
            HostEvent::Validated(before, after) => self.spec_on_validation_result(before, after),
            HostEvent::Observed(phase) => self.spec_on_observation(phase),
            HostEvent::Picked(x, y, before, after) => self.spec_on_pick_result(x, y, before, after),
            HostEvent::PromotionChosen(kind) => self.spec_on_promotion_key(kind),
            HostEvent::Sent => self.spec_after_outbound(),
        }
    }

    /// The state that a fresh session reaches through a sequence of events.
    pub open spec fn run(events: Seq<HostEvent>) -> HostGame
        decreases events.len(),
    {
        if events.len() == 0 {
            Self::spec_new()
        } else {
            Self::run(events.drop_last()).step(events.last())
        }
    }

    /// The state of a session before anyone has connected.
    pub fn new() -> (r: HostGame)
        ensures
            r == Self::spec_new(),
            r.consistent(),
    {
        HostGame {
            game_end: false,
            promoting: false,
            selected_prom: PieceKind::Pawn,
            host_turn: true,
            received_move: Move::unset(),
            start_selected: false,
            made_move: Move::unset(),
            client_connected: false,
            state: HostState::WaitingForConnection,
        }
    }

    /// Takes the greeting of a client. While the host waits for a
    /// connection, the turn order is fixed from the colour the client asked
    /// for and the greeting of the host over `board` is returned. In any
    /// other state nothing changes and nothing is returned.
    pub fn on_client_hello(&mut self, hello: &ClientHello, board: Board) -> (r: Option<HostHello>)
        ensures
            *final(self) == old(self).spec_on_client_hello(*hello),
            r.is_some() <==> old(self).state == HostState::WaitingForConnection,
            r matches Some(h) ==> h.is_opening(board),
            old(self).consistent() ==> final(self).consistent(),
    {
        if self.state == HostState::WaitingForConnection {
            let host_first = hello.preferred_color == Color::Black;
            self.host_turn = host_first;
            self.client_connected = true;
            self.state = if host_first {
                HostState::HostIsPlaying
            } else {
                HostState::ClientIsPlaying
            };
            let mut features: Vec<Feature> = Vec::new();
            features.push(Feature::EnPassant);
            features.push(Feature::Castling);
            assert(features@ =~= announced_features());
            Some(HostHello { features, board, moves: Vec::new(), status: GameStatus::Ongoing })
        } else {
            None
        }
    }

    /// Whether the network side should now wait for a message of the client.
    pub fn awaits_client_message(&self) -> (r: bool)
        ensures
            r == self.client_may_move(),
    {
        self.state == HostState::ClientIsPlaying
    }

    /// Takes a message of the client.
    pub fn on_client_message(&mut self, msg: &ClientMessage)
        ensures
            *final(self) == old(self).spec_on_client_message(*msg),
            old(self).consistent() ==> final(self).consistent(),
    {
        if self.state == HostState::ClientIsPlaying {
            match msg {
                ClientMessage::Move(m) => {
                    self.received_move = Move::between((m.start_x, m.start_y), (m.end_x, m.end_y));
                    self.start_selected = false;
                    self.state = HostState::ValidatingClientMove;
                },
                ClientMessage::Draw => {
                    self.game_end = true;
                },
                ClientMessage::Resign => {
                    self.game_end = true;
                },
            }
        }
    }

    /// The call to make on the rules engine next to validate the client's
    /// move: the selection of its start cell, then of its destination.
    pub fn validation_call(&self) -> (r: OracleCall)
        ensures
            r == self.spec_validation_call(),
    {
        if self.state == HostState::ValidatingClientMove {
            if self.start_selected {
                OracleCall::SelectMove(
                    low_byte(self.received_move.end_x),
                    low_byte(self.received_move.end_y),
                )
            } else {
                OracleCall::SelectPiece(
                    low_byte(self.received_move.start_x),
                    low_byte(self.received_move.start_y),
                )
            }
        } else {
            OracleCall::Nothing
        }
    }

    /// Takes what the rules engine reported before and after the validating
    /// call. A start cell that leaves the engine waiting for a piece, and a
    /// destination that leaves the side to move unchanged, reject the move;
    /// a pending promotion suspends it; otherwise it is accepted.
    pub fn on_validation_result(&mut self, before: OracleStatus, after: OracleStatus)
        ensures
            *final(self) == old(self).spec_on_validation_result(before, after),
            old(self).consistent() ==> final(self).consistent(),
    {
        if self.state == HostState::ValidatingClientMove {
            if !self.start_selected {
                if after.phase == Phase::SelectPiece {
                    self.state = HostState::ClientMoveRejected;
                } else {
                    self.start_selected = true;
                }
            } else {
                self.start_selected = false;
                if after.phase == Phase::SelectPromotion {
                    self.state = HostState::AwaitingClientPromotionChoice;
                } else if after.player == before.player {
                    self.state = HostState::ClientMoveRejected;
                } else {
                    self.state = HostState::PreparingResponseToClient;
                }
            }
        }
    }

    /// Takes the phase that the rules engine reports between two moves, and
    /// returns the call to make on it.
    pub fn on_observation(&mut self, phase: Phase) -> (r: OracleCall)
        ensures
            *final(self) == old(self).spec_on_observation(phase),
            r == old(self).spec_observation_call(phase),
            old(self).consistent() ==> final(self).consistent(),
    {
        match phase {
            Phase::CheckMate => {
                self.game_end = true;
                OracleCall::Nothing
            },
            Phase::SelectPromotion => {
                if self.state == HostState::AwaitingClientPromotionChoice {
                    self.state = HostState::PreparingResponseToClient;
                    OracleCall::SelectPromotion(default_promotion())
                } else {
                    OracleCall::Nothing
                }
            },
            _ => OracleCall::Nothing,
        }
    }

    /// Whether a click of the host on the board counts.
    pub fn can_pick(&self) -> (r: bool)
        ensures
            r == self.spec_can_pick(),
    {
        !self.game_end && !self.promoting && self.state == HostState::HostIsPlaying
            && self.client_connected
    }

    /// The call to make on the rules engine, which is in the given phase,
    /// for a click of the host on the cell at file `x` and rank `y`.
    pub fn pick_call(&self, phase: Phase, x: usize, y: usize) -> (r: OracleCall)
        ensures
            r == self.spec_pick_call(phase, x, y),
    {
        if self.can_pick() {
            match phase {
                Phase::SelectPiece => OracleCall::SelectPiece(low_byte(x), low_byte(y)),
                Phase::SelectMove => OracleCall::SelectMove(low_byte(x), low_byte(y)),
                _ => OracleCall::Nothing,
            }
        } else {
            OracleCall::Nothing
        }
    }

    /// Takes what the rules engine reported before and after the call of a
    /// click on the cell at file `x` and rank `y`. An accepted piece becomes
    /// the start of the host's move; an accepted destination completes it
    /// and makes the broadcast due, unless the engine then waits for a
    /// promotion piece: in that case the input side starts asking for one.
    pub fn on_pick_result(&mut self, x: usize, y: usize, before: OracleStatus, after: OracleStatus)
        ensures
            *final(self) == old(self).spec_on_pick_result(x, y, before, after),
            old(self).consistent() ==> final(self).consistent(),
    {
        if self.can_pick() {
            match before.phase {
                Phase::SelectPiece => {
                    if after.phase != Phase::SelectPiece {
                        self.made_move.start_x = x;
                        self.made_move.start_y = y;
                    }
                },
                Phase::SelectMove => {
                    if after.phase == Phase::SelectPromotion {
                        self.made_move.end_x = x;
                        self.made_move.end_y = y;
                        self.promoting = true;
                        self.state = HostState::AwaitingHostPromotionChoice;
                    } else if after.player != before.player {
                        self.made_move.end_x = x;
                        self.made_move.end_y = y;
                        self.state = HostState::PreparingBroadcastAfterHostMove;
                    }
                },
                _ => {},
            }
        }
    }

    /// Takes the promotion piece whose key the host pressed, and returns the
    /// call to make on the rules engine. The key counts while the host's own
    /// promotion is pending and a pawn may become that kind: then the
    /// promotion is resolved with it and the broadcast of the move is due.
    /// Otherwise nothing changes and no call is asked for.
    pub fn on_promotion_key(&mut self, kind: PieceKind) -> (r: OracleCall)
        ensures
            *final(self) == old(self).spec_on_promotion_key(kind),
            r == old(self).spec_promotion_call(kind),
            old(self).consistent() ==> final(self).consistent(),
    {
        if self.state == HostState::AwaitingHostPromotionChoice && kind.is_promotion_target() {
            self.selected_prom = kind;
            self.promoting = false;
            self.state = HostState::PreparingBroadcastAfterHostMove;
            OracleCall::SelectPromotion(kind)
        } else {
            OracleCall::Nothing
        }
    }

    /// The line that tells the host how the game stands: who is to move,
    /// or, once the game is over, that the peer who was to move has lost.
    pub fn status_line(&self) -> (r: String)
        ensures
            r@ == self.spec_status_line(),
    {
        if self.game_end {
            if self.host_turn {
                "You lose!".to_owned()
            } else {
                "You win!".to_owned()
            }
        } else if self.host_turn {
            "You are playing.".to_owned()
        } else {
            "Client is playing.".to_owned()
        }
    }

    /// Whether a message to the client is due.
    pub fn has_outbound(&self) -> (r: bool)
        ensures
            r == self.spec_has_outbound(),
    {
        self.state == HostState::PreparingResponseToClient || self.state
            == HostState::ClientMoveRejected || self.state
            == HostState::PreparingBroadcastAfterHostMove
    }

    /// Hands out the message that is due to the client, over the current
    /// snapshot `board` of the rules engine, and moves on: after an accepted
    /// move the turn passes to the other peer, after a rejected one it stays
    /// with the client. Where no message is due, nothing changes and
    /// nothing is returned.
    pub fn outbound(&mut self, board: Board) -> (r: Option<HostMessage>)
        ensures
            *final(self) == old(self).spec_after_outbound(),
            r.is_some() <==> old(self).spec_has_outbound(),
            r matches Some(m) ==> old(self).spec_is_outbound(board, m),
            old(self).consistent() ==> final(self).consistent(),
    {
        let status = GameStatus::reported(self.game_end);
        match self.state {
            HostState::PreparingResponseToClient => {
                let msg = HostMessage::state(board, status, self.received_move);
                self.received_move = Move::unset();
                self.host_turn = true;
                self.state = HostState::HostIsPlaying;
                Some(msg)
            },
            HostState::ClientMoveRejected => {
                let msg = HostMessage::rejection(board, status);
                self.state = HostState::ClientIsPlaying;
                Some(msg)
            },
            HostState::PreparingBroadcastAfterHostMove => {
                let msg = HostMessage::state(board, status, self.made_move);
                self.made_move = Move::unset();
                self.host_turn = false;
                self.state = HostState::ClientIsPlaying;
                Some(msg)
            },
            _ => None,
        }
    }
}

/// Every event keeps the turn flag in agreement with the state.
pub proof fn lemma_step_keeps_consistency(g: HostGame, event: HostEvent)
    requires
        g.consistent(),
    ensures
        g.step(event).consistent(),
{
}

/// In every state that a session can reach, the turn flag agrees with the
/// state.
pub proof fn lemma_reachable_states_are_consistent(events: Seq<HostEvent>)
    ensures
        HostGame::run(events).consistent(),
    decreases events.len(),
{
    if events.len() > 0 {
        lemma_reachable_states_are_consistent(events.drop_last());
        lemma_step_keeps_consistency(HostGame::run(events.drop_last()), events.last());
    }
}

/// In every reachable state with a client connected, the move belongs to
/// exactly one peer, the turn flag names that peer, and only that peer's
/// moves are taken.
pub proof fn lemma_turn_is_exclusive(events: Seq<HostEvent>)
    requires
        HostGame::run(events).client_connected,
    ensures
        ({
            let g = HostGame::run(events);
            &&& g.state.spec_turn_owner().is_some()
            &&& g.host_turn <==> g.state.spec_turn_owner() == Some(Side::Host)
            &&& !g.host_turn <==> g.state.spec_turn_owner() == Some(Side::Client)
            &&& g.host_may_move() ==> g.host_turn
            &&& g.client_may_move() ==> !g.host_turn
            &&& g.spec_can_pick() ==> g.host_turn
            &&& !(g.host_may_move() && g.client_may_move())
        }),
{
    lemma_reachable_states_are_consistent(events);
}

/// A client move that the rules engine turns down, at its start cell or at
/// its destination, changes nothing but the way back to the client: it
/// leads, whatever the board handed in, to the rejection notice over that
/// very board and to `ClientIsPlaying`, with the turn flag as it was. Until
/// the notice is out, the session asks for no call on the rules engine.
pub proof fn lemma_rejected_client_move_returns_to_client(
    g: HostGame,
    before: OracleStatus,
    after: OracleStatus,
    board: Board,
    notice: HostMessage,
)
    requires
        g.state == HostState::ValidatingClientMove,
        !g.start_selected && piece_refused(after) || g.start_selected && destination_refused(
            before,
            after,
        ),
    ensures
        ({
            let rejected = g.spec_on_validation_result(before, after);
            &&& rejected.state == HostState::ClientMoveRejected
            &&& rejected.spec_has_outbound()
            &&& rejected.spec_is_outbound(board, notice) <==> notice.is_rejection_of(
                board,
                GameStatus::spec_reported(g.game_end),
            )
            &&& rejected.spec_after_outbound() == HostGame {
                start_selected: false,
                state: HostState::ClientIsPlaying,
                ..g
            }
            &&& rejected.spec_validation_call() == OracleCall::Nothing
            &&& forall|phase: Phase| #[trigger]
                rejected.spec_observation_call(phase) == OracleCall::Nothing
            &&& forall|phase: Phase, x: usize, y: usize| #[trigger]
                rejected.spec_pick_call(phase, x, y) == OracleCall::Nothing
            &&& forall|kind: PieceKind| #[trigger]
                rejected.spec_promotion_call(kind) == OracleCall::Nothing
        }),
{
}

/// Every move of the client is validated from its own start cell: the first
/// call asked for after a move has been taken selects that cell, whatever
/// went before, and the destination is asked for only once that selection
/// was accepted.
pub proof fn lemma_validation_starts_at_the_start_cell(
    g: HostGame,
    m: Move,
    before: OracleStatus,
    after: OracleStatus,
)
    requires
        g.state == HostState::ClientIsPlaying,
    ensures
        ({
            let taken = g.spec_on_client_message(ClientMessage::Move(m));
            let next = taken.spec_on_validation_result(before, after);
            &&& taken.spec_validation_call() == OracleCall::SelectPiece(
                spec_low_byte(m.start_x),
                spec_low_byte(m.start_y),
            )
            &&& !piece_refused(after) ==> next.spec_validation_call() == OracleCall::SelectMove(
                spec_low_byte(m.end_x),
                spec_low_byte(m.end_y),
            )
            &&& piece_refused(after) ==> next.spec_validation_call() == OracleCall::Nothing
        }),
{
}

/// A client move whose two selections the rules engine accepts, with no
/// promotion pending, leads to exactly one broadcast, over the board handed
/// in and with the move as received; afterwards the host is to move and no
/// move is pending any more.
pub proof fn lemma_accepted_client_move_is_answered(
    g: HostGame,
    before_start: OracleStatus,
    after_start: OracleStatus,
    before_end: OracleStatus,
    after_end: OracleStatus,
    board: Board,
    answer: HostMessage,
)
    requires
        g.state == HostState::ValidatingClientMove,
        !g.start_selected,
        !piece_refused(after_start),
        after_end.phase != Phase::SelectPromotion,
        !destination_refused(before_end, after_end),
    ensures
        ({
            let accepted = g.spec_on_validation_result(
                before_start,
                after_start,
            ).spec_on_validation_result(before_end, after_end);
            let done = accepted.spec_after_outbound();
            &&& accepted.state == HostState::PreparingResponseToClient
            &&& accepted.spec_has_outbound()
            &&& accepted.spec_is_outbound(board, answer) <==> answer.is_state_of(
                board,
                GameStatus::spec_reported(g.game_end),
                g.received_move,
            )
            &&& done.state == HostState::HostIsPlaying
            &&& done.host_turn
            &&& done.received_move == Move::spec_unset()
            &&& !done.spec_has_outbound()
        }),
{
}

/// A click of the host that the rules engine turns down leaves the whole
/// state as it was, in `HostIsPlaying`.
pub proof fn lemma_rejected_click_leaves_the_host_playing(
    g: HostGame,
    x: usize,
    y: usize,
    before: OracleStatus,
    after: OracleStatus,
)
    requires
        g.spec_can_pick(),
        before.phase == Phase::SelectPiece && piece_refused(after) || before.phase
            == Phase::SelectMove && destination_refused(before, after),
    ensures
        g.spec_on_pick_result(x, y, before, after) == g,
        g.state == HostState::HostIsPlaying,
{
}

/// Two clicks enter the host's move. Where a click counts, an accepted piece
/// followed by an accepted destination, with no promotion pending, makes the
/// broadcast due: the pending move holds both cells and the turn flag is
/// still the host's until the broadcast is out.
pub proof fn lemma_two_clicks_enter_the_hosts_move(
    g: HostGame,
    from: (usize, usize),
    to: (usize, usize),
    before_start: OracleStatus,
    after_start: OracleStatus,
    before_end: OracleStatus,
    after_end: OracleStatus,
)
    requires
        g.spec_can_pick(),
        before_start.phase == Phase::SelectPiece,
        !piece_refused(after_start),
        before_end.phase == Phase::SelectMove,
        after_end.phase != Phase::SelectPromotion,
        !destination_refused(before_end, after_end),
    ensures
        ({
            let entered = g.spec_on_pick_result(
                from.0,
                from.1,
                before_start,
                after_start,
            ).spec_on_pick_result(to.0, to.1, before_end, after_end);
            &&& entered.state == HostState::PreparingBroadcastAfterHostMove
            &&& entered.spec_has_outbound()
            &&& entered.made_move == Move {
                start_x: from.0,
                start_y: from.1,
                end_x: to.0,
                end_y: to.1,
                promotion: g.made_move.promotion,
            }
            &&& entered.host_turn == g.host_turn
            &&& entered == HostGame {
                made_move: entered.made_move,
                state: HostState::PreparingBroadcastAfterHostMove,
                ..g
            }
        }),
{
}

/// A destination after which the rules engine waits for a promotion piece
/// suspends the host's move: the destination is recorded, the input side
/// asks for a piece, and no message is due before the host has chosen. The
/// key of a kind that a pawn may become then resolves the promotion with
/// that kind and makes the broadcast due; any other key changes nothing.
pub proof fn lemma_host_promotion_waits_for_the_choice(
    g: HostGame,
    x: usize,
    y: usize,
    before: OracleStatus,
    after: OracleStatus,
    phase: Phase,
    kind: PieceKind,
)
    requires
        g.spec_can_pick(),
        before.phase == Phase::SelectMove,
        after.phase == Phase::SelectPromotion,
    ensures
        ({
            let waiting = g.spec_on_pick_result(x, y, before, after);
            let chosen = waiting.spec_on_promotion_key(kind);
            &&& waiting.state == HostState::AwaitingHostPromotionChoice
            &&& waiting.promoting
            &&& !waiting.spec_has_outbound()
            &&& waiting.made_move.end_x == x && waiting.made_move.end_y == y
            &&& waiting.made_move.start_x == g.made_move.start_x && waiting.made_move.start_y
                == g.made_move.start_y
            &&& waiting.spec_observation_call(phase) == OracleCall::Nothing
            &&& phase != Phase::CheckMate ==> waiting.spec_on_observation(phase) == waiting
            &&& kind.spec_is_promotion_target() ==> {
                &&& waiting.spec_promotion_call(kind) == OracleCall::SelectPromotion(kind)
                &&& chosen.state == HostState::PreparingBroadcastAfterHostMove
                &&& chosen.selected_prom == kind
                &&& !chosen.promoting
                &&& chosen.made_move == waiting.made_move
            }
            &&& !kind.spec_is_promotion_target() ==> {
                &&& waiting.spec_promotion_call(kind) == OracleCall::Nothing
                &&& chosen == waiting
            }
        }),
{
}

/// After an accepted move the turn passes to the other peer: once the
/// broadcast of a host move is out the client is to move, and once the
/// response to a client move is out the host is to move.
pub proof fn lemma_turn_alternates(g: HostGame)
    requires
        g.consistent(),
    ensures
        g.state == HostState::PreparingBroadcastAfterHostMove ==> g.host_turn
            && !g.spec_after_outbound().host_turn && g.spec_after_outbound().state
            == HostState::ClientIsPlaying,
        g.state == HostState::PreparingResponseToClient ==> !g.host_turn
            && g.spec_after_outbound().host_turn && g.spec_after_outbound().state
            == HostState::HostIsPlaying,
        g.state == HostState::ClientMoveRejected ==> g.spec_after_outbound().host_turn
            == g.host_turn,
{
}

/// The turn is never flipped ahead of time: the turn flag changes only when
/// the message that confirms a move is handed out, and at the handshake.
pub proof fn lemma_turn_flips_only_on_confirmation(g: HostGame, event: HostEvent)
    requires
        !(event is Sent),
        !(event is Hello),
    ensures
        g.step(event).host_turn == g.host_turn,
{
}

/// The session is half-duplex: the host starts to wait for a move of the
/// client only at the handshake and when a message to the client has been
/// handed out, so between two messages of the host at most one move of the
/// client is taken.
pub proof fn lemma_one_client_move_per_exchange(g: HostGame, event: HostEvent)
    requires
        !(event is Sent),
        !(event is Hello),
        !g.client_may_move(),
    ensures
        !g.step(event).client_may_move(),
{
}

/// The end-of-game flag is sticky: no event clears it.
pub proof fn lemma_game_end_is_sticky(g: HostGame, event: HostEvent)
    requires
        g.game_end,
    ensures
        g.step(event).game_end,
{
}

} // verus!
