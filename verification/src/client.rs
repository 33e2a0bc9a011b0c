//! The session state machine of the connecting peer.
//!
//! The client has no rules engine. It trusts the board that the host
//! reports, rebuilds its own view from every snapshot, and only tracks whose
//! turn it is.

use vstd::prelude::*;
use crate::board::{placements, Board};
use crate::message::{ClientHello, ClientMessage, HostHello, HostMessage, Move, UNSET};
use crate::piece::Color;

verus! {

/// Where the client stands in the session.
#[derive(Clone, Copy, Debug, PartialEq, Eq, Structural)]
pub enum ClientState {
    AwaitingHandshake,
    HostIsPlaying,
    ClientIsPlaying,
    AwaitingServerResponse,
}

/// What a click of the client on the board led to.
#[derive(Clone, Copy, Debug, PartialEq, Eq, Structural)]
pub enum PickOutcome {
    /// The click did not count.
    Ignored,
    /// The cell became the start of the pending move.
    StartChosen,
    /// The cell became the destination; the move is ready to be sent.
    MoveReady,
}

/// The game state that the client's network side and its input side share.
#[derive(Debug, PartialEq, Eq)]
pub struct ClientGame {
    /// The white pieces: file, rank and sprite index of each.
    pub white_pos: Vec<(usize, usize, usize)>,
    /// The black pieces: file, rank and sprite index of each.
    pub black_pos: Vec<(usize, usize, usize)>,
    /// Set once the game is over; never cleared.
    pub game_end: bool,
    /// Whether the input side is asking for a promotion piece.
    pub promoting: bool,
    /// Whether the next move is the host's.
    pub host_turn: bool,
    /// The start cell of the pending move.
    pub m_from: (usize, usize),
    /// The destination of the pending move.
    pub m_to: (usize, usize),
    /// Whether the pending move is ready to be sent.
    pub send_move: bool,
    /// Where the session stands.
    pub state: ClientState,
}

/// The client's game state as a mathematical value.
pub struct ClientGameView {
    pub white_pos: Seq<(usize, usize, usize)>,
    pub black_pos: Seq<(usize, usize, usize)>,
    pub game_end: bool,
    pub promoting: bool,
    pub host_turn: bool,
    pub m_from: (usize, usize),
    pub m_to: (usize, usize),
    pub send_move: bool,
    pub state: ClientState,
}

/// Something that happens to the client's session.
pub enum ClientEvent {
    /// The greeting of the host arrived, in answer to a request for this
    /// colour.
    Hello(Color, Board),
    /// A message of the host arrived.
    Message(HostMessage),
    /// The client clicked the cell at this file and rank.
    Picked(usize, usize),
    /// The move that was ready has been handed out for sending.
    Sent,
}

/// The pair that marks a cell of the pending move as not chosen.
pub open spec fn no_cell() -> (usize, usize) {
    (UNSET, UNSET)
}

impl ClientGameView {
    /// The state of a session before the handshake.
    pub open spec fn new() -> ClientGameView {
        ClientGameView {
            white_pos: Seq::empty(),
            black_pos: Seq::empty(),
            game_end: false,
            promoting: false,
            host_turn: true,
            m_from: no_cell(),
            m_to: no_cell(),
            send_move: false,
            state: ClientState::AwaitingHandshake,
        }
    }

    /// Once the handshake is done, the turn flag names the peer whose move
    /// the state belongs to; while the client waits for the answer to its
    /// own move, the turn is still the client's.
    pub open spec fn consistent(self) -> bool {
        match self.state {
            ClientState::AwaitingHandshake => true,
            ClientState::HostIsPlaying => self.host_turn,
            ClientState::ClientIsPlaying => !self.host_turn,
            ClientState::AwaitingServerResponse => !self.host_turn,
        }
    }

    /// The state with both position lists derived anew from a snapshot.
    pub open spec fn rebuild(self, board: Board) -> ClientGameView {
        ClientGameView {
            white_pos: placements(board, Color::White),
            black_pos: placements(board, Color::Black),
            ..self
        }
    }

    /// The state after the greeting of the host, where the client had asked
    /// for `preferred`: white moves first. After the handshake a greeting
    /// changes nothing.
    pub open spec fn on_host_hello(self, preferred: Color, board: Board) -> ClientGameView {
        if self.state == ClientState::AwaitingHandshake {
            ClientGameView {
                host_turn: preferred == Color::Black,
                state: if preferred == Color::Black {
                    ClientState::HostIsPlaying
                } else {
                    ClientState::ClientIsPlaying
                },
                ..self.rebuild(board)
            }
        } else {
            self
        }
    }

    /// Whether a move is due to be sent.
    pub open spec fn has_outbound(self) -> bool {
        self.state == ClientState::ClientIsPlaying && self.send_move
    }

    /// The move that is due to be sent.
    pub open spec fn outbound_move(self) -> Move {
        Move::spec_between(self.m_from, self.m_to)
    }

    /// The state after the move that was due has been handed out: the
    /// pending move is cleared and the client waits for the answer. The turn
    /// is not flipped.
    pub open spec fn after_outbound(self) -> ClientGameView {
        if self.has_outbound() {
            ClientGameView {
                send_move: false,
                m_from: no_cell(),
                m_to: no_cell(),
                state: ClientState::AwaitingServerResponse,
                ..self
            }
        } else {
            self
        }
    }

    /// Whether a message of the host is expected.
    pub open spec fn awaits_host_message(self) -> bool {
        self.state == ClientState::AwaitingServerResponse || self.state
            == ClientState::HostIsPlaying
    }

    /// The state after a message of the host.
    pub open spec fn on_host_message(self, msg: HostMessage) -> ClientGameView {
        match (self.state, msg) {
            (ClientState::AwaitingServerResponse, HostMessage::State { board, status, .. }) => {
                ClientGameView {
                    game_end: self.game_end || status.spec_is_terminal(),
                    host_turn: true,
                    state: ClientState::HostIsPlaying,
                    ..self.rebuild(board)
                }
            },
            (ClientState::AwaitingServerResponse, HostMessage::Error { board, .. }) => {
                ClientGameView { state: ClientState::ClientIsPlaying, ..self.rebuild(board) }
            },
            (ClientState::HostIsPlaying, HostMessage::State { board, status, .. }) => {
                ClientGameView {
                    game_end: self.game_end || status.spec_is_terminal(),
                    host_turn: false,
                    state: ClientState::ClientIsPlaying,
                    ..self.rebuild(board)
                }
            },
            _ => self,
        }
    }

    /// Whether a click of the client on the board counts.
    pub open spec fn can_pick(self) -> bool {
        !self.game_end && !self.promoting && self.state == ClientState::ClientIsPlaying
    }

    /// What the next click on the board leads to.
    pub open spec fn pick_outcome(self) -> PickOutcome {
        if !self.can_pick() {
            PickOutcome::Ignored
        } else if self.m_from == no_cell() {
            PickOutcome::StartChosen
        } else if self.m_to == no_cell() {
            PickOutcome::MoveReady
        } else {
            PickOutcome::Ignored
        }
    }

    /// The state after a click on the cell at file `x` and rank `y`.
    pub open spec fn on_pick(self, x: usize, y: usize) -> ClientGameView {
        match self.pick_outcome() {
            PickOutcome::Ignored => self,
            PickOutcome::StartChosen => ClientGameView { m_from: (x, y), ..self },
            PickOutcome::MoveReady => ClientGameView { m_to: (x, y), send_move: true, ..self },
        }
    }

    /// The line that tells the client how the game stands.
    pub open spec fn status_line(self) -> Seq<char> {
        if self.game_end {
            if self.host_turn {
                "You lose!"@
            } else {
                "You win!"@
            }
        } else if self.host_turn {
            "Host is playing."@
        } else {
            "You are playing."@
        }
    }

    /// The state after an event.
    pub open spec fn step(self, event: ClientEvent) -> ClientGameView {
        match event {
            ClientEvent::Hello(preferred, board) => self.on_host_hello(preferred, board),
            ClientEvent::Message(msg) => self.on_host_message(msg),
            ClientEvent::Picked(x, y) => self.on_pick(x, y),
            ClientEvent::Sent => self.after_outbound(),
        }
    }

    /// The state that a fresh session reaches through a sequence of events.
    pub open spec fn run(events: Seq<ClientEvent>) -> ClientGameView
        decreases events.len(),
    {
        if events.len() == 0 {
            Self::new()
        } else {
            Self::run(events.drop_last()).step(events.last())
        }
    }
}

impl View for ClientGame {
    type V = ClientGameView;

    open spec fn view(&self) -> ClientGameView {
        ClientGameView {
            white_pos: self.white_pos@,
            black_pos: self.black_pos@,
            game_end: self.game_end,
            promoting: self.promoting,
            host_turn: self.host_turn,
            m_from: self.m_from,
            m_to: self.m_to,
            send_move: self.send_move,
            state: self.state,
        }
    }
}

/// The colour that a client asks for: black where the argument is `b`,
/// white for any other argument and where there is none.
pub open spec fn spec_requested_color(arg: Option<Seq<char>>) -> Color {
    match arg {
        Some(s) => if s == "b"@ {
            Color::Black
        } else {
            Color::White
        },
        None => Color::White,
    }
}

/// The colour that a client asks for, from the optional argument that
/// selects it.
pub fn requested_color(arg: Option<&str>) -> (r: Color)
    ensures
        r == spec_requested_color(
            match arg {
                Some(s) => Some(s@),
                None => None,
            },
        ),
{
    match arg {
        Some(s) => {
            proof {
                reveal_strlit("b");
            }
            if s.unicode_len() == 1 && s.get_char(0) == 'b' {
                assert(s@ =~= "b"@);
                Color::Black
            } else {
                Color::White
            }
        },
        None => Color::White,
    }
}

impl ClientGame {
    /// The state of a session before the handshake.
    pub fn new() -> (r: ClientGame)
        ensures
            r@ == ClientGameView::new(),
            r@.consistent(),
    {
        ClientGame {
            white_pos: Vec::new(),
            black_pos: Vec::new(),
            game_end: false,
            promoting: false,
            host_turn: true,
            m_from: (UNSET, UNSET),
            m_to: (UNSET, UNSET),
            send_move: false,
            state: ClientState::AwaitingHandshake,
        }
    }

    /// The greeting that asks for the colour `preferred`.
    pub fn hello(preferred: Color) -> (r: ClientHello)
        ensures
            r.preferred_color == preferred,
    {
        ClientHello { preferred_color: preferred }
    }

    /// Derives both position lists anew from a snapshot. What the lists held
    /// before plays no part.
    pub fn rebuild_view(&mut self, board: &Board)
        ensures
            final(self)@ == old(self)@.rebuild(*board),
    {
        self.white_pos = board.placements(Color::White);
        self.black_pos = board.placements(Color::Black);
    }

    /// Takes the greeting of the host, in answer to a request for the colour
    /// `preferred`: the view is seeded from its board and the turn order is
    /// fixed. After the handshake a greeting changes nothing.
    pub fn on_host_hello(&mut self, preferred: Color, hello: &HostHello)
        ensures
            final(self)@ == old(self)@.on_host_hello(preferred, hello.board),
            old(self)@.consistent() ==> final(self)@.consistent(),
    {
        if self.state == ClientState::AwaitingHandshake {
            self.rebuild_view(&hello.board);
            let host_first = preferred == Color::Black;
            self.host_turn = host_first;
            self.state = if host_first {
                ClientState::HostIsPlaying
            } else {
                ClientState::ClientIsPlaying
            };
        }
    }

    /// Whether a move is due to be sent.
    pub fn has_outbound(&self) -> (r: bool)
        ensures
            r == self@.has_outbound(),
    {
        self.state == ClientState::ClientIsPlaying && self.send_move
    }

    /// Hands out the move that is due, clears the pending move and waits
    /// for the answer. Where no move is due, nothing changes and nothing is
    /// returned.
    pub fn outbound(&mut self) -> (r: Option<ClientMessage>)
        ensures
            final(self)@ == old(self)@.after_outbound(),
            r.is_some() <==> old(self)@.has_outbound(),
            r matches Some(m) ==> m == ClientMessage::Move(old(self)@.outbound_move()),
            old(self)@.consistent() ==> final(self)@.consistent(),
    {
        if self.state == ClientState::ClientIsPlaying && self.send_move {
            let m = Move::between(self.m_from, self.m_to);
            self.send_move = false;
            self.m_from = (UNSET, UNSET);
            self.m_to = (UNSET, UNSET);
            self.state = ClientState::AwaitingServerResponse;
            Some(ClientMessage::Move(m))
        } else {
            None
        }
    }

    /// Whether the network side should now wait for a message of the host.
    pub fn awaits_host_message(&self) -> (r: bool)
        ensures
            r == self@.awaits_host_message(),
    {
        self.state == ClientState::AwaitingServerResponse || self.state
            == ClientState::HostIsPlaying
    }

    /// Takes a message of the host. A broadcast rebuilds the view, ends the
    /// game where its status is terminal, and passes the turn on: to the
    /// host where it answers the client's own move, to the client where it
    /// reports a move of the host. A rejection rebuilds the view and lets
    /// the client pick again. Any other message changes nothing.
    pub fn on_host_message(&mut self, msg: &HostMessage)
        ensures
            final(self)@ == old(self)@.on_host_message(*msg),
            old(self)@.consistent() ==> final(self)@.consistent(),
    {
        match self.state {
            ClientState::AwaitingServerResponse => match msg {
                HostMessage::State { board, status, .. } => {
                    self.rebuild_view(board);
                    self.game_end = self.game_end || status.is_terminal();
                    self.host_turn = true;
                    self.state = ClientState::HostIsPlaying;
                },
                HostMessage::Error { board, .. } => {
                    self.rebuild_view(board);
                    self.state = ClientState::ClientIsPlaying;
                },
            },
            ClientState::HostIsPlaying => match msg {
                HostMessage::State { board, status, .. } => {
                    self.rebuild_view(board);
                    self.game_end = self.game_end || status.is_terminal();
                    self.host_turn = false;
                    self.state = ClientState::ClientIsPlaying;
                },
                HostMessage::Error { .. } => {},
            },
            _ => {},
        }
    }

    /// The line that tells the client how the game stands.
    pub fn status_line(&self) -> (r: String)
        ensures
            r@ == self@.status_line(),
    {
        if self.game_end {
            if self.host_turn {
                "You lose!".to_owned()
            } else {
                "You win!".to_owned()
            }
        } else if self.host_turn {
            "Host is playing.".to_owned()
        } else {
            "You are playing.".to_owned()
        }
    }

    /// Whether a click of the client on the board counts.
    pub fn can_pick(&self) -> (r: bool)
        ensures
            r == self@.can_pick(),
    {
        !self.game_end && !self.promoting && self.state == ClientState::ClientIsPlaying
    }

    /// Takes a click of the client on the cell at file `x` and rank `y`: the
    /// first click that counts chooses the start of the pending move, the
    /// second its destination, which makes the move ready to be sent.
    pub fn on_pick(&mut self, x: usize, y: usize) -> (r: PickOutcome)
        ensures
            final(self)@ == old(self)@.on_pick(x, y),
            r == old(self)@.pick_outcome(),
            old(self)@.consistent() ==> final(self)@.consistent(),
    {
        if !self.can_pick() {
            PickOutcome::Ignored
        } else if self.m_from.0 == UNSET && self.m_from.1 == UNSET {
            self.m_from = (x, y);
            PickOutcome::StartChosen
        } else if self.m_to.0 == UNSET && self.m_to.1 == UNSET {
            self.m_to = (x, y);
            self.send_move = true;
            PickOutcome::MoveReady
        } else {
            PickOutcome::Ignored
        }
    }
}

/// Rebuilding the view twice from the same snapshot gives what rebuilding it
/// once gives, and what the view held before plays no part in the lists.
pub proof fn lemma_rebuild_is_idempotent(g: ClientGameView, h: ClientGameView, board: Board)
    ensures
        g.rebuild(board).rebuild(board) == g.rebuild(board),
        g.rebuild(board).white_pos == h.rebuild(board).white_pos,
        g.rebuild(board).black_pos == h.rebuild(board).black_pos,
{
}

/// Every event keeps the client's turn flag in agreement with its state.
pub proof fn lemma_client_step_keeps_consistency(g: ClientGameView, event: ClientEvent)
    requires
        g.consistent(),
    ensures
        g.step(event).consistent(),
{
}

/// In every state that a client session can reach, the turn flag agrees
/// with the state, and a click counts only on the client's own turn.
pub proof fn lemma_client_reachable_states_are_consistent(events: Seq<ClientEvent>)
    ensures
        ClientGameView::run(events).consistent(),
        ClientGameView::run(events).can_pick() ==> !ClientGameView::run(events).host_turn,
    decreases events.len(),
{
    if events.len() > 0 {
        lemma_client_reachable_states_are_consistent(events.drop_last());
        lemma_client_step_keeps_consistency(
            ClientGameView::run(events.drop_last()),
            events.last(),
        );
    }
}

/// The client never flips the turn by sending: only a message of the host
/// does. A broadcast passes the turn to the peer that did not move, and a
/// rejection leaves it with the client.
pub proof fn lemma_client_turn_follows_confirmation(g: ClientGameView, msg: HostMessage)
    requires
        g.consistent(),
    ensures
        g.after_outbound().host_turn == g.host_turn,
        forall|x: usize, y: usize| (#[trigger] g.on_pick(x, y)).host_turn == g.host_turn,
        g.state == ClientState::AwaitingServerResponse && msg is State ==> g.on_host_message(
            msg,
        ).host_turn && g.on_host_message(msg).state == ClientState::HostIsPlaying,
        g.state == ClientState::HostIsPlaying && msg is State ==> !g.on_host_message(
            msg,
        ).host_turn && g.on_host_message(msg).state == ClientState::ClientIsPlaying,
        g.state == ClientState::AwaitingServerResponse && msg is Error ==> !g.on_host_message(
            msg,
        ).host_turn && g.on_host_message(msg).state == ClientState::ClientIsPlaying,
{
}

/// The session is half-duplex: once a move has been handed out, no click
/// counts and no further move is due until a message of the host arrives.
pub proof fn lemma_one_move_per_exchange(g: ClientGameView, event: ClientEvent)
    requires
        !(event is Message),
        !(event is Hello),
    ensures
        g.has_outbound() ==> !g.after_outbound().has_outbound() && !g.after_outbound().can_pick(),
        g.state != ClientState::ClientIsPlaying ==> g.step(event).state
            != ClientState::ClientIsPlaying && !g.step(event).has_outbound(),
{
}

/// The client checks no legality: where a click counts and no cell of the
/// pending move is chosen yet, the clicked cell becomes the start, whatever
/// the position lists hold there, and nothing else changes. Whether a piece
/// stands there is for the host to say.
pub proof fn lemma_first_click_stages_the_start(g: ClientGameView, x: usize, y: usize)
    requires
        g.can_pick(),
        g.m_from == no_cell(),
        g.m_to == no_cell(),
    ensures
        g.pick_outcome() == PickOutcome::StartChosen,
        g.on_pick(x, y) == (ClientGameView { m_from: (x, y), ..g }),
        g.on_pick(x, y).white_pos == g.white_pos,
        g.on_pick(x, y).black_pos == g.black_pos,
        g.on_pick(x, y).has_outbound() == g.has_outbound(),
{
}

/// The client's end-of-game flag is sticky: no event clears it.
pub proof fn lemma_client_game_end_is_sticky(g: ClientGameView, event: ClientEvent)
    requires
        g.game_end,
    ensures
        g.step(event).game_end,
{
}

} // verus!
