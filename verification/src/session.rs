//! The two state machines taken together: what one exchange of messages
//! does to the pair of them.
//!
//! Each peer runs on its own, so between the sending of a message and its
//! arrival the two may differ. The laws below say that every completed
//! exchange brings them back in step: both name the same peer as the one to
//! move, and the client shows the board that the host sent.

use vstd::prelude::*;
use crate::board::{placements, Board};
use crate::client::{ClientEvent, ClientGameView, ClientState};
use crate::host::{HostEvent, HostGame, HostState, Side};
use crate::message::{ClientHello, ClientMessage, HostMessage};
use crate::piece::Color;

verus! {

/// Whether the host and the client agree on where the session stands: each
/// is consistent in itself, both name the same peer as the one to move, and
/// the client waits exactly while the host works on the client's move.
pub open spec fn in_step(host: HostGame, client: ClientGameView) -> bool {
    &&& host.consistent()
    &&& client.consistent()
    &&& host.client_connected
    &&& host.host_turn == client.host_turn
    &&& match client.state {
        ClientState::AwaitingHandshake => false,
        ClientState::HostIsPlaying => host.state.spec_turn_owner() == Some(Side::Host),
        ClientState::ClientIsPlaying => host.state == HostState::ClientIsPlaying,
        ClientState::AwaitingServerResponse => host.state.spec_turn_owner() == Some(Side::Client)
            && host.state != HostState::ClientIsPlaying,
    }
}

/// The handshake puts the two peers in step, whatever colour the client
/// asked for, and seeds the client's view from the board of the greeting.
pub proof fn lemma_handshake_puts_peers_in_step(preferred: Color, board: Board)
    ensures
        ({
            let hello = ClientHello { preferred_color: preferred };
            let host = HostGame::spec_new().spec_on_client_hello(hello);
            let client = ClientGameView::new().on_host_hello(preferred, board);
            &&& in_step(host, client)
            &&& host.host_turn <==> preferred == Color::Black
            &&& client.white_pos == placements(board, Color::White)
            &&& client.black_pos == placements(board, Color::Black)
        }),
{
}

/// A move that the client hands out and the host takes keeps the two in
/// step: the host validates exactly the cells that the client entered, and
/// the turn stays with the client until the host has answered.
pub proof fn lemma_client_move_keeps_peers_in_step(host: HostGame, client: ClientGameView)
    requires
        in_step(host, client),
        client.has_outbound(),
    ensures
        ({
            let sent = ClientMessage::Move(client.outbound_move());
            let host_after = host.spec_on_client_message(sent);
            let client_after = client.after_outbound();
            &&& in_step(host_after, client_after)
            &&& host_after.state == HostState::ValidatingClientMove
            &&& host_after.received_move == client.outbound_move()
            &&& host_after.host_turn == host.host_turn
        }),
{
}

/// A message that the host hands out and the client takes keeps the two in
/// step, and the client then shows the board of the message. A broadcast
/// carries the host's end of game over to the client; a rejection does not.
pub proof fn lemma_host_message_keeps_peers_in_step(
    host: HostGame,
    client: ClientGameView,
    board: Board,
    msg: HostMessage,
)
    requires
        in_step(host, client),
        host.spec_has_outbound(),
        host.spec_is_outbound(board, msg),
    ensures
        ({
            let host_after = host.spec_after_outbound();
            let client_after = client.on_host_message(msg);
            &&& in_step(host_after, client_after)
            &&& client_after.white_pos == placements(board, Color::White)
            &&& client_after.black_pos == placements(board, Color::Black)
            &&& msg is State ==> client_after.game_end == (client.game_end || host.game_end)
            &&& msg is Error ==> client_after.game_end == client.game_end
        }),
{
}

/// What a peer does on its own keeps the two in step: on the host, the
/// validation of a move, an observation of the rules engine, a click and a
/// promotion key; on the client, a click.
pub proof fn lemma_local_events_keep_peers_in_step(
    host: HostGame,
    client: ClientGameView,
    event: HostEvent,
    x: usize,
    y: usize,
)
    requires
        in_step(host, client),
        event is Validated || event is Observed || event is Picked || event is PromotionChosen,
    ensures
        in_step(host.step(event), client),
        in_step(host, client.step(ClientEvent::Picked(x, y))),
{
}

} // verus!
