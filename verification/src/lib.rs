//! Session synchronisation for a two-peer, turn-based chess game.
//!
//! One peer hosts the game and owns the rules engine; the other connects,
//! submits moves and draws what the host reports. This crate holds what the
//! two agree on and what each decides:
//!
//! - `piece`, `board`: the cell values, the 8×8 snapshot that every message
//!   of the host carries, its wire codes, and the position lists that a
//!   client derives from it;
//! - `message`: the messages of the handshake and of the running session;
//! - `oracle`: what the host sees of its rules engine and asks of it;
//! - `host`, `client`: the two session state machines, each as a set of
//!   transitions over the game state that the network side and the input
//!   side of a peer share;
//! - `session`: the two machines taken together, and what an exchange of
//!   messages does to the pair;
//! - `shader`: the handle of a GPU program, which the renderer shares.
//!
//! Nothing here reads a socket, calls the rules engine or draws: the caller
//! performs what a transition asks for and hands back what happened.

pub mod piece;
pub mod board;
pub mod message;
pub mod oracle;
pub mod host;
pub mod client;
pub mod session;
pub mod shader;
