//! What the session sees of the rules engine: the phase it is in, the side
//! to move, and the calls the session asks for.

use vstd::prelude::*;
use crate::piece::{Color, PieceKind};

verus! {

/// The phase that the rules engine reports.
#[derive(Clone, Copy, Debug, PartialEq, Eq, Structural)]
pub enum Phase {
    /// It waits for the cell of the piece to move.
    SelectPiece,
    /// A piece is selected; it waits for the destination.
    SelectMove,
    /// The game is over.
    CheckMate,
    /// A pawn reached the last rank; it waits for the kind to promote to.
    SelectPromotion,
    /// Any other phase.
    Other,
}

/// The rules engine as observed at one moment.
#[derive(Clone, Copy, Debug, PartialEq, Eq, Structural)]
pub struct OracleStatus {
    pub phase: Phase,
    pub player: Color,
}

/// A call that the session asks its driver to make on the rules engine.
#[derive(Clone, Copy, Debug, PartialEq, Eq, Structural)]
pub enum OracleCall {
    /// No call.
    Nothing,
    /// Select the piece on the cell at this file and rank.
    SelectPiece(u8, u8),
    /// Select this file and rank as the destination.
    SelectMove(u8, u8),
    /// Promote to this kind.
    SelectPromotion(PieceKind),
}

/// The kind that a pawn becomes when nobody is asked.
pub open spec fn spec_default_promotion() -> PieceKind {
    PieceKind::Queen
}

/// The kind that a pawn becomes when nobody is asked.
pub fn default_promotion() -> (r: PieceKind)
    ensures
        r == spec_default_promotion(),
{
    PieceKind::Queen
}

/// The low eight bits of a coordinate, which is what reaches the rules
/// engine.
pub open spec fn spec_low_byte(v: usize) -> u8 {
    (v % 256) as u8
}

/// The low eight bits of a coordinate.
pub fn low_byte(v: usize) -> (r: u8)
    ensures
        r == spec_low_byte(v),
        v < 256 ==> r == v,
{
    (v % 256) as u8
}

/// Whether the rules engine turned a piece selection down: it still waits
/// for a piece.
pub open spec fn piece_refused(after: OracleStatus) -> bool {
    after.phase == Phase::SelectPiece
}

/// Whether the rules engine turned a destination down: no promotion is
/// pending and the side to move is the one it was.
pub open spec fn destination_refused(before: OracleStatus, after: OracleStatus) -> bool {
    after.phase != Phase::SelectPromotion && after.player == before.player
}

} // verus!
