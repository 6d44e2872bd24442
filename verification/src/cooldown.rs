//! Move cooldowns of pieces: the progress bar drawn around the player's own
//! pieces while they wait to move again.

use crate::model::{Piece, PlayerId, TimestampMs};
use crate::reducer::{saturating_diff, saturating_sub_i64};
use vstd::prelude::*;

verus! {

/// Milliseconds since the piece last moved (clamped to the range of `i64`).
pub open spec fn since_move(piece: Piece, now: TimestampMs) -> int {
    saturating_diff(now, piece.last_move_time)
}

/// The piece's cooldown is still running at `now`.
pub open spec fn cooling_down(piece: Piece, now: TimestampMs) -> bool {
    since_move(piece, now) < piece.cooldown_ms
}

/// The cooldown bar of a piece: drawn only for the player's own real (not
/// ghost) pieces while their cooldown runs, as the time passed since the
/// move out of the cooldown's length.
pub fn cooldown_bar(piece: &Piece, me: PlayerId, is_ghost: bool, now: TimestampMs) -> (r: Option<(i64, i64)>)
    ensures
        r == if piece.owner_id == Some(me) && !is_ghost && cooling_down(*piece, now) {
            Some((since_move(*piece, now) as i64, piece.cooldown_ms))
        } else {
            None
        },
{
    if piece.owner_id != Some(me) || is_ghost {
        return None;
    }
    let elapsed = saturating_sub_i64(now, piece.last_move_time);
    if elapsed >= piece.cooldown_ms {
        None
    } else {
        Some((elapsed, piece.cooldown_ms))
    }
}

} // verus!
