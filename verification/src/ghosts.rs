//! Ghost pieces: where the player's pieces will stand once the queued
//! premoves have been carried out.

use crate::model::{BoardCoord, Piece, PieceId};
use crate::premoves::Pmove;
use std::collections::HashMap;
use vstd::prelude::*;

verus! {

broadcast use vstd::std_specs::hash::group_hash_axioms;

/// The square that piece `id` reaches after the premoves of `q`, starting
/// from `start`: the target of its last premove, or `start` when it has none.
pub open spec fn ghost_target(q: Seq<Pmove>, id: PieceId, start: BoardCoord) -> BoardCoord
    decreases q.len(),
{
    if q.len() == 0 {
        start
    } else if q.last().piece_id == id {
        q.last().target
    } else {
        ghost_target(q.drop_last(), id, start)
    }
}

/// The ghost of piece `id` after the premoves of `q`, given its ghost
/// `before`; a premove is shown only while its piece is among `present`.
pub open spec fn ghost_after(
    q: Seq<Pmove>,
    present: Set<PieceId>,
    id: PieceId,
    before: Piece,
) -> Piece {
    if present.contains(id) {
        Piece { position: ghost_target(q, id, before.position), ..before }
    } else {
        before
    }
}

/// The ghost map after the premoves of `q`: every ghost keeps its identity
/// and look, and moves to its ghost target.
pub open spec fn ghosts_after(
    ghosts: Map<PieceId, Piece>,
    q: Seq<Pmove>,
    present: Set<PieceId>,
) -> Map<PieceId, Piece> {
    Map::new(|id: PieceId| ghosts.contains_key(id), |id: PieceId| ghost_after(q, present, id, ghosts[id]))
}

/// Moves each ghost piece to the target of its queued premoves, in queue
/// order, for the premoves that are visible (their piece is in `pieces`).
/// Only positions change: a shop's automatic upgrade of a piece that lands
/// on it is not applied here.
pub fn apply_visible_ghosts(
    ghosts: &mut HashMap<PieceId, Piece>,
    queue: &Vec<Pmove>,
    pieces: &HashMap<PieceId, Piece>,
)
    ensures
        final(ghosts)@ == ghosts_after(old(ghosts)@, queue@, pieces@.dom()),
{
    let ghost start = ghosts@;
    let ghost present = pieces@.dom();
    let mut i: usize = 0;
    while i < queue.len()
        invariant
            i <= queue.len(),
            present == pieces@.dom(),
            ghosts@ == ghosts_after(start, queue@.take(i as int), present),
        decreases queue.len() - i,
    {
        let pm = queue[i];
        let ghost q1 = queue@.take(i as int + 1);
        assert(q1.drop_last() == queue@.take(i as int));
        assert(q1.last() == pm);
        if pieces.contains_key(&pm.piece_id) {
            let current = ghosts.get(&pm.piece_id);
            match current {
                Some(p) => {
                    let mut moved = p.snapshot();
                    moved.position = pm.target;
                    ghosts.insert(pm.piece_id, moved);
                },
                None => {},
            }
        }
        i = i + 1;
        assert(ghosts@ =~= ghosts_after(start, q1, present));
    }
    assert(queue@.take(queue.len() as int) == queue@);
}

/// A premove drawn as a line from the square its piece stands on before the
/// move to the move's target.
#[derive(Clone, Copy, PartialEq, Eq, Structural, Debug)]
pub struct PremoveLine {
    pub piece_id: PieceId,
    pub start: BoardCoord,
    pub target: BoardCoord,
}

/// Index of the first entry of `q` at or after `from` that equals `pm`, or
/// `q.len()` when there is none.
pub open spec fn first_occurrence(q: Seq<Pmove>, pm: Pmove, from: int) -> int
    decreases q.len() - from,
{
    if from >= q.len() || q[from] == pm {
        from
    } else {
        first_occurrence(q, pm, from + 1)
    }
}

/// The line of premove `q[i]` for a piece standing on `origin`: it starts
/// where the premoves of the same piece queued before the first entry equal to
/// `q[i]` leave the piece.
pub open spec fn line_of(q: Seq<Pmove>, i: int, origin: BoardCoord) -> PremoveLine {
    PremoveLine {
        piece_id: q[i].piece_id,
        start: ghost_target(q.take(first_occurrence(q, q[i], 0)), q[i].piece_id, origin),
        target: q[i].target,
    }
}

/// The lines of the first `n` premoves of `q` whose piece is on the board
/// (`pieces`), in queue order.
pub open spec fn lines_upto(q: Seq<Pmove>, pieces: Map<PieceId, Piece>, n: int) -> Seq<PremoveLine>
    decreases n,
{
    if n <= 0 {
        Seq::empty()
    } else {
        let prev = lines_upto(q, pieces, n - 1);
        let pm = q[n - 1];
        if pieces.contains_key(pm.piece_id) {
            prev.push(line_of(q, n - 1, pieces[pm.piece_id].position))
        } else {
            prev
        }
    }
}

/// The lines to draw for the premoves of `queue` whose piece is on the board.
pub fn premove_lines(queue: &Vec<Pmove>, pieces: &HashMap<PieceId, Piece>) -> (r: Vec<PremoveLine>)
    ensures
        r@ == lines_upto(queue@, pieces@, queue@.len() as int),
{
    let mut out: Vec<PremoveLine> = Vec::new();
    let mut i: usize = 0;
    while i < queue.len()
        invariant
            i <= queue.len(),
            out@ == lines_upto(queue@, pieces@, i as int),
        decreases queue.len() - i,
    {
        let pm = queue[i];
        match pieces.get(&pm.piece_id) {
            Some(on_board) => {
                let origin = on_board.position;
                let mut start = origin;
                let mut j: usize = 0;
                while j < queue.len() && queue[j] != pm
                    invariant
                        i < queue.len(),
                        pm == queue@[i as int],
                        j <= i,
                        first_occurrence(queue@, pm, 0) == first_occurrence(queue@, pm, j as int),
                        start == ghost_target(queue@.take(j as int), pm.piece_id, origin),
                    decreases queue.len() - j,
                {
                    let ghost q1 = queue@.take(j as int + 1);
                    assert(q1.drop_last() == queue@.take(j as int));
                    if queue[j].piece_id == pm.piece_id {
                        start = queue[j].target;
                    }
                    j = j + 1;
                }
                out.push(PremoveLine { piece_id: pm.piece_id, start, target: pm.target });
            },
            None => {},
        }
        i = i + 1;
    }
    out
}

} // verus!
