//! The client's queue of requested ("pre") moves and the operations that the
//! reducer applies to it.

use crate::model::{BoardCoord, Piece, PieceId};
use std::collections::HashMap;
use vstd::prelude::*;

verus! {

broadcast use vstd::std_specs::hash::group_hash_axioms;

/// Client-side requested move entry used for visuals until server state catches up.
///
/// A premove with `shop_item_index` set is a purchase at the shop on `target`.
#[derive(Clone, Copy, PartialEq, Eq, Structural, Debug)]
pub struct Pmove {
    pub id: u64,
    pub piece_id: PieceId,
    pub target: BoardCoord,
    pub shop_item_index: Option<usize>,
}

/// The server's copy of `piece` shows that the board move `pm` has happened.
pub open spec fn confirms(piece: Piece, pm: Pmove) -> bool {
    &&& pm.shop_item_index is None
    &&& pm.piece_id == piece.id
    &&& pm.target == piece.position
}

/// Index of the last premove among the first `n` of `q` that `piece`
/// confirms, or `-1` when there is none.
pub open spec fn last_confirmed(q: Seq<Pmove>, piece: Piece, n: int) -> int
    decreases n,
{
    if n <= 0 {
        -1
    } else if confirms(piece, q[n - 1]) {
        n - 1
    } else {
        last_confirmed(q, piece, n - 1)
    }
}

/// The queue after the server confirmed `piece`: when some board move of the
/// piece is confirmed, that move and every earlier premove of the same piece
/// are dropped; later entries and other pieces' entries stay in order.
pub open spec fn drop_confirmed(q: Seq<Pmove>, piece: Piece) -> Seq<Pmove> {
    let k = last_confirmed(q, piece, q.len() as int);
    if k < 0 {
        q
    } else {
        q.take(k + 1).filter(|pm: Pmove| pm.piece_id != piece.id) + q.skip(k + 1)
    }
}

/// `pm` with its piece id rewritten through `reassigned` when it has an entry.
pub open spec fn remapped(pm: Pmove, reassigned: Map<PieceId, PieceId>) -> Pmove {
    if reassigned.contains_key(pm.piece_id) {
        Pmove { piece_id: reassigned[pm.piece_id], ..pm }
    } else {
        pm
    }
}

/// Every premove of `q` remapped through `reassigned`.
pub open spec fn remap_all(q: Seq<Pmove>, reassigned: Map<PieceId, PieceId>) -> Seq<Pmove> {
    q.map_values(|pm: Pmove| remapped(pm, reassigned))
}

/// The premoves of `q` whose piece is not listed in `removed`.
pub open spec fn without_pieces(q: Seq<Pmove>, removed: Seq<PieceId>) -> Seq<Pmove> {
    q.filter(|pm: Pmove| !removed.contains(pm.piece_id))
}

/// The premoves of `q` that do not belong to `piece_id`.
pub open spec fn without_piece(q: Seq<Pmove>, piece_id: PieceId) -> Seq<Pmove> {
    q.filter(|pm: Pmove| pm.piece_id != piece_id)
}

/// The premoves of `q` whose id is not `pm_id`.
pub open spec fn without_id(q: Seq<Pmove>, pm_id: u64) -> Seq<Pmove> {
    q.filter(|pm: Pmove| pm.id != pm_id)
}

/// The premoves of `q` whose piece is still a key of `pieces`.
pub open spec fn with_existing_pieces(q: Seq<Pmove>, pieces: Map<PieceId, Piece>) -> Seq<Pmove> {
    q.filter(|pm: Pmove| pieces.contains_key(pm.piece_id))
}

/// Index of the first board move (a premove that is not a purchase) among the
/// first `n` entries of `q`, or `-1`.
pub open spec fn first_board_move(q: Seq<Pmove>, n: int) -> int
    decreases n,
{
    if n <= 0 {
        -1
    } else {
        let before = first_board_move(q, n - 1);
        if before >= 0 {
            before
        } else if q[n - 1].shop_item_index is None {
            n - 1
        } else {
            -1
        }
    }
}

/// `q` without its first board move, when it has one.
pub open spec fn drop_first_board_move(q: Seq<Pmove>) -> Seq<Pmove> {
    let k = first_board_move(q, q.len() as int);
    if k < 0 {
        q
    } else {
        q.remove(k)
    }
}

proof fn lemma_last_confirmed_bounds(q: Seq<Pmove>, piece: Piece, n: int)
    ensures
        -1 <= last_confirmed(q, piece, n) < if n <= 0 { 0 } else { n },
        last_confirmed(q, piece, n) >= 0 ==> confirms(piece, q[last_confirmed(q, piece, n)]),
        forall|j: int|
            last_confirmed(q, piece, n) < j < n ==> !confirms(piece, #[trigger] q[j]),
    decreases n,
{
    if n > 0 {
        lemma_last_confirmed_bounds(q, piece, n - 1);
    }
}

proof fn lemma_first_board_move_bounds(q: Seq<Pmove>, n: int)
    ensures
        -1 <= first_board_move(q, n) < if n <= 0 { 0 } else { n },
        first_board_move(q, n) >= 0 ==> q[first_board_move(q, n)].shop_item_index is None,
        forall|j: int|
            0 <= j < n && (first_board_move(q, n) < 0 || j < first_board_move(q, n))
                ==> (#[trigger] q[j]).shop_item_index is Some,
    decreases n,
{
    if n > 0 {
        lemma_first_board_move_bounds(q, n - 1);
    }
}

/// Index of the last premove of `queue` that `piece` confirms.
pub fn find_last_confirmed(queue: &Vec<Pmove>, piece: &Piece) -> (r: Option<usize>)
    ensures
        match r {
            Some(k) => k as int == last_confirmed(queue@, *piece, queue@.len() as int),
            None => last_confirmed(queue@, *piece, queue@.len() as int) == -1,
        },
{
    let mut n: usize = queue.len();
    while n > 0
        invariant
            n <= queue.len(),
            last_confirmed(queue@, *piece, queue@.len() as int) == last_confirmed(queue@, *piece, n as int),
        decreases n,
    {
        let pm = queue[n - 1];
        if pm.shop_item_index.is_none() && pm.piece_id == piece.id && pm.target == piece.position {
            return Some(n - 1);
        }
        n = n - 1;
    }
    None
}

/// Removes the premoves that the server's copy of `piece` has made obsolete.
pub fn drop_confirmed_premoves(queue: &mut Vec<Pmove>, piece: &Piece)
    ensures
        final(queue)@ == drop_confirmed(old(queue)@, *piece),
{
    let ghost q = queue@;
    match find_last_confirmed(queue, piece) {
        None => {},
        Some(k) => {
            proof {
                lemma_last_confirmed_bounds(q, *piece, q.len() as int);
            }
            let ghost pred = |pm: Pmove| pm.piece_id != piece.id;
            let mut out: Vec<Pmove> = Vec::new();
            let mut j: usize = 0;
            while j < queue.len()
                invariant
                    queue@ == q,
                    k < q.len(),
                    j <= q.len(),
                    pred == (|pm: Pmove| pm.piece_id != piece.id),
                    j <= k + 1 ==> out@ == q.take(j as int).filter(pred),
                    j > k + 1 ==> out@ == q.take(k + 1).filter(pred) + q.subrange(k + 1, j as int),
                decreases q.len() - j,
            {
                let pm = queue[j];
                proof {
                    assert(q.take(j + 1) =~= q.take(j as int).push(pm));
                    q.take(j as int).lemma_filter_push(pm, pred);
                }
                if j > k || pm.piece_id != piece.id {
                    out.push(pm);
                }
                proof {
                    if j > k + 1 {
                        assert(q.subrange(k + 1, j + 1) =~= q.subrange(k + 1, j as int).push(pm));
                    }
                    if j == k + 1 {
                        assert(q.subrange(k + 1, j + 1) =~= seq![pm]);
                    }
                }
                j = j + 1;
            }
            assert(q.subrange(k + 1, q.len() as int) =~= q.skip(k + 1));
            *queue = out;
        },
    }
}

/// Rewrites the piece ids of queued premoves through `reassigned`.
pub fn remap_premoves(queue: &mut Vec<Pmove>, reassigned: &HashMap<PieceId, PieceId>)
    ensures
        final(queue)@ == remap_all(old(queue)@, reassigned@),
{
    let ghost q = queue@;
    let mut i: usize = 0;
    while i < queue.len()
        invariant
            i <= queue.len(),
            queue@.len() == q.len(),
            forall|j: int| 0 <= j < i ==> queue@[j] == remapped(q[j], reassigned@),
            forall|j: int| i <= j < q.len() ==> queue@[j] == q[j],
        decreases queue.len() - i,
    {
        let pm = queue[i];
        match reassigned.get(&pm.piece_id) {
            Some(new_id) => {
                queue.set(i, Pmove { piece_id: *new_id, ..pm });
            },
            None => {},
        }
        i = i + 1;
    }
    assert(queue@ =~= remap_all(q, reassigned@));
}

/// Whether `ids` lists `id`.
pub fn ids_contain(ids: &Vec<PieceId>, id: PieceId) -> (b: bool)
    ensures
        b == ids@.contains(id),
{
    let mut i: usize = 0;
    while i < ids.len()
        invariant
            i <= ids.len(),
            forall|j: int| 0 <= j < i ==> ids@[j] != id,
        decreases ids.len() - i,
    {
        if ids[i] == id {
            return true;
        }
        i = i + 1;
    }
    false
}

/// Drops the premoves of every piece listed in `removed`.
pub fn drop_removed_pieces(queue: &mut Vec<Pmove>, removed: &Vec<PieceId>)
    ensures
        final(queue)@ == without_pieces(old(queue)@, removed@),
{
    let ghost q = queue@;
    let ghost pred = |pm: Pmove| !removed@.contains(pm.piece_id);
    let mut out: Vec<Pmove> = Vec::new();
    let mut j: usize = 0;
    while j < queue.len()
        invariant
            queue@ == q,
            j <= q.len(),
            pred == (|pm: Pmove| !removed@.contains(pm.piece_id)),
            out@ == q.take(j as int).filter(pred),
        decreases q.len() - j,
    {
        let pm = queue[j];
        proof {
            assert(q.take(j + 1) =~= q.take(j as int).push(pm));
            q.take(j as int).lemma_filter_push(pm, pred);
        }
        if !ids_contain(removed, pm.piece_id) {
            out.push(pm);
        }
        j = j + 1;
    }
    assert(q.take(q.len() as int) =~= q);
    *queue = out;
}

/// Drops every premove of `piece_id`.
pub fn drop_piece(queue: &mut Vec<Pmove>, piece_id: PieceId)
    ensures
        final(queue)@ == without_piece(old(queue)@, piece_id),
{
    let ghost q = queue@;
    let ghost pred = |pm: Pmove| pm.piece_id != piece_id;
    let mut out: Vec<Pmove> = Vec::new();
    let mut j: usize = 0;
    while j < queue.len()
        invariant
            queue@ == q,
            j <= q.len(),
            pred == (|pm: Pmove| pm.piece_id != piece_id),
            out@ == q.take(j as int).filter(pred),
        decreases q.len() - j,
    {
        let pm = queue[j];
        proof {
            assert(q.take(j + 1) =~= q.take(j as int).push(pm));
            q.take(j as int).lemma_filter_push(pm, pred);
        }
        if pm.piece_id != piece_id {
            out.push(pm);
        }
        j = j + 1;
    }
    assert(q.take(q.len() as int) =~= q);
    *queue = out;
}

/// Drops every premove whose id is `pm_id`.
pub fn drop_id(queue: &mut Vec<Pmove>, pm_id: u64)
    ensures
        final(queue)@ == without_id(old(queue)@, pm_id),
{
    let ghost q = queue@;
    let ghost pred = |pm: Pmove| pm.id != pm_id;
    let mut out: Vec<Pmove> = Vec::new();
    let mut j: usize = 0;
    while j < queue.len()
        invariant
            queue@ == q,
            j <= q.len(),
            pred == (|pm: Pmove| pm.id != pm_id),
            out@ == q.take(j as int).filter(pred),
        decreases q.len() - j,
    {
        let pm = queue[j];
        proof {
            assert(q.take(j + 1) =~= q.take(j as int).push(pm));
            q.take(j as int).lemma_filter_push(pm, pred);
        }
        if pm.id != pm_id {
            out.push(pm);
        }
        j = j + 1;
    }
    assert(q.take(q.len() as int) =~= q);
    *queue = out;
}

/// Drops the premoves whose piece no longer exists in `pieces`.
pub fn drop_missing_pieces(queue: &mut Vec<Pmove>, pieces: &HashMap<PieceId, Piece>)
    ensures
        final(queue)@ == with_existing_pieces(old(queue)@, pieces@),
{
    let ghost q = queue@;
    let ghost pred = |pm: Pmove| pieces@.contains_key(pm.piece_id);
    let mut out: Vec<Pmove> = Vec::new();
    let mut j: usize = 0;
    while j < queue.len()
        invariant
            queue@ == q,
            j <= q.len(),
            pred == (|pm: Pmove| pieces@.contains_key(pm.piece_id)),
            out@ == q.take(j as int).filter(pred),
        decreases q.len() - j,
    {
        let pm = queue[j];
        proof {
            assert(q.take(j + 1) =~= q.take(j as int).push(pm));
            q.take(j as int).lemma_filter_push(pm, pred);
        }
        if pieces.contains_key(&pm.piece_id) {
            out.push(pm);
        }
        j = j + 1;
    }
    assert(q.take(q.len() as int) =~= q);
    *queue = out;
}

/// Removes the first board move (a premove that is not a purchase), if any.
pub fn remove_first_board_move(queue: &mut Vec<Pmove>)
    ensures
        final(queue)@ == drop_first_board_move(old(queue)@),
{
    let ghost q = queue@;
    proof {
        lemma_first_board_move_bounds(q, q.len() as int);
    }
    let ghost k = first_board_move(q, q.len() as int);
    let mut i: usize = 0;
    let mut found = false;
    while i < queue.len()
        invariant_except_break
            queue@ == q,
            i <= q.len(),
            !found,
            forall|j: int| 0 <= j < i ==> (#[trigger] q[j]).shop_item_index is Some,
        invariant
            k == first_board_move(q, q.len() as int),
            -1 <= k < q.len(),
            k >= 0 ==> q[k].shop_item_index is None,
            forall|j: int| 0 <= j < q.len() && (k < 0 || j < k) ==> (#[trigger] q[j]).shop_item_index is Some,
        ensures
            queue@ == q,
            found ==> i == k,
            !found ==> k < 0,
        decreases q.len() - i,
    {
        if queue[i].shop_item_index.is_none() {
            found = true;
            break;
        }
        i = i + 1;
    }
    if found {
        queue.remove(i);
    }
}

} // verus!
