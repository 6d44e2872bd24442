//! Decisions of the board view: what a tap on a square does, which selection
//! survives a state change, and which queued purchase is due.

use crate::model::{BoardCoord, Piece, PieceId, PlayerId, Shop};
use crate::premoves::Pmove;
use std::collections::HashMap;
use crate::text::decimal_digit;
use vstd::prelude::*;
use vstd::string::StrSliceExecFns;

verus! {

broadcast use vstd::std_specs::hash::group_hash_axioms;

/// Whether a queued premove is shown: its piece still exists.
pub fn pm_visible(pm: &Pmove, pieces: &HashMap<PieceId, Piece>) -> (b: bool)
    ensures
        b == pieces@.contains_key(pm.piece_id),
{
    pieces.contains_key(&pm.piece_id)
}

/// What a tap on a board square does.
#[derive(Clone, Copy, PartialEq, Eq, Structural, Debug)]
pub enum TapOutcome {
    /// Nothing changes.
    Keep,
    /// The selection is cleared.
    Deselect,
    /// The piece becomes selected.
    Select(PieceId),
    /// The piece's queued premoves are cancelled (on the server and locally);
    /// the selection becomes `select`.
    ClearPremoves { piece_id: PieceId, select: Option<PieceId> },
    /// Moving the selected piece from `from` to the tapped square has to be
    /// checked against the piece's movement rules; when the move is not valid
    /// the selection is cleared if `deselect_if_invalid`.
    CheckMove { piece_id: PieceId, from: BoardCoord, is_capture: bool, deselect_if_invalid: bool },
}

/// The piece under key `k` of `m` stands on `target`.
pub open spec fn stands_on(m: Map<PieceId, Piece>, k: PieceId, target: BoardCoord) -> bool {
    m.contains_key(k) && m[k].position == target
}

/// The piece under key `k` of `m` is `me`'s and stands on `target`.
pub open spec fn own_on(m: Map<PieceId, Piece>, k: PieceId, target: BoardCoord, me: PlayerId) -> bool {
    stands_on(m, k, target) && m[k].owner_id == Some(me)
}

/// `q` holds a premove of piece `id`.
pub open spec fn has_premove(q: Seq<Pmove>, id: PieceId) -> bool {
    exists|i: int| 0 <= i < q.len() && (#[trigger] q[i]).piece_id == id
}

/// The real piece under key `k` is `me`'s, stands on `target` and has queued premoves.
pub open spec fn clearable(pieces: Map<PieceId, Piece>, q: Seq<Pmove>, k: PieceId, target: BoardCoord, me: PlayerId) -> bool {
    own_on(pieces, k, target, me) && has_premove(q, pieces[k].id)
}

/// `o` is what a tap on `target` does: a right click clears the selection; a
/// tap on one of my pieces with queued premoves cancels them and toggles its
/// selection; with a piece selected (seen where its premoves take it), a tap
/// on its own square clears the selection, a tap on another of my pieces
/// selects that one, any other square asks for a move check; with nothing
/// selected, a tap on one of my pieces selects it. An unhandled tap on an
/// empty square clears the selection.
pub open spec fn tap_ok(
    o: TapOutcome,
    right_click: bool,
    target: BoardCoord,
    me: PlayerId,
    selected: Option<PieceId>,
    pieces: Map<PieceId, Piece>,
    q: Seq<Pmove>,
    ghosts: Map<PieceId, Piece>,
) -> bool {
    let occupied = exists|k: PieceId| #[trigger] stands_on(ghosts, k, target);
    let any_clearable = exists|k: PieceId| #[trigger] clearable(pieces, q, k, target, me);
    let any_own = exists|k: PieceId| #[trigger] own_on(ghosts, k, target, me);
    if right_click {
        o == TapOutcome::Deselect
    } else if any_clearable {
        match o {
            TapOutcome::ClearPremoves { piece_id, select } => exists|k: PieceId|
                #[trigger] clearable(pieces, q, k, target, me) && piece_id == pieces[k].id
                    && select == (if selected == Some(pieces[k].id) { None } else { Some(pieces[k].id) }),
            _ => false,
        }
    } else {
        match selected {
            Some(sid) => if ghosts.contains_key(sid) {
                if target == ghosts[sid].position {
                    o == TapOutcome::Deselect
                } else if any_own {
                    match o {
                        TapOutcome::Select(id) => exists|k: PieceId| #[trigger] own_on(ghosts, k, target, me) && id == ghosts[k].id,
                        _ => false,
                    }
                } else {
                    o == TapOutcome::CheckMove {
                        piece_id: sid,
                        from: ghosts[sid].position,
                        is_capture: occupied,
                        deselect_if_invalid: !occupied,
                    }
                }
            } else {
                o == if occupied { TapOutcome::Keep } else { TapOutcome::Deselect }
            },
            None => if any_own {
                match o {
                    TapOutcome::Select(id) => exists|k: PieceId| #[trigger] own_on(ghosts, k, target, me) && id == ghosts[k].id,
                    _ => false,
                }
            } else {
                o == TapOutcome::Keep
            },
        }
    }
}

/// Some real piece of mine on `target` with queued premoves: its id.
fn find_clearable(pieces: &HashMap<PieceId, Piece>, q: &Vec<Pmove>, target: BoardCoord, me: PlayerId) -> (r: Option<PieceId>)
    ensures
        match r {
            Some(id) => exists|k: PieceId| #[trigger] clearable(pieces@, q@, k, target, me) && id == pieces@[k].id,
            None => !exists|k: PieceId| #[trigger] clearable(pieces@, q@, k, target, me),
        },
{
    for (k, p) in it: pieces.iter()
        invariant
            forall|j: int| 0 <= j < it.seq().len() ==> pieces@.contains_key(*(#[trigger] it.seq()[j]).0)
                && pieces@[*it.seq()[j].0] == *it.seq()[j].1,
            forall|key: PieceId| pieces@.contains_key(key) ==> #[trigger] it.seq().contains((&key, &pieces@[key])),
            forall|j: int| 0 <= j < it.index() ==> !clearable(pieces@, q@, *(#[trigger] it.seq()[j]).0, target, me),
            it.index() == it.seq().len() ==> forall|key: PieceId| !#[trigger] clearable(pieces@, q@, key, target, me),
    {
        if p.owner_id == Some(me) && p.position == target && queue_has_piece(q, p.id) {
            assert(clearable(pieces@, q@, *k, target, me));
            return Some(p.id);
        }
        assert forall|key: PieceId| #[trigger] clearable(pieces@, q@, key, target, me) && it.index() + 1 == it.seq().len() implies false by {
            assert(it.seq().contains((&key, &pieces@[key])));
            let j = choose|j: int| 0 <= j < it.seq().len() && it.seq()[j] == (&key, &pieces@[key]);
            assert(!clearable(pieces@, q@, *it.seq()[j].0, target, me));
        }
    }
    None
}

/// Some piece of `m` on `target` (of `me`, when `own_only`): its id.
fn find_on(m: &HashMap<PieceId, Piece>, target: BoardCoord, me: PlayerId, own_only: bool) -> (r: Option<PieceId>)
    ensures
        own_only ==> match r {
            Some(id) => exists|k: PieceId| #[trigger] own_on(m@, k, target, me) && id == m@[k].id,
            None => !exists|k: PieceId| #[trigger] own_on(m@, k, target, me),
        },
        !own_only ==> (r is Some <==> exists|k: PieceId| #[trigger] stands_on(m@, k, target)),
{
    for (k, p) in it: m.iter()
        invariant
            forall|j: int| 0 <= j < it.seq().len() ==> m@.contains_key(*(#[trigger] it.seq()[j]).0)
                && m@[*it.seq()[j].0] == *it.seq()[j].1,
            forall|key: PieceId| m@.contains_key(key) ==> #[trigger] it.seq().contains((&key, &m@[key])),
            own_only ==> forall|j: int| 0 <= j < it.index() ==> !own_on(m@, *(#[trigger] it.seq()[j]).0, target, me),
            !own_only ==> forall|j: int| 0 <= j < it.index() ==> !stands_on(m@, *(#[trigger] it.seq()[j]).0, target),
            it.index() == it.seq().len() ==> (own_only ==> forall|key: PieceId| !#[trigger] own_on(m@, key, target, me)),
            it.index() == it.seq().len() ==> (!own_only ==> forall|key: PieceId| !#[trigger] stands_on(m@, key, target)),
    {
        if p.position == target && (!own_only || p.owner_id == Some(me)) {
            assert(stands_on(m@, *k, target));
            assert(own_only ==> own_on(m@, *k, target, me));
            return Some(p.id);
        }
        assert forall|key: PieceId| #[trigger] m@.contains_key(key) && it.index() + 1 == it.seq().len() implies
            (own_only ==> !own_on(m@, key, target, me)) && (!own_only ==> !stands_on(m@, key, target)) by {
            assert(it.seq().contains((&key, &m@[key])));
            let j = choose|j: int| 0 <= j < it.seq().len() && it.seq()[j] == (&key, &m@[key]);
            assert(*it.seq()[j].0 == key);
        }
    }
    None
}

/// Whether `q` holds a premove of `id`.
fn queue_has_piece(q: &Vec<Pmove>, id: PieceId) -> (b: bool)
    ensures
        b == has_premove(q@, id),
{
    let mut i: usize = 0;
    while i < q.len()
        invariant
            i <= q.len(),
            forall|j: int| 0 <= j < i ==> (#[trigger] q@[j]).piece_id != id,
        decreases q.len() - i,
    {
        if q[i].piece_id == id {
            return true;
        }
        i = i + 1;
    }
    false
}

/// Decides what a tap on `target` does; `ghosts` are the pieces where their
/// queued premoves take them.
pub fn tap_outcome(
    right_click: bool,
    target: BoardCoord,
    me: PlayerId,
    selected: Option<PieceId>,
    pieces: &HashMap<PieceId, Piece>,
    pm_queue: &Vec<Pmove>,
    ghosts: &HashMap<PieceId, Piece>,
) -> (o: TapOutcome)
    ensures
        tap_ok(o, right_click, target, me, selected, pieces@, pm_queue@, ghosts@),
{
    if right_click {
        return TapOutcome::Deselect;
    }
    match find_clearable(pieces, pm_queue, target, me) {
        Some(id) => {
            let select = if selected == Some(id) { None } else { Some(id) };
            return TapOutcome::ClearPremoves { piece_id: id, select };
        },
        None => {},
    }
    let occupied = find_on(ghosts, target, me, false).is_some();
    match selected {
        Some(sid) => match ghosts.get(&sid) {
            Some(p) => {
                if target == p.position {
                    TapOutcome::Deselect
                } else {
                    match find_on(ghosts, target, me, true) {
                        Some(other) => TapOutcome::Select(other),
                        None => TapOutcome::CheckMove {
                            piece_id: sid,
                            from: p.position,
                            is_capture: occupied,
                            deselect_if_invalid: !occupied,
                        },
                    }
                }
            },
            None => if occupied { TapOutcome::Keep } else { TapOutcome::Deselect },
        },
        None => match find_on(ghosts, target, me, true) {
            Some(id) => TapOutcome::Select(id),
            None => TapOutcome::Keep,
        },
    }
}

/// What follows a move check.
#[derive(Clone, Copy, PartialEq, Eq, Structural, Debug)]
pub enum MoveFollowup {
    /// Send the move and queue it as a premove.
    Move,
    /// Clear the selection.
    Deselect,
    /// Nothing changes.
    Keep,
}

/// What follows the check of a requested move.
pub fn after_move_check(valid: bool, deselect_if_invalid: bool) -> (f: MoveFollowup)
    ensures
        f == if valid {
            MoveFollowup::Move
        } else if deselect_if_invalid {
            MoveFollowup::Deselect
        } else {
            MoveFollowup::Keep
        },
{
    if valid {
        MoveFollowup::Move
    } else if deselect_if_invalid {
        MoveFollowup::Deselect
    } else {
        MoveFollowup::Keep
    }
}

/// The selection kept after the pieces changed: only a piece that still
/// exists and is still mine stays selected.
pub fn selection_after_change(selected: Option<PieceId>, pieces: &HashMap<PieceId, Piece>, me: PlayerId) -> (r: Option<PieceId>)
    ensures
        r == match selected {
            Some(id) => if pieces@.contains_key(id) && pieces@[id].owner_id == Some(me) { Some(id) } else { None },
            None => None,
        },
{
    match selected {
        Some(id) => match pieces.get(&id) {
            Some(p) => if p.owner_id == Some(me) { Some(id) } else { None },
            None => None,
        },
        None => None,
    }
}

/// Whether a purchase at `shop_position` by `piece_id` is already queued or submitted.
pub fn has_pending_shop_action(
    pm_queue: &Vec<Pmove>,
    submitted: &Vec<(PieceId, BoardCoord)>,
    piece_id: PieceId,
    shop_position: BoardCoord,
) -> (b: bool)
    ensures
        b == ((exists|i: int| 0 <= i < pm_queue@.len() && (#[trigger] pm_queue@[i]).shop_item_index is Some
            && pm_queue@[i].piece_id == piece_id && pm_queue@[i].target == shop_position)
            || submitted@.contains((piece_id, shop_position))),
{
    let mut i: usize = 0;
    while i < pm_queue.len()
        invariant
            i <= pm_queue.len(),
            forall|j: int| 0 <= j < i ==> !((#[trigger] pm_queue@[j]).shop_item_index is Some
                && pm_queue@[j].piece_id == piece_id && pm_queue@[j].target == shop_position),
        decreases pm_queue.len() - i,
    {
        let pm = pm_queue[i];
        if pm.shop_item_index.is_some() && pm.piece_id == piece_id && pm.target == shop_position {
            return true;
        }
        i = i + 1;
    }
    let mut j: usize = 0;
    while j < submitted.len()
        invariant
            j <= submitted.len(),
            forall|k: int| 0 <= k < j ==> submitted@[k] != (piece_id, shop_position),
        decreases submitted.len() - j,
    {
        let (sp, spos) = submitted[j];
        if sp == piece_id && spos == shop_position {
            assert(submitted@[j as int] == (piece_id, shop_position));
            return true;
        }
        j = j + 1;
    }
    false
}

/// A queued purchase that can be made now: the first queued purchase, when
/// its piece is mine, stands on the purchase square, and a shop is there.
pub open spec fn due_purchase(q: Seq<Pmove>, pieces: Map<PieceId, Piece>, shops: Seq<Shop>, me: PlayerId) -> Option<(Pmove, int)> {
    let k = first_purchase(q, q.len() as int);
    if k < 0 {
        None
    } else {
        let pm = q[k];
        if pieces.contains_key(pm.piece_id) && pieces[pm.piece_id].owner_id == Some(me)
            && pieces[pm.piece_id].position == pm.target {
            let s = first_shop_at(shops, pm.target, shops.len() as int);
            if s < 0 { None } else { Some((pm, s)) }
        } else {
            None
        }
    }
}

/// Index of the first purchase among the first `n` premoves, or `-1`.
pub open spec fn first_purchase(q: Seq<Pmove>, n: int) -> int
    decreases n,
{
    if n <= 0 {
        -1
    } else {
        let before = first_purchase(q, n - 1);
        if before >= 0 { before } else if q[n - 1].shop_item_index is Some { n - 1 } else { -1 }
    }
}

/// Index of the first shop among the first `n` that stands on `pos`, or `-1`.
pub open spec fn first_shop_at(shops: Seq<Shop>, pos: BoardCoord, n: int) -> int
    decreases n,
{
    if n <= 0 {
        -1
    } else {
        let before = first_shop_at(shops, pos, n - 1);
        if before >= 0 { before } else if shops[n - 1].position == pos { n - 1 } else { -1 }
    }
}

/// Finds the queued purchase that can be made now, with the index of its shop.
pub fn pending_purchase(
    pm_queue: &Vec<Pmove>,
    pieces: &HashMap<PieceId, Piece>,
    shops: &Vec<Shop>,
    me: PlayerId,
) -> (r: Option<(Pmove, usize)>)
    ensures
        match r {
            Some((pm, s)) => due_purchase(pm_queue@, pieces@, shops@, me) == Some((pm, s as int)),
            None => due_purchase(pm_queue@, pieces@, shops@, me) is None,
        },
{
    let mut i: usize = 0;
    while i < pm_queue.len() && pm_queue[i].shop_item_index.is_none()
        invariant
            i <= pm_queue.len(),
            first_purchase(pm_queue@, i as int) == -1,
        decreases pm_queue.len() - i,
    {
        i = i + 1;
    }
    proof {
        lemma_first_purchase_rest(pm_queue@, i as int);
    }
    if i == pm_queue.len() {
        return None;
    }
    let pm = pm_queue[i];
    let ok = match pieces.get(&pm.piece_id) {
        Some(p) => p.owner_id == Some(me) && p.position == pm.target,
        None => false,
    };
    if !ok {
        return None;
    }
    let mut s: usize = 0;
    while s < shops.len() && !(shops[s].position == pm.target)
        invariant
            s <= shops.len(),
            first_shop_at(shops@, pm.target, s as int) == -1,
        decreases shops.len() - s,
    {
        s = s + 1;
    }
    proof {
        lemma_first_shop_rest(shops@, pm.target, s as int);
    }
    if s == shops.len() {
        None
    } else {
        Some((pm, s))
    }
}

proof fn lemma_first_purchase_rest(q: Seq<Pmove>, i: int)
    requires
        0 <= i <= q.len(),
        first_purchase(q, i) == -1,
        i < q.len() ==> q[i].shop_item_index is Some,
    ensures
        first_purchase(q, q.len() as int) == if i < q.len() { i } else { -1 },
    decreases q.len() - i,
{
    if i < q.len() {
        assert(first_purchase(q, i + 1) == i);
        lemma_first_purchase_from(q, i, q.len() as int);
    }
}

proof fn lemma_first_purchase_from(q: Seq<Pmove>, k: int, n: int)
    requires
        0 <= k < n <= q.len(),
        first_purchase(q, k + 1) == k,
    ensures
        first_purchase(q, n) == k,
    decreases n - k,
{
    if n > k + 1 {
        lemma_first_purchase_from(q, k, n - 1);
    }
}

proof fn lemma_first_shop_rest(shops: Seq<Shop>, pos: BoardCoord, s: int)
    requires
        0 <= s <= shops.len(),
        first_shop_at(shops, pos, s) == -1,
        s < shops.len() ==> shops[s].position == pos,
    ensures
        first_shop_at(shops, pos, shops.len() as int) == if s < shops.len() { s } else { -1 },
    decreases shops.len() - s,
{
    if s < shops.len() {
        assert(first_shop_at(shops, pos, s + 1) == s);
        lemma_first_shop_from(shops, pos, s, shops.len() as int);
    }
}

proof fn lemma_first_shop_from(shops: Seq<Shop>, pos: BoardCoord, k: int, n: int)
    requires
        0 <= k < n <= shops.len(),
        first_shop_at(shops, pos, k + 1) == k,
    ensures
        first_shop_at(shops, pos, n) == k,
    decreases n - k,
{
    if n > k + 1 {
        lemma_first_shop_from(shops, pos, k, n - 1);
    }
}

/// Whether a queued purchase names an item of the shop's offer (only then
/// is it sent; it is dropped from the queue either way).
pub fn purchase_in_offer(item_index: usize, offered_items: usize) -> (b: bool)
    ensures
        b == (item_index < offered_items),
{
    item_index < offered_items
}

/// The shop item a key press buys: a key whose first character is a digit
/// `d` from 1 to 9 picks item `d - 1` when that item is offered and
/// affordable (`can_buy`); `0`, other keys and unaffordable items pick none.
pub open spec fn shop_hotkey_spec(key: Seq<char>, can_buy: Seq<bool>) -> Option<usize> {
    if key.len() > 0 {
        match decimal_digit(key[0]) {
            Some(d) => if 1 <= d && d - 1 < can_buy.len() && can_buy[d - 1] {
                Some((d - 1) as usize)
            } else {
                None
            },
            None => None,
        }
    } else {
        None
    }
}

/// Decides which shop item a key press buys.
pub fn shop_hotkey(key: &str, can_buy: &Vec<bool>) -> (r: Option<usize>)
    ensures
        r == shop_hotkey_spec(key@, can_buy@),
{
    if key.unicode_len() == 0 {
        return None;
    }
    let c = key.get_char(0);
    if !('0' <= c && c <= '9') {
        return None;
    }
    let d = (c as u32 - 0x30) as usize;
    if d >= 1 && d - 1 < can_buy.len() && can_buy[d - 1] {
        Some(d - 1)
    } else {
        None
    }
}

/// Hands out the next premove id and advances the counter: ids are 1, 2, …
/// in the order premoves are made.
pub fn next_premove_id(counter: &mut u64) -> (id: u64)
    requires
        *old(counter) < u64::MAX,
    ensures
        id == *old(counter),
        *final(counter) == *old(counter) + 1,
{
    let id = *counter;
    *counter = id + 1;
    id
}

} // verus!
