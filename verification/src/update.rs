//! Merging an incremental server update into the reducer state.

use crate::model::{GameState, GameStateModel, Piece, PieceId, Player, PlayerId, Shop, TimestampMs};
use crate::premoves::{
    drop_confirmed, drop_confirmed_premoves, drop_removed_pieces, remap_all, remap_premoves,
    without_pieces, Pmove,
};
use crate::reducer::{active_player, elapsed_secs, elapsed_secs_between, GameStateReducer, ReducerModel};
use std::collections::{HashMap, HashSet};
use vstd::prelude::*;

verus! {

broadcast use vstd::std_specs::hash::group_hash_axioms;

/// The ids of the pieces in `incoming`.
pub open spec fn ids_of(incoming: Seq<Piece>) -> Set<PieceId> {
    Set::new(|id: PieceId| exists|i: int| 0 <= i < incoming.len() && (#[trigger] incoming[i]).id == id)
}

/// The existing piece under key `k` stands where `inc` arrives, has the same
/// owner, and is not itself part of the update: it may be the same piece
/// under a new id.
pub open spec fn is_candidate(pieces: Map<PieceId, Piece>, k: PieceId, inc: Piece, ids: Set<PieceId>) -> bool {
    &&& pieces.contains_key(k)
    &&& pieces[k].owner_id == inc.owner_id
    &&& pieces[k].position == inc.position
    &&& !ids.contains(pieces[k].id)
}

/// The id of the only candidate for `inc`, when there is exactly one.
pub open spec fn unique_candidate(pieces: Map<PieceId, Piece>, inc: Piece, ids: Set<PieceId>) -> Option<PieceId> {
    if exists|k: PieceId|
        #[trigger] is_candidate(pieces, k, inc, ids) && forall|k2: PieceId|
            #[trigger] is_candidate(pieces, k2, inc, ids) ==> k2 == k {
        let k = choose|k: PieceId|
            #[trigger] is_candidate(pieces, k, inc, ids) && forall|k2: PieceId|
                #[trigger] is_candidate(pieces, k2, inc, ids) ==> k2 == k;
        Some(pieces[k].id)
    } else {
        None
    }
}

/// Keys of the candidates among the first `n` entries of an iteration sequence.
spec fn candidate_at(pieces: Map<PieceId, Piece>, entries: Seq<(&PieceId, &Piece)>, j: int, inc: Piece, ids: Set<PieceId>) -> bool {
    is_candidate(pieces, *entries[j].0, inc, ids)
}

fn find_unique_candidate(pieces: &HashMap<PieceId, Piece>, inc: &Piece, ids: &HashSet<PieceId>) -> (r: Option<PieceId>)
    ensures
        r == unique_candidate(pieces@, *inc, ids@),
{
    let mut first: Option<PieceId> = None;
    let mut first_id: PieceId = 0;
    let mut multiple = false;
    let ghost mut wa: PieceId = 0;
    let ghost mut wb: PieceId = 0;
    for (k, p) in it: pieces.iter()
        invariant
            it.seq().len() == pieces@.dom().len(),
            forall|j: int| 0 <= j < it.seq().len() ==> pieces@.contains_key(*(#[trigger] it.seq()[j]).0)
                && pieces@[*it.seq()[j].0] == *it.seq()[j].1,
            forall|key: PieceId| pieces@.contains_key(key) ==> #[trigger] it.seq().contains((&key, &pieces@[key])),
            first is None ==> forall|j: int| 0 <= j < it.index() ==> !candidate_at(pieces@, it.seq(), j, *inc, ids@),
            first matches Some(fk) ==> {
                &&& is_candidate(pieces@, fk, *inc, ids@)
                &&& first_id == pieces@[fk].id
                &&& !multiple ==> forall|j: int| 0 <= j < it.index()
                    && candidate_at(pieces@, it.seq(), j, *inc, ids@) ==> *(#[trigger] it.seq()[j]).0 == fk
            },
            multiple ==> is_candidate(pieces@, wa, *inc, ids@) && is_candidate(pieces@, wb, *inc, ids@) && wa != wb,
            it.index() == it.seq().len() ==> (first is None ==> forall|key: PieceId| !#[trigger] is_candidate(pieces@, key, *inc, ids@)),
            it.index() == it.seq().len() ==> (first matches Some(fk) ==> (!multiple ==> forall|key: PieceId|
                #[trigger] is_candidate(pieces@, key, *inc, ids@) ==> key == fk)),
    {
        if p.owner_id == inc.owner_id && p.position == inc.position && !ids.contains(&p.id) {
            match first {
                None => {
                    first = Some(*k);
                    first_id = p.id;
                },
                Some(fk) => {
                    if fk != *k {
                        proof {
                            wa = fk;
                            wb = *k;
                        }
                        multiple = true;
                    }
                },
            }
        }
        assert forall|key: PieceId| #[trigger] is_candidate(pieces@, key, *inc, ids@) && it.index() + 1 == it.seq().len() implies
            (first is Some && (first matches Some(fk) ==> (!multiple ==> key == fk))) by {
            assert(it.seq().contains((&key, &pieces@[key])));
            let j = choose|j: int| 0 <= j < it.seq().len() && it.seq()[j] == (&key, &pieces@[key]);
            assert(candidate_at(pieces@, it.seq(), j, *inc, ids@));
        }
    }
    match first {
        None => None,
        Some(fk) => {
            if multiple {
                assert(!(exists|k: PieceId|
                    #[trigger] is_candidate(pieces@, k, *inc, ids@) && forall|k2: PieceId|
                        #[trigger] is_candidate(pieces@, k2, *inc, ids@) ==> k2 == k));
                None
            } else {
                let ghost k = choose|k: PieceId|
                    #[trigger] is_candidate(pieces@, k, *inc, ids@) && forall|k2: PieceId|
                        #[trigger] is_candidate(pieces@, k2, *inc, ids@) ==> k2 == k;
                assert(is_candidate(pieces@, fk, *inc, ids@));
                assert(k == fk);
                Some(first_id)
            }
        },
    }
}

/// Incremental world update payload.
#[derive(Clone, PartialEq, Debug)]
pub struct UpdateStatePayload {
    pub players: Vec<Player>,
    pub pieces: Vec<Piece>,
    pub shops: Vec<Shop>,
    pub removed_pieces: Vec<PieceId>,
    pub removed_players: Vec<PlayerId>,
    pub board_size: i32,
}

/// Old piece ids that the first `n` incoming pieces take over: an incoming
/// piece that is new to the client and has exactly one candidate (see
/// [`is_candidate`]) maps that candidate's id to its own; a later incoming
/// piece overrides an earlier one for the same old id.
pub open spec fn reassignments(pieces: Map<PieceId, Piece>, incoming: Seq<Piece>, n: int) -> Map<PieceId, PieceId>
    decreases n,
{
    if n <= 0 {
        Map::empty()
    } else {
        let prev = reassignments(pieces, incoming, n - 1);
        let inc = incoming[n - 1];
        if pieces.contains_key(inc.id) {
            prev
        } else {
            match unique_candidate(pieces, inc, ids_of(incoming)) {
                Some(old_id) => prev.insert(old_id, inc.id),
                None => prev,
            }
        }
    }
}

/// `players` with the first `n` incoming players inserted in order.
pub open spec fn players_after(players: Map<PlayerId, Player>, incoming: Seq<Player>, n: int) -> Map<PlayerId, Player>
    decreases n,
{
    if n <= 0 {
        players
    } else {
        players_after(players, incoming, n - 1).insert(incoming[n - 1].id, incoming[n - 1])
    }
}

/// `pieces` with the first `n` incoming pieces inserted in order.
pub open spec fn pieces_after(pieces: Map<PieceId, Piece>, incoming: Seq<Piece>, n: int) -> Map<PieceId, Piece>
    decreases n,
{
    if n <= 0 {
        pieces
    } else {
        pieces_after(pieces, incoming, n - 1).insert(incoming[n - 1].id, incoming[n - 1])
    }
}

/// The premove queue after the first `n` incoming pieces confirmed their moves.
pub open spec fn queue_after_pieces(q: Seq<Pmove>, incoming: Seq<Piece>, n: int) -> Seq<Pmove>
    decreases n,
{
    if n <= 0 {
        q
    } else {
        drop_confirmed(queue_after_pieces(q, incoming, n - 1), incoming[n - 1])
    }
}

/// End-screen statistics (score, kills, captures, survival seconds).
pub type Stats = (u64, u32, u32, u64);

/// The statistics after the first `n` incoming players: while `tracking`, the
/// entry of the local player `me` replaces them, survival time included unless
/// the match was won.
pub open spec fn stats_after(
    init: Stats,
    incoming: Seq<Player>,
    n: int,
    me: Option<PlayerId>,
    tracking: bool,
    victory: bool,
    now: TimestampMs,
) -> Stats
    decreases n,
{
    if n <= 0 {
        init
    } else {
        let prev = stats_after(init, incoming, n - 1, me, tracking, victory, now);
        let p = incoming[n - 1];
        if tracking && me == Some(p.id) {
            (p.score, p.kills, p.pieces_captured, if victory { prev.3 } else { elapsed_secs(now, p.join_time) })
        } else {
            prev
        }
    }
}

/// The reducer state after applying server update `u` at time `now`. The
/// premove queue is carried over whether or not a session player is set:
/// premoves of reassigned pieces follow the new ids, premoves that the sent
/// pieces confirm are dropped with the earlier premoves of the same piece,
/// and premoves of removed pieces go; every other premove stays, in order.
pub open spec fn update_step(m: ReducerModel, u: UpdateStatePayload, now: TimestampMs) -> ReducerModel {
    let local = active_player(m.player_id);
    let q0 = m.pm_queue;
    let dead0 = if local is None { false } else { m.is_dead };
    let incoming = u.pieces@;
    let q1 = remap_all(q0, reassignments(m.state.pieces, incoming, incoming.len() as int));
    let stats = stats_after(
        (m.last_score, m.last_kills, m.last_captured, m.last_survival_secs),
        u.players@,
        u.players@.len() as int,
        m.player_id,
        local is Some && !dead0,
        m.is_victory,
        now,
    );
    let players = players_after(m.state.players, u.players@, u.players@.len() as int).remove_keys(
        u.removed_players@.to_set(),
    );
    let pieces = pieces_after(m.state.pieces, incoming, incoming.len() as int).remove_keys(
        u.removed_pieces@.to_set(),
    );
    let queue = without_pieces(queue_after_pieces(q1, incoming, incoming.len() as int), u.removed_pieces@);
    let state = GameStateModel { players, pieces, shops: u.shops@, board_size: u.board_size };
    let dead = if m.queue_status is Some {
        false
    } else {
        match local {
            Some(id) => !players.contains_key(id),
            None => false,
        }
    };
    ReducerModel {
        state,
        menu_preview_state: if local is None { Some(state) } else { m.menu_preview_state },
        error: None,
        disconnected: false,
        pm_queue: queue,
        is_dead: dead,
        last_score: stats.0,
        last_kills: stats.1,
        last_captured: stats.2,
        last_survival_secs: stats.3,
        ..m
    }
}

impl GameStateReducer {
    /// Applies a server update payload to this reducer state at time `now`.
    pub fn apply_update_state_at(&mut self, params: UpdateStatePayload, now: TimestampMs)
        ensures
            final(self)@ == update_step(old(self)@, params, now),
    {
        let ghost m = self@;
        let local_player_id = self.active_player_id();
        let mut queue: Vec<Pmove> = Vec::new();
        std::mem::swap(&mut queue, &mut self.pm_queue);
        let is_dead = if local_player_id.is_none() { false } else { self.is_dead };
        let mut pieces: HashMap<PieceId, Piece> = HashMap::new();
        std::mem::swap(&mut pieces, &mut self.state.pieces);
        let mut players: HashMap<PlayerId, Player> = HashMap::new();
        std::mem::swap(&mut players, &mut self.state.players);
        let player_id = self.player_id;
        let is_victory = self.is_victory;

        let incoming = &params.pieces;
        let mut ids: HashSet<PieceId> = HashSet::new();
        let mut i: usize = 0;
        while i < incoming.len()
            invariant
                i <= incoming.len(),
                forall|id: PieceId| ids@.contains(id) <==> exists|j: int| 0 <= j < i && (#[trigger] incoming@[j]).id == id,
            decreases incoming.len() - i,
        {
            ids.insert(incoming[i].id);
            i = i + 1;
        }
        assert(ids@ =~= ids_of(incoming@));

        let mut reassigned: HashMap<PieceId, PieceId> = HashMap::new();
        let mut i: usize = 0;
        while i < incoming.len()
            invariant
                i <= incoming.len(),
                ids@ == ids_of(incoming@),
                pieces@ == m.state.pieces,
                reassigned@ == reassignments(m.state.pieces, incoming@, i as int),
            decreases incoming.len() - i,
        {
            let inc = &incoming[i];
            if !pieces.contains_key(&inc.id) {
                match find_unique_candidate(&pieces, inc, &ids) {
                    Some(old_id) => {
                        reassigned.insert(old_id, inc.id);
                    },
                    None => {},
                }
            }
            i = i + 1;
        }
        if !reassigned.is_empty() {
            remap_premoves(&mut queue, &reassigned);
        } else {
            assert(queue@ =~= remap_all(queue@, reassigned@));
        }

        let tracking = local_player_id.is_some() && !is_dead;
        let ghost init: Stats = (self.last_score, self.last_kills, self.last_captured, self.last_survival_secs);
        let mut stats: Stats = (self.last_score, self.last_kills, self.last_captured, self.last_survival_secs);
        let mut i: usize = 0;
        while i < params.players.len()
            invariant
                i <= params.players.len(),
                players@ == players_after(m.state.players, params.players@, i as int),
                stats == stats_after(init, params.players@, i as int, player_id, tracking, is_victory, now),
            decreases params.players.len() - i,
        {
            let player = params.players[i].snapshot();
            let is_me = match player_id {
                Some(id) => id == player.id,
                None => false,
            };
            if tracking && is_me {
                let survival = if is_victory { stats.3 } else { elapsed_secs_between(now, player.join_time) };
                stats = (player.score, player.kills, player.pieces_captured, survival);
            }
            players.insert(player.id, player);
            i = i + 1;
        }

        let ghost q1 = queue@;
        let mut i: usize = 0;
        while i < incoming.len()
            invariant
                i <= incoming.len(),
                pieces@ == pieces_after(m.state.pieces, incoming@, i as int),
                queue@ == queue_after_pieces(q1, incoming@, i as int),
            decreases incoming.len() - i,
        {
            let piece = incoming[i].snapshot();
            drop_confirmed_premoves(&mut queue, &piece);
            pieces.insert(piece.id, piece);
            i = i + 1;
        }

        let ghost pieces1 = pieces@;
        let mut i: usize = 0;
        while i < params.removed_pieces.len()
            invariant
                i <= params.removed_pieces.len(),
                pieces@ == pieces1.remove_keys(params.removed_pieces@.take(i as int).to_set()),
            decreases params.removed_pieces.len() - i,
        {
            let id = params.removed_pieces[i];
            pieces.remove(&id);
            proof {
                assert(params.removed_pieces@.take(i + 1) =~= params.removed_pieces@.take(i as int).push(id));
                params.removed_pieces@.take(i as int).lemma_push_to_set_commute(id);
                assert(pieces@ =~= pieces1.remove_keys(params.removed_pieces@.take(i + 1).to_set()));
            }
            i = i + 1;
        }
        assert(params.removed_pieces@.take(params.removed_pieces.len() as int) =~= params.removed_pieces@);
        drop_removed_pieces(&mut queue, &params.removed_pieces);

        let ghost players1 = players@;
        let mut i: usize = 0;
        while i < params.removed_players.len()
            invariant
                i <= params.removed_players.len(),
                players@ == players1.remove_keys(params.removed_players@.take(i as int).to_set()),
            decreases params.removed_players.len() - i,
        {
            let id = params.removed_players[i];
            players.remove(&id);
            proof {
                assert(params.removed_players@.take(i + 1) =~= params.removed_players@.take(i as int).push(id));
                params.removed_players@.take(i as int).lemma_push_to_set_commute(id);
                assert(players@ =~= players1.remove_keys(params.removed_players@.take(i + 1).to_set()));
            }
            i = i + 1;
        }
        assert(params.removed_players@.take(params.removed_players.len() as int) =~= params.removed_players@);

        let now_dead = if self.queue_status.is_some() {
            false
        } else {
            match local_player_id {
                Some(id) => !players.contains_key(&id),
                None => false,
            }
        };

        self.error = None;
        self.disconnected = false;
        self.pm_queue = queue;
        self.is_dead = now_dead;
        self.last_score = stats.0;
        self.last_kills = stats.1;
        self.last_captured = stats.2;
        self.last_survival_secs = stats.3;
        self.state = GameState { players, pieces, shops: params.shops, board_size: params.board_size };
        if local_player_id.is_none() {
            self.menu_preview_state = Some(self.state.snapshot());
        }
        assert(self@ =~= update_step(m, params, now));
    }
}

} // verus!
