//! Properties of the reducer that hold across actions and states.

use crate::model::{ChatLine, Piece, PieceId, TimestampMs, NIL_ID};
use crate::premoves::{confirms, drop_confirmed, last_confirmed, without_id, without_piece, Pmove};
use crate::reducer::{
    active_player, chat_line_live, initial_model, live_chat_lines, phase_of, reducer_step,
    ClientPhase, GameAction, QueueStatus, ReducerModel, MAX_CHAT_LINES,
};
use crate::update::{pieces_after, players_after, update_step, UpdateStatePayload};
use crate::model::{Player, PlayerId};
use crate::chat::{has_prefix_spec, is_link_trailing_punct, trailing_punct, url_href_spec};
use crate::text::{is_whitespace, leading_ws, trailing_ws, trimmed};
use crate::model::ModeSummary;
use crate::ghosts::{ghost_target, ghosts_after, lines_upto, PremoveLine};
use crate::model::BoardCoord;
use crate::modes::{lemma_rank_bounds, ordered_modes, rank, ranked_below, with_rank};
use crate::input::{due_purchase, first_purchase, first_shop_at, tap_ok, TapOutcome};
use crate::model::Shop;
use crate::net::{outcome_of, ServerMessage};
use crate::reducer::InitPayload;
use vstd::prelude::*;

verus! {

broadcast use vstd::seq_lib::group_filter_ensures;

/// After every action the session phase is the one derived from the new state.
pub proof fn law_phase_follows_state(m: ReducerModel, a: GameAction, now: TimestampMs)
    ensures
        reducer_step(m, a, now).phase == phase_of(reducer_step(m, a, now)),
{
}

/// A fresh reducer is in the menu phase.
pub proof fn law_initial_phase_is_menu()
    ensures
        phase_of(initial_model()) == ClientPhase::Menu,
        initial_model().phase == ClientPhase::Menu,
{
}

/// `Reset` returns to the menu with no session, no premoves, no error, no
/// queue and no chat.
pub proof fn law_reset_returns_to_menu(m: ReducerModel, now: TimestampMs)
    ensures
        ({
            let n = reducer_step(m, GameAction::Reset, now);
            &&& n.phase == ClientPhase::Menu
            &&& n.player_id == Some(NIL_ID)
            &&& n.session_secret is None
            &&& n.pm_queue.len() == 0
            &&& n.error is None
            &&& n.queue_status is None
            &&& n.chat_room_key is None
            &&& n.chat_lines.len() == 0
            &&& !n.is_dead && !n.is_victory && !n.disconnected && !n.fatal_error
        }),
{
}

/// `ResetForRejoin` is `Reset` that keeps the room chat.
pub proof fn law_rejoin_reset_keeps_chat(m: ReducerModel, now: TimestampMs)
    ensures
        ({
            let r = reducer_step(m, GameAction::ResetForRejoin, now);
            let f = reducer_step(m, GameAction::Reset, now);
            &&& r.chat_lines == m.chat_lines
            &&& r.chat_room_key == m.chat_room_key
            &&& (ReducerModel { chat_lines: f.chat_lines, chat_room_key: f.chat_room_key, ..r }) == f
        }),
{
}

/// Adding a premove and then removing it by its id gives back the queue, when
/// no queued premove already used that id.
pub proof fn law_add_then_remove_premove(m: ReducerModel, pm: Pmove, now: TimestampMs)
    requires
        forall|i: int| 0 <= i < m.pm_queue.len() ==> (#[trigger] m.pm_queue[i]).id != pm.id,
    ensures
        reducer_step(reducer_step(m, GameAction::AddPmove(pm), now), GameAction::RemovePm(pm.id), now).pm_queue
            == m.pm_queue,
{
    let q = m.pm_queue;
    let pred = |p: Pmove| p.id != pm.id;
    lemma_filter_keeps_all(q, pred);
    q.lemma_filter_push(pm, pred);
    assert(without_id(q.push(pm), pm.id) == q.filter(pred));
}

proof fn lemma_filter_keeps_all(q: Seq<Pmove>, pred: spec_fn(Pmove) -> bool)
    requires
        forall|i: int| 0 <= i < q.len() ==> pred(#[trigger] q[i]),
    ensures
        q.filter(pred) == q,
    decreases q.len(),
{
    if q.len() > 0 {
        let init = q.drop_last();
        assert forall|i: int| 0 <= i < init.len() implies pred(#[trigger] init[i]) by {
            assert(init[i] == q[i]);
        }
        lemma_filter_keeps_all(init, pred);
        init.lemma_filter_push(q.last(), pred);
        assert(init.push(q.last()) =~= q);
    }
}

/// `ClearPm` leaves no premove of that piece and keeps every other premove,
/// in order.
pub proof fn law_clear_pm_drops_only_that_piece(m: ReducerModel, piece_id: PieceId, now: TimestampMs)
    ensures
        ({
            let q = reducer_step(m, GameAction::ClearPm(piece_id), now).pm_queue;
            &&& forall|i: int| 0 <= i < q.len() ==> (#[trigger] q[i]).piece_id != piece_id
            &&& q == m.pm_queue.filter(|pm: Pmove| pm.piece_id != piece_id)
        }),
{
    let q = without_piece(m.pm_queue, piece_id);
    assert forall|i: int| 0 <= i < q.len() implies (#[trigger] q[i]).piece_id != piece_id by {
        m.pm_queue.lemma_filter_pred(|pm: Pmove| pm.piece_id != piece_id, i);
    }
}

/// Once the server's copy of a piece confirms one of its board moves, no
/// queued premove that this copy confirms is left, and the premoves of other
/// pieces are untouched.
pub proof fn law_confirmation_clears_stale_premoves(q: Seq<Pmove>, piece: Piece)
    ensures
        forall|i: int| 0 <= i < drop_confirmed(q, piece).len() ==> !confirms(piece, #[trigger] drop_confirmed(q, piece)[i]),
        drop_confirmed(q, piece).filter(|pm: Pmove| pm.piece_id != piece.id)
            == q.filter(|pm: Pmove| pm.piece_id != piece.id),
{
    let k = last_confirmed(q, piece, q.len() as int);
    let other = |pm: Pmove| pm.piece_id != piece.id;
    lemma_last_confirmed_facts(q, piece, q.len() as int);
    if k >= 0 {
        let head = q.take(k + 1).filter(other);
        let tail = q.skip(k + 1);
        let r = head + tail;
        assert forall|i: int| 0 <= i < r.len() implies !confirms(piece, #[trigger] r[i]) by {
            if i < head.len() {
                q.take(k + 1).lemma_filter_pred(other, i);
            } else {
                assert(r[i] == q[k + 1 + (i - head.len())]);
            }
        }
        Seq::filter_distributes_over_add(head, tail, other);
        lemma_filter_idempotent(q.take(k + 1), other);
        Seq::filter_distributes_over_add(q.take(k + 1), tail, other);
        assert(q.take(k + 1) + tail =~= q);
    } else {
        assert forall|i: int| 0 <= i < q.len() implies !confirms(piece, #[trigger] q[i]) by {}
    }
}

proof fn lemma_last_confirmed_facts(q: Seq<Pmove>, piece: Piece, n: int)
    ensures
        -1 <= last_confirmed(q, piece, n) < if n <= 0 { 0 } else { n },
        forall|j: int| last_confirmed(q, piece, n) < j < n ==> !confirms(piece, #[trigger] q[j]),
    decreases n,
{
    if n > 0 {
        lemma_last_confirmed_facts(q, piece, n - 1);
    }
}

proof fn lemma_filter_idempotent(q: Seq<Pmove>, pred: spec_fn(Pmove) -> bool)
    ensures
        q.filter(pred).filter(pred) == q.filter(pred),
{
    let f = q.filter(pred);
    assert forall|i: int| 0 <= i < f.len() implies pred(#[trigger] f[i]) by {
        q.lemma_filter_pred(pred, i);
    }
    lemma_filter_keeps_all(f, pred);
}

/// Pieces that an update lists as removed are gone from the state afterwards,
/// and so are all premoves of those pieces.
pub proof fn law_update_removes_pieces(m: ReducerModel, u: UpdateStatePayload, now: TimestampMs, id: PieceId)
    requires
        u.removed_pieces@.contains(id),
    ensures
        !update_step(m, u, now).state.pieces.contains_key(id),
        forall|i: int| 0 <= i < update_step(m, u, now).pm_queue.len()
            ==> (#[trigger] update_step(m, u, now).pm_queue[i]).piece_id != id,
{
    let n = update_step(m, u, now);
    let pred = |pm: Pmove| !u.removed_pieces@.contains(pm.piece_id);
    assert forall|i: int| 0 <= i < n.pm_queue.len() implies (#[trigger] n.pm_queue[i]).piece_id != id by {
        let src = crate::update::queue_after_pieces(
            crate::premoves::remap_all(
                m.pm_queue,
                crate::update::reassignments(m.state.pieces, u.pieces@, u.pieces@.len() as int),
            ),
            u.pieces@,
            u.pieces@.len() as int,
        );
        src.lemma_filter_pred(pred, i);
    }
}

/// Pushing a chat line keeps at most [`MAX_CHAT_LINES`] lines, the pushed
/// line last.
pub proof fn law_chat_is_bounded(m: ReducerModel, line: ChatLine, now: TimestampMs)
    ensures
        ({
            let lines = reducer_step(m, GameAction::PushChatLine(line), now).chat_lines;
            &&& lines.len() == if m.chat_lines.len() + 1 > MAX_CHAT_LINES {
                MAX_CHAT_LINES as int
            } else {
                m.chat_lines.len() + 1 as int
            }
            &&& lines.len() > 0 && lines.last() == line
        }),
{
}

/// After pruning, every chat line left is live, and pruning again at the
/// same time changes nothing.
pub proof fn law_prune_keeps_live_lines(lines: Seq<ChatLine>, now: TimestampMs, ttl_ms: u32)
    ensures
        forall|i: int| 0 <= i < live_chat_lines(lines, now, ttl_ms).len()
            ==> chat_line_live(#[trigger] live_chat_lines(lines, now, ttl_ms)[i].sent_at, now, ttl_ms),
        live_chat_lines(live_chat_lines(lines, now, ttl_ms), now, ttl_ms) == live_chat_lines(lines, now, ttl_ms),
{
    let pred = |line: ChatLine| chat_line_live(line.sent_at, now, ttl_ms);
    let f = lines.filter(pred);
    assert forall|i: int| 0 <= i < f.len() implies chat_line_live(#[trigger] f[i].sent_at, now, ttl_ms) by {
        lines.lemma_filter_pred(pred, i);
    }
    lemma_chat_filter_keeps_all(f, pred);
}

proof fn lemma_chat_filter_keeps_all(q: Seq<ChatLine>, pred: spec_fn(ChatLine) -> bool)
    requires
        forall|i: int| 0 <= i < q.len() ==> pred(#[trigger] q[i]),
    ensures
        q.filter(pred) == q,
    decreases q.len(),
{
    if q.len() > 0 {
        let init = q.drop_last();
        assert forall|i: int| 0 <= i < init.len() implies pred(#[trigger] init[i]) by {
            assert(init[i] == q[i]);
        }
        lemma_chat_filter_keeps_all(init, pred);
        init.lemma_filter_push(q.last(), pred);
        assert(init.push(q.last()) =~= q);
    }
}

/// Entering a queue without an active player session shows the queue phase.
pub proof fn law_queue_status_without_session_is_queued(m: ReducerModel, status: QueueStatus, now: TimestampMs)
    requires
        active_player(m.player_id) is None,
    ensures
        reducer_step(m, GameAction::SetQueueStatus(status), now).phase == ClientPhase::Queued,
{
}

/// A game over for an active player marks the player dead and shows the dead phase.
pub proof fn law_game_over_is_dead(
    m: ReducerModel,
    final_score: u64,
    kills: u32,
    pieces_captured: u32,
    time_survived_secs: u64,
    now: TimestampMs,
)
    requires
        active_player(m.player_id) is Some,
    ensures
        ({
            let n = reducer_step(m, GameAction::GameOver { final_score, kills, pieces_captured, time_survived_secs }, now);
            &&& n.is_dead && !n.is_victory
            &&& n.phase == ClientPhase::Dead
            &&& n.last_score == final_score && n.last_kills == kills
            &&& n.last_captured == pieces_captured && n.last_survival_secs == time_survived_secs
        }),
{
}

/// A game over shows the server's numbers on the end screen, whatever the
/// state before: final score, kills, captures and time survived, and the
/// victory heading is gone.
pub proof fn law_game_over_shows_server_stats(
    m: ReducerModel,
    final_score: u64,
    kills: u32,
    pieces_captured: u32,
    time_survived_secs: u64,
    now: TimestampMs,
)
    ensures
        ({
            let n = reducer_step(m, GameAction::GameOver { final_score, kills, pieces_captured, time_survived_secs }, now);
            &&& n.last_score == final_score
            &&& n.last_kills == kills
            &&& n.last_captured == pieces_captured
            &&& n.last_survival_secs == time_survived_secs
            &&& n.is_dead
            &&& !n.is_victory
            &&& n.victory_title is None && n.victory_msg is None
        }),
{
}

/// The last index below `n` at which `inc` holds a piece with id `id`, or `-1`.
pub open spec fn last_piece_index(inc: Seq<Piece>, id: PieceId, n: int) -> int
    decreases n,
{
    if n <= 0 {
        -1
    } else if inc[n - 1].id == id {
        n - 1
    } else {
        last_piece_index(inc, id, n - 1)
    }
}

proof fn lemma_pieces_after_last(base: Map<PieceId, Piece>, inc: Seq<Piece>, id: PieceId, n: int)
    requires
        0 <= n <= inc.len(),
    ensures
        last_piece_index(inc, id, n) >= 0 ==> pieces_after(base, inc, n).contains_key(id)
            && pieces_after(base, inc, n)[id] == inc[last_piece_index(inc, id, n)],
        last_piece_index(inc, id, n) < 0 ==> (pieces_after(base, inc, n).contains_key(id) == base.contains_key(id)
            && (base.contains_key(id) ==> pieces_after(base, inc, n)[id] == base[id])),
    decreases n,
{
    if n > 0 {
        lemma_pieces_after_last(base, inc, id, n - 1);
    }
}

/// After an update, each piece it sends and does not remove is in the state
/// as sent (the last copy when the update sends a piece twice).
pub proof fn law_update_stores_sent_pieces(m: ReducerModel, u: UpdateStatePayload, now: TimestampMs, id: PieceId)
    requires
        last_piece_index(u.pieces@, id, u.pieces@.len() as int) >= 0,
        !u.removed_pieces@.contains(id),
    ensures
        update_step(m, u, now).state.pieces.contains_key(id),
        update_step(m, u, now).state.pieces[id] == u.pieces@[last_piece_index(u.pieces@, id, u.pieces@.len() as int)],
{
    lemma_pieces_after_last(m.state.pieces, u.pieces@, id, u.pieces@.len() as int);
}

/// The last index below `n` at which `inc` holds a player with id `id`, or `-1`.
pub open spec fn last_player_index(inc: Seq<Player>, id: PlayerId, n: int) -> int
    decreases n,
{
    if n <= 0 {
        -1
    } else if inc[n - 1].id == id {
        n - 1
    } else {
        last_player_index(inc, id, n - 1)
    }
}

proof fn lemma_players_after_last(base: Map<PlayerId, Player>, inc: Seq<Player>, id: PlayerId, n: int)
    requires
        0 <= n <= inc.len(),
    ensures
        last_player_index(inc, id, n) >= 0 ==> players_after(base, inc, n).contains_key(id)
            && players_after(base, inc, n)[id] == inc[last_player_index(inc, id, n)],
    decreases n,
{
    if n > 0 {
        lemma_players_after_last(base, inc, id, n - 1);
    }
}

/// After an update, each player it sends and does not remove is in the state
/// as sent (the last copy when the update sends a player twice).
pub proof fn law_update_stores_sent_players(m: ReducerModel, u: UpdateStatePayload, now: TimestampMs, id: PlayerId)
    requires
        last_player_index(u.players@, id, u.players@.len() as int) >= 0,
        !u.removed_players@.contains(id),
    ensures
        update_step(m, u, now).state.players.contains_key(id),
        update_step(m, u, now).state.players[id] == u.players@[last_player_index(u.players@, id, u.players@.len() as int)],
{
    lemma_players_after_last(m.state.players, u.players@, id, u.players@.len() as int);
}

/// A chat token is its link core followed by the trailing punctuation, and
/// the core does not end in such punctuation.
pub proof fn law_link_split_rejoins(token: Seq<char>)
    ensures
        ({
            let k = token.len() - trailing_punct(token);
            &&& token.take(k) + token.skip(k) == token
            &&& k > 0 ==> !is_link_trailing_punct(token.take(k).last())
        }),
{
    lemma_trailing_punct_bounds(token);
    let k = token.len() - trailing_punct(token);
    assert(token.take(k) + token.skip(k) =~= token);
}

proof fn lemma_trailing_punct_bounds(s: Seq<char>)
    ensures
        0 <= trailing_punct(s) <= s.len(),
        trailing_punct(s) < s.len() ==> !is_link_trailing_punct(s[s.len() - trailing_punct(s) - 1]),
    decreases s.len(),
{
    if s.len() > 0 && is_link_trailing_punct(s.last()) {
        let t = s.drop_last();
        lemma_trailing_punct_bounds(t);
        if trailing_punct(s) < s.len() {
            assert(s[s.len() - trailing_punct(s) - 1] == t[t.len() - trailing_punct(t) - 1]);
        }
    }
}

/// Every link target starts with `http://` or `https://`.
pub proof fn law_links_are_web_addresses(token: Seq<char>)
    ensures
        url_href_spec(token) matches Some(u) ==> has_prefix_spec(u, "http://"@) || has_prefix_spec(u, "https://"@),
{
    if let Some(u) = url_href_spec(token) {
        if !(has_prefix_spec(token, "http://"@) || has_prefix_spec(token, "https://"@)) {
            let p = "https://"@;
            assert((p + token).subrange(0, p.len() as int) =~= p);
        }
    }
}

proof fn lemma_leading_ws_bounds(s: Seq<char>)
    ensures
        0 <= leading_ws(s) <= s.len(),
        forall|i: int| 0 <= i < leading_ws(s) ==> is_whitespace(#[trigger] s[i]),
        leading_ws(s) < s.len() ==> !is_whitespace(s[leading_ws(s)]),
    decreases s.len(),
{
    if s.len() > 0 && is_whitespace(s[0]) {
        let t = s.drop_first();
        lemma_leading_ws_bounds(t);
        assert forall|i: int| 0 <= i < leading_ws(s) implies is_whitespace(#[trigger] s[i]) by {
            if i > 0 {
                assert(s[i] == t[i - 1]);
            }
        }
        if leading_ws(s) < s.len() {
            assert(s[leading_ws(s)] == t[leading_ws(t)]);
        }
    }
}

proof fn lemma_trailing_ws_bounds(s: Seq<char>)
    ensures
        0 <= trailing_ws(s) <= s.len(),
        forall|i: int| s.len() - trailing_ws(s) <= i < s.len() ==> is_whitespace(#[trigger] s[i]),
        trailing_ws(s) < s.len() ==> !is_whitespace(s[s.len() - trailing_ws(s) - 1]),
    decreases s.len(),
{
    if s.len() > 0 && is_whitespace(s.last()) {
        let t = s.drop_last();
        lemma_trailing_ws_bounds(t);
        assert forall|i: int| s.len() - trailing_ws(s) <= i < s.len() implies is_whitespace(#[trigger] s[i]) by {
            if i < s.len() - 1 {
                assert(s[i] == t[i]);
            }
        }
        if trailing_ws(s) < s.len() {
            assert(s[s.len() - trailing_ws(s) - 1] == t[t.len() - trailing_ws(t) - 1]);
        }
    }
}

proof fn lemma_ws_count(s: Seq<char>, n: int)
    requires
        0 <= n <= s.len(),
        forall|i: int| 0 <= i < n ==> is_whitespace(#[trigger] s[i]),
        n == s.len() || !is_whitespace(s[n]),
    ensures
        leading_ws(s) == n,
    decreases n,
{
    if n > 0 {
        let t = s.drop_first();
        assert forall|i: int| 0 <= i < n - 1 implies is_whitespace(#[trigger] t[i]) by {
            assert(t[i] == s[i + 1]);
        }
        if n - 1 < t.len() {
            assert(t[n - 1] == s[n]);
        }
        lemma_ws_count(t, n - 1);
    }
}

proof fn lemma_trailing_count(s: Seq<char>, n: int)
    requires
        0 <= n <= s.len(),
        forall|i: int| s.len() - n <= i < s.len() ==> is_whitespace(#[trigger] s[i]),
        n == s.len() || !is_whitespace(s[s.len() - n - 1]),
    ensures
        trailing_ws(s) == n,
    decreases n,
{
    if n > 0 {
        let t = s.drop_last();
        assert forall|i: int| t.len() - (n - 1) <= i < t.len() implies is_whitespace(#[trigger] t[i]) by {
            assert(t[i] == s[i]);
        }
        if n - 1 < t.len() {
            assert(t[t.len() - (n - 1) - 1] == s[s.len() - n - 1]);
        }
        lemma_trailing_count(t, n - 1);
    }
}

/// Trimmed text neither starts nor ends with whitespace, and trimming it
/// again changes nothing.
pub proof fn law_trim_is_idempotent(s: Seq<char>)
    ensures
        trimmed(s).len() > 0 ==> !is_whitespace(trimmed(s)[0]) && !is_whitespace(trimmed(s).last()),
        trimmed(trimmed(s)) == trimmed(s),
{
    lemma_leading_ws_bounds(s);
    lemma_trailing_ws_bounds(s);
    let t = trimmed(s);
    let a = leading_ws(s);
    if a < s.len() {
        let b = trailing_ws(s);
        // the first non-space character lies before the trailing run
        assert(a < s.len() - b) by {
            if a >= s.len() - b {
                assert(is_whitespace(s[a]));
            }
        }
        assert(t[0] == s[a]);
        assert(t.last() == s[s.len() - b - 1]);
        lemma_ws_count(t, 0);
        lemma_trailing_count(t, 0);
        assert(t.subrange(0, t.len() as int) =~= t);
    } else {
        assert(t.len() == 0);
        lemma_ws_count(t, 0);
    }
}

proof fn lemma_ranked_below_empty(order: Seq<String>, r: int)
    ensures
        ranked_below(Seq::<ModeSummary>::empty(), order, r) =~= Seq::<ModeSummary>::empty(),
    decreases r,
{
    if r > 0 {
        lemma_ranked_below_empty(order, r - 1);
        assert(with_rank(Seq::<ModeSummary>::empty(), order, r - 1) =~= Seq::<ModeSummary>::empty());
    }
}

proof fn lemma_ranked_below_push(list: Seq<ModeSummary>, order: Seq<String>, e: ModeSummary, r: int)
    ensures
        ranked_below(list.push(e), order, r).to_multiset() =~= if rank(e.id@, order) < r {
            ranked_below(list, order, r).to_multiset().insert(e)
        } else {
            ranked_below(list, order, r).to_multiset()
        },
    decreases r,
{
    broadcast use vstd::multiset::group_multiset_axioms;

    lemma_rank_bounds(e.id@, order);
    if r > 0 {
        lemma_ranked_below_push(list, order, e, r - 1);
        let pred = |m: ModeSummary| rank(m.id@, order) == r - 1;
        list.lemma_filter_push(e, pred);
        let a = ranked_below(list, order, r - 1);
        let b = with_rank(list, order, r - 1);
        let a2 = ranked_below(list.push(e), order, r - 1);
        let b2 = with_rank(list.push(e), order, r - 1);
        assert(b == list.filter(pred));
        assert(b2 == list.push(e).filter(pred));
        vstd::seq_lib::lemma_multiset_commutative(a, b);
        vstd::seq_lib::lemma_multiset_commutative(a2, b2);
        if pred(e) {
            vstd::seq_lib::to_multiset_build(b, e);
            assert(b2.to_multiset() =~= b.to_multiset().insert(e));
        } else {
            assert(b2 == b);
        }
    }
}

/// Ordering the mode list by preference keeps every mode exactly as often as
/// it was listed: the result is a rearrangement of the input.
pub proof fn law_mode_ordering_keeps_every_mode(list: Seq<ModeSummary>, order: Seq<String>)
    ensures
        ordered_modes(list, order).to_multiset() =~= list.to_multiset(),
        ordered_modes(list, order).len() == list.len(),
    decreases list.len(),
{
    broadcast use vstd::multiset::group_multiset_axioms;

    let n: int = order.len() as int + 1;
    if list.len() == 0 {
        lemma_ranked_below_empty(order, n);
        assert(list =~= Seq::<ModeSummary>::empty());
    } else {
        let l = list.drop_last();
        let e = list.last();
        assert(l.push(e) =~= list);
        law_mode_ordering_keeps_every_mode(l, order);
        lemma_rank_bounds(e.id@, order);
        lemma_ranked_below_push(l, order, e, n);
        vstd::seq_lib::to_multiset_build(l, e);
    }
    vstd::seq_lib::to_multiset_len(ordered_modes(list, order));
    vstd::seq_lib::to_multiset_len(list);
}

/// Target of the last line of piece `id` in `lines`, or `start` when none is its.
pub open spec fn last_line_end(lines: Seq<PremoveLine>, id: PieceId, start: BoardCoord) -> BoardCoord
    decreases lines.len(),
{
    if lines.len() == 0 {
        start
    } else if lines.last().piece_id == id {
        lines.last().target
    } else {
        last_line_end(lines.drop_last(), id, start)
    }
}

proof fn lemma_ghost_target_is_last_line_end(q: Seq<Pmove>, pieces: Map<PieceId, Piece>, id: PieceId, n: int)
    requires
        pieces.contains_key(id),
        0 <= n <= q.len(),
    ensures
        ghost_target(q.take(n), id, pieces[id].position)
            == last_line_end(lines_upto(q, pieces, n), id, pieces[id].position),
    decreases n,
{
    if n > 0 {
        lemma_ghost_target_is_last_line_end(q, pieces, id, n - 1);
        assert(q.take(n).drop_last() =~= q.take(n - 1));
        let prev = lines_upto(q, pieces, n - 1);
        if pieces.contains_key(q[n - 1].piece_id) {
            let l = crate::ghosts::line_of(q, n - 1, pieces[q[n - 1].piece_id].position);
            assert(prev.push(l).drop_last() =~= prev);
        }
    }
}

/// A piece's ghost stands where its last premove line ends, or on the
/// piece's own square when it has no premove: the ghosts and the drawn
/// lines never disagree.
pub proof fn law_ghost_stands_at_last_line_end(q: Seq<Pmove>, pieces: Map<PieceId, Piece>, id: PieceId)
    requires
        pieces.contains_key(id),
    ensures
        ghosts_after(pieces, q, pieces.dom())[id].position
            == last_line_end(lines_upto(q, pieces, q.len() as int), id, pieces[id].position),
{
    lemma_ghost_target_is_last_line_end(q, pieces, id, q.len() as int);
    assert(q.take(q.len() as int) =~= q);
}

/// Remembering the session: an `Init` for a real player stores that player's
/// id and session secret for the mode; a spectator `Init` (nil player)
/// stores nothing. Either way the snapshot is handed to the reducer and no
/// stored session is cleared.
pub proof fn law_init_stores_real_sessions(p: InitPayload)
    ensures
        p.player_id != NIL_ID ==> outcome_of(ServerMessage::Init(Box::new(p))).store_session
            == Some((p.player_id, p.session_secret)),
        p.player_id == NIL_ID ==> outcome_of(ServerMessage::Init(Box::new(p))).store_session is None,
        outcome_of(ServerMessage::Init(Box::new(p))).action == Some(GameAction::SetInit(Box::new(p))),
        !outcome_of(ServerMessage::Init(Box::new(p))).clear_session,
{
}

/// Tapping one of my real pieces that has queued premoves cancels them: the
/// outcome clears the premoves of such a piece (one of mine, standing on the
/// tapped square in the real state, with a queued premove), whatever the
/// ghosts show, and toggles its selection.
pub proof fn law_tap_on_real_piece_clears_its_premoves(
    o: TapOutcome,
    target: BoardCoord,
    me: PlayerId,
    selected: Option<PieceId>,
    pieces: Map<PieceId, Piece>,
    q: Seq<Pmove>,
    ghosts: Map<PieceId, Piece>,
    k: PieceId,
    i: int,
)
    requires
        tap_ok(o, false, target, me, selected, pieces, q, ghosts),
        pieces.contains_key(k),
        pieces[k].owner_id == Some(me),
        pieces[k].position == target,
        0 <= i < q.len(),
        q[i].piece_id == pieces[k].id,
    ensures
        o matches TapOutcome::ClearPremoves { piece_id, select } && {
            &&& exists|k2: PieceId| #![auto] pieces.contains_key(k2) && pieces[k2].id == piece_id
                && pieces[k2].owner_id == Some(me) && pieces[k2].position == target
            &&& exists|j: int| 0 <= j < q.len() && #[trigger] q[j].piece_id == piece_id
            &&& select == (if selected == Some(piece_id) { None } else { Some(piece_id) })
        },
{
    assert(crate::input::clearable(pieces, q, k, target, me));
}

/// An update replaces the shops with those it sends and takes its board size.
pub proof fn law_update_replaces_shops(m: ReducerModel, u: UpdateStatePayload, now: TimestampMs)
    ensures
        update_step(m, u, now).state.shops == u.shops@,
        update_step(m, u, now).state.board_size == u.board_size,
{
}

proof fn lemma_first_purchase(q: Seq<Pmove>, n: int)
    requires
        0 <= n <= q.len(),
    ensures
        first_purchase(q, n) == -1 || (0 <= first_purchase(q, n) < n
            && q[first_purchase(q, n)].shop_item_index is Some),
        forall|j: int| 0 <= j < n && (first_purchase(q, n) == -1 || j < first_purchase(q, n))
            ==> (#[trigger] q[j]).shop_item_index is None,
    decreases n,
{
    if n > 0 {
        lemma_first_purchase(q, n - 1);
    }
}

proof fn lemma_first_shop_at(shops: Seq<Shop>, pos: BoardCoord, n: int)
    requires
        0 <= n <= shops.len(),
    ensures
        first_shop_at(shops, pos, n) == -1 || (0 <= first_shop_at(shops, pos, n) < n
            && shops[first_shop_at(shops, pos, n)].position == pos),
    decreases n,
{
    if n > 0 {
        lemma_first_shop_at(shops, pos, n - 1);
    }
}

/// A purchase is carried out only once its piece has arrived: the due
/// purchase is the first queued purchase, its piece is mine and stands on the
/// purchase's target square, and the shop it names stands on that square.
pub proof fn law_purchase_waits_for_arrival(q: Seq<Pmove>, pieces: Map<PieceId, Piece>, shops: Seq<Shop>, me: PlayerId)
    ensures
        due_purchase(q, pieces, shops, me) matches Some((pm, s)) ==> {
            &&& pm.shop_item_index is Some
            &&& exists|i: int| 0 <= i < q.len() && q[i] == pm && forall|j: int|
                0 <= j < i ==> (#[trigger] q[j]).shop_item_index is None
            &&& pieces.contains_key(pm.piece_id)
            &&& pieces[pm.piece_id].owner_id == Some(me)
            &&& pieces[pm.piece_id].position == pm.target
            &&& 0 <= s < shops.len()
            &&& shops[s].position == pm.target
        },
{
    lemma_first_purchase(q, q.len() as int);
    let k = first_purchase(q, q.len() as int);
    if k >= 0 {
        lemma_first_shop_at(shops, q[k].target, shops.len() as int);
    }
}

} // verus!
