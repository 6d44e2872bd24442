//! The client reducer: aggregated game state and UI state, and the state
//! machine that applies server messages and local input to it.

use crate::clock::now_timestamp_ms;
use crate::model::{
    empty_game_state, ChatLine, GameError, GameState, GameStateModel, ModeConfig, PieceConfig,
    PieceId, PlayerId, SessionSecret, ShopConfig, TimestampMs, VictoryFocusTarget, NIL_ID,
};
use crate::premoves::{
    drop_first_board_move, drop_id, drop_missing_pieces, drop_piece, remove_first_board_move,
    with_existing_pieces, without_id, without_piece, Pmove,
};
use crate::update::{update_step, UpdateStatePayload};
use std::collections::HashMap;
use vstd::prelude::*;

verus! {

broadcast use vstd::std_specs::hash::group_hash_axioms;

/// High-level client session phase used for UI and camera behavior.
#[derive(Clone, Copy, PartialEq, Eq, Structural, Debug)]
pub enum ClientPhase {
    Menu,
    Queued,
    Joining,
    Alive,
    Dead,
}

impl Default for ClientPhase {
    /// The client starts in the menu.
    fn default() -> (p: ClientPhase)
        ensures
            p == ClientPhase::Menu,
    {
        ClientPhase::Menu
    }
}

/// Queue state shown while waiting for a matchmaking game to start.
#[derive(Clone, Copy, PartialEq, Eq, Structural, Debug)]
pub struct QueueStatus {
    pub position_in_queue: u32,
    pub queued_players: u32,
    pub required_players: u32,
}

impl QueueStatus {
    /// Returns how many additional players are needed to start the match.
    pub fn players_needed(&self) -> (n: u32)
        ensures
            n == if self.required_players >= self.queued_players {
                self.required_players - self.queued_players
            } else {
                0
            },
    {
        self.required_players.saturating_sub(self.queued_players)
    }
}

/// Aggregated client game state and UI state.
#[derive(Clone, PartialEq, Debug)]
pub struct GameStateReducer {
    pub state: GameState,
    pub menu_preview_state: Option<GameState>,
    pub mode: Option<ModeConfig>,
    pub piece_configs: HashMap<String, PieceConfig>,
    pub shop_configs: HashMap<String, ShopConfig>,
    pub player_id: Option<PlayerId>,
    pub session_secret: Option<SessionSecret>,
    pub move_unlock_at: Option<TimestampMs>,
    pub error: Option<GameError>,
    pub pm_queue: Vec<Pmove>,
    pub last_score: u64,
    pub last_kills: u32,
    pub last_captured: u32,
    pub last_survival_secs: u64,
    pub ping_ms: u64,
    pub clock_offset_ms: i64,
    pub sync_interval_ms: u32,
    pub fps: u32,
    pub disconnected: bool,
    pub fatal_error: bool,
    pub is_dead: bool,
    pub is_victory: bool,
    pub queue_status: Option<QueueStatus>,
    pub phase: ClientPhase,
    pub disconnected_title: Option<String>,
    pub disconnected_msg: Option<String>,
    pub victory_title: Option<String>,
    pub victory_msg: Option<String>,
    pub victory_focus_target: VictoryFocusTarget,
    pub chat_room_key: Option<String>,
    pub chat_lines: Vec<ChatLine>,
}

/// Mathematical model of a [`GameStateReducer`]: the same fields, with
/// maps and vectors seen as `Map` and `Seq`.
pub struct ReducerModel {
    pub state: GameStateModel,
    pub menu_preview_state: Option<GameStateModel>,
    pub mode: Option<ModeConfig>,
    pub piece_configs: Map<String, PieceConfig>,
    pub shop_configs: Map<String, ShopConfig>,
    pub player_id: Option<PlayerId>,
    pub session_secret: Option<SessionSecret>,
    pub move_unlock_at: Option<TimestampMs>,
    pub error: Option<GameError>,
    pub pm_queue: Seq<Pmove>,
    pub last_score: u64,
    pub last_kills: u32,
    pub last_captured: u32,
    pub last_survival_secs: u64,
    pub ping_ms: u64,
    pub clock_offset_ms: i64,
    pub sync_interval_ms: u32,
    pub fps: u32,
    pub disconnected: bool,
    pub fatal_error: bool,
    pub is_dead: bool,
    pub is_victory: bool,
    pub queue_status: Option<QueueStatus>,
    pub phase: ClientPhase,
    pub disconnected_title: Option<String>,
    pub disconnected_msg: Option<String>,
    pub victory_title: Option<String>,
    pub victory_msg: Option<String>,
    pub victory_focus_target: VictoryFocusTarget,
    pub chat_room_key: Option<String>,
    pub chat_lines: Seq<ChatLine>,
}

/// The model of an optional world.
pub open spec fn opt_state_view(s: Option<GameState>) -> Option<GameStateModel> {
    match s {
        Some(g) => Some(g@),
        None => None,
    }
}

impl View for GameStateReducer {
    type V = ReducerModel;

    open spec fn view(&self) -> ReducerModel {
        ReducerModel {
            state: self.state@,
            menu_preview_state: opt_state_view(self.menu_preview_state),
            mode: self.mode,
            piece_configs: self.piece_configs@,
            shop_configs: self.shop_configs@,
            player_id: self.player_id,
            session_secret: self.session_secret,
            move_unlock_at: self.move_unlock_at,
            error: self.error,
            pm_queue: self.pm_queue@,
            last_score: self.last_score,
            last_kills: self.last_kills,
            last_captured: self.last_captured,
            last_survival_secs: self.last_survival_secs,
            ping_ms: self.ping_ms,
            clock_offset_ms: self.clock_offset_ms,
            sync_interval_ms: self.sync_interval_ms,
            fps: self.fps,
            disconnected: self.disconnected,
            fatal_error: self.fatal_error,
            is_dead: self.is_dead,
            is_victory: self.is_victory,
            queue_status: self.queue_status,
            phase: self.phase,
            disconnected_title: self.disconnected_title,
            disconnected_msg: self.disconnected_msg,
            victory_title: self.victory_title,
            victory_msg: self.victory_msg,
            victory_focus_target: self.victory_focus_target,
            chat_room_key: self.chat_room_key,
            chat_lines: self.chat_lines@,
        }
    }
}

/// The local player id when it names an active session player (not nil).
pub open spec fn active_player(player_id: Option<PlayerId>) -> Option<PlayerId> {
    match player_id {
        Some(id) => if id != NIL_ID { Some(id) } else { None },
        None => None,
    }
}

/// Whole seconds elapsed from `start` to `now`, zero when `now` is not later.
pub open spec fn elapsed_secs(now: TimestampMs, start: TimestampMs) -> u64 {
    if now > start {
        ((now - start) / 1000) as u64
    } else {
        0
    }
}

/// Computes [`elapsed_secs`].
pub fn elapsed_secs_between(now: TimestampMs, start: TimestampMs) -> (s: u64)
    ensures
        s == elapsed_secs(now, start),
{
    if now > start {
        let diff: i128 = now as i128 - start as i128;
        (diff / 1000) as u64
    } else {
        0
    }
}

impl GameStateReducer {
    /// Returns the local player id when it represents an active session player.
    pub fn active_player_id(&self) -> (r: Option<PlayerId>)
        ensures
            r == active_player(self.player_id),
    {
        match self.player_id {
            Some(id) => if id != NIL_ID { Some(id) } else { None },
            None => None,
        }
    }
}

/// Initial game snapshot payload delivered on connect.
#[derive(Clone, PartialEq, Debug)]
pub struct InitPayload {
    pub player_id: PlayerId,
    pub session_secret: SessionSecret,
    pub move_unlock_at: Option<TimestampMs>,
    pub state: GameState,
    pub mode: ModeConfig,
    pub pieces: HashMap<String, PieceConfig>,
    pub shops: HashMap<String, ShopConfig>,
    pub chat_room_key: String,
    pub chat_history: Vec<ChatLine>,
    pub sync_interval_ms: u32,
}

/// Actions that drive the client reducer state machine.
#[derive(Clone, PartialEq, Debug)]
pub enum GameAction {
    SetInit(Box<InitPayload>),
    SetQueueStatus(QueueStatus),
    UpdateState(Box<UpdateStatePayload>),
    PushChatLine(ChatLine),
    PruneExpiredChat { now: TimestampMs, ttl_ms: u32 },
    SetError(GameError),
    SetVictory { title: String, msg: String, focus_target: VictoryFocusTarget },
    GameOver { final_score: u64, kills: u32, pieces_captured: u32, time_survived_secs: u64 },
    AddPmove(Pmove),
    RemovePm(u64),
    ClearPm(PieceId),
    /// A pong answered: the round trip in milliseconds, the clock offset that
    /// this round trip measured, and that sample blended into the current offset.
    Pong { ping_ms: u64, sample_offset_ms: i64, smoothed_offset_ms: i64 },
    SetFPS(u32),
    SetDisconnected { disconnected: bool, is_fatal: bool, title: Option<String>, msg: Option<String> },
    ResetForRejoin,
    Reset,
}

/// Most chat lines kept in the reducer.
pub const MAX_CHAT_LINES: usize = 120;

/// How long a chat line stays visible after its time to live, while it fades out.
pub const CHAT_FADE_OUT_MS: i64 = 500;

/// Whether the server error likely corresponds to a rejected move request.
pub open spec fn is_move_error_spec(e: GameError) -> bool {
    match e {
        GameError::PieceNotFound | GameError::NotYourPiece | GameError::OnCooldown
        | GameError::TargetFriendly | GameError::InvalidMove | GameError::PathBlocked => true,
        GameError::Custom { .. } => false,
    }
}

/// Returns true when the server error likely corresponds to a rejected move request.
pub fn is_move_error(error: &GameError) -> (b: bool)
    ensures
        b == is_move_error_spec(*error),
{
    match error {
        GameError::PieceNotFound | GameError::NotYourPiece | GameError::OnCooldown
        | GameError::TargetFriendly | GameError::InvalidMove | GameError::PathBlocked => true,
        GameError::Custom { .. } => false,
    }
}

/// The session phase derived from the authoritative state and the local
/// death and victory flags.
pub open spec fn phase_of(m: ReducerModel) -> ClientPhase {
    match active_player(m.player_id) {
        None => if m.queue_status is Some { ClientPhase::Queued } else { ClientPhase::Menu },
        Some(pid) => {
            if m.is_dead || m.is_victory {
                ClientPhase::Dead
            } else if m.state.players.contains_key(pid) && m.state.pieces.contains_key(
                m.state.players[pid].king_id,
            ) {
                ClientPhase::Alive
            } else {
                ClientPhase::Joining
            }
        },
    }
}

/// Whether a chat line sent at `sent_at` is still shown (or fading) at `now`.
pub open spec fn chat_line_live(sent_at: TimestampMs, now: TimestampMs, ttl_ms: u32) -> bool {
    saturating_diff(now, sent_at) < (if ttl_ms == 0 { 1 } else { ttl_ms as int }) + CHAT_FADE_OUT_MS
}

/// `a - b` clamped to the range of `i64`.
pub open spec fn saturating_diff(a: i64, b: i64) -> int {
    if a - b < i64::MIN {
        i64::MIN as int
    } else if a - b > i64::MAX {
        i64::MAX as int
    } else {
        a - b
    }
}

/// Computes `a - b` saturating at the bounds of `i64`.
pub fn saturating_sub_i64(a: i64, b: i64) -> (r: i64)
    ensures
        r == saturating_diff(a, b),
{
    let d: i128 = a as i128 - b as i128;
    if d < i64::MIN as i128 {
        i64::MIN
    } else if d > i64::MAX as i128 {
        i64::MAX
    } else {
        d as i64
    }
}

/// The chat lines of `lines` still live at `now`.
pub open spec fn live_chat_lines(lines: Seq<ChatLine>, now: TimestampMs, ttl_ms: u32) -> Seq<ChatLine> {
    lines.filter(|line: ChatLine| chat_line_live(line.sent_at, now, ttl_ms))
}

/// `lines` with `line` appended, keeping only the newest [`MAX_CHAT_LINES`].
pub open spec fn pushed_chat_lines(lines: Seq<ChatLine>, line: ChatLine) -> Seq<ChatLine> {
    let pushed = lines.push(line);
    if pushed.len() > MAX_CHAT_LINES {
        pushed.skip(pushed.len() - MAX_CHAT_LINES)
    } else {
        pushed
    }
}

/// Reconnect and disconnect details cleared; the fatal flag is kept.
pub open spec fn without_disconnect_ui(m: ReducerModel) -> ReducerModel {
    ReducerModel { disconnected: false, disconnected_title: None, disconnected_msg: None, ..m }
}

/// Victory message text cleared.
pub open spec fn without_victory_messages(m: ReducerModel) -> ReducerModel {
    ReducerModel { victory_title: None, victory_msg: None, ..m }
}

/// All victory state cleared.
pub open spec fn without_victory_state(m: ReducerModel) -> ReducerModel {
    ReducerModel {
        is_victory: false,
        victory_title: None,
        victory_msg: None,
        victory_focus_target: VictoryFocusTarget::KeepCurrent,
        ..m
    }
}

/// End-screen statistics taken from the local player's live entry, when the
/// state has one.
pub open spec fn with_current_player_stats(m: ReducerModel, now: TimestampMs) -> ReducerModel {
    match m.player_id {
        Some(pid) => if m.state.players.contains_key(pid) {
            let p = m.state.players[pid];
            ReducerModel {
                last_score: p.score,
                last_kills: p.kills,
                last_captured: p.pieces_captured,
                last_survival_secs: elapsed_secs(now, p.join_time),
                ..m
            }
        } else {
            m
        },
        None => m,
    }
}

/// The state after a new session snapshot.
pub open spec fn init_step(m: ReducerModel, p: InitPayload) -> ReducerModel {
    let spectator = p.player_id == NIL_ID;
    let base = ReducerModel {
        player_id: Some(p.player_id),
        session_secret: Some(p.session_secret),
        move_unlock_at: p.move_unlock_at,
        state: p.state@,
        mode: Some(p.mode),
        piece_configs: p.pieces@,
        shop_configs: p.shops@,
        chat_room_key: Some(p.chat_room_key),
        chat_lines: p.chat_history@,
        sync_interval_ms: p.sync_interval_ms,
        pm_queue: Seq::empty(),
        error: None,
        queue_status: if spectator { m.queue_status } else { None },
        menu_preview_state: if spectator { Some(p.state@) } else { m.menu_preview_state },
        fatal_error: if spectator { m.fatal_error } else { false },
        last_score: if !spectator && p.state@.players.contains_key(p.player_id) {
            p.state@.players[p.player_id].score
        } else {
            m.last_score
        },
        is_dead: false,
        ..m
    };
    without_victory_state(without_disconnect_ui(base))
}

/// The state back at the landing screen: no session, the preview board shown.
pub open spec fn reset_session(m: ReducerModel) -> ReducerModel {
    without_victory_state(without_disconnect_ui(ReducerModel {
        player_id: Some(NIL_ID),
        session_secret: None,
        move_unlock_at: None,
        state: match m.menu_preview_state {
            Some(s) => s,
            None => empty_game_state(),
        },
        pm_queue: Seq::empty(),
        error: None,
        fatal_error: false,
        is_dead: false,
        queue_status: None,
        ..m
    }))
}

/// The effect of `a` on `m` at time `now`, before the phase is derived.
pub open spec fn action_step(m: ReducerModel, a: GameAction, now: TimestampMs) -> ReducerModel {
    match a {
        GameAction::SetInit(p) => init_step(m, *p),
        GameAction::SetQueueStatus(status) => without_victory_state(without_disconnect_ui(ReducerModel {
            queue_status: Some(status),
            error: None,
            is_dead: false,
            ..m
        })),
        GameAction::UpdateState(u) => update_step(m, *u, now),
        GameAction::PushChatLine(line) => ReducerModel { chat_lines: pushed_chat_lines(m.chat_lines, line), ..m },
        GameAction::PruneExpiredChat { now: at, ttl_ms } => ReducerModel {
            chat_lines: live_chat_lines(m.chat_lines, at, ttl_ms),
            ..m
        },
        GameAction::SetError(e) => ReducerModel {
            error: if e is TargetFriendly { None } else { Some(e) },
            pm_queue: if e is PieceNotFound {
                with_existing_pieces(m.pm_queue, m.state.pieces)
            } else if is_move_error_spec(e) {
                drop_first_board_move(m.pm_queue)
            } else {
                m.pm_queue
            },
            ..m
        },
        GameAction::SetVictory { title, msg, focus_target } => {
            let cleared = with_current_player_stats(
                ReducerModel {
                    error: None,
                    fatal_error: false,
                    is_dead: false,
                    ..without_disconnect_ui(m)
                },
                now,
            );
            ReducerModel {
                is_victory: true,
                victory_title: Some(title),
                victory_msg: Some(msg),
                victory_focus_target: focus_target,
                ..cleared
            }
        },
        GameAction::GameOver { final_score, kills, pieces_captured, time_survived_secs } => without_victory_messages(
            ReducerModel {
                last_score: final_score,
                last_kills: kills,
                last_captured: pieces_captured,
                last_survival_secs: time_survived_secs,
                is_victory: false,
                is_dead: true,
                ..m
            },
        ),
        GameAction::AddPmove(pm) => ReducerModel { pm_queue: m.pm_queue.push(pm), ..m },
        GameAction::RemovePm(id) => ReducerModel { pm_queue: without_id(m.pm_queue, id), ..m },
        GameAction::ClearPm(piece_id) => ReducerModel { pm_queue: without_piece(m.pm_queue, piece_id), ..m },
        GameAction::Pong { ping_ms, sample_offset_ms, smoothed_offset_ms } => ReducerModel {
            ping_ms,
            clock_offset_ms: if m.clock_offset_ms == 0 { sample_offset_ms } else { smoothed_offset_ms },
            ..m
        },
        GameAction::SetFPS(fps) => ReducerModel { fps, ..m },
        GameAction::SetDisconnected { disconnected, is_fatal, title, msg } => {
            let n = ReducerModel {
                disconnected,
                fatal_error: is_fatal,
                disconnected_title: title,
                disconnected_msg: msg,
                ..m
            };
            if disconnected || is_fatal { without_victory_state(n) } else { n }
        },
        GameAction::ResetForRejoin => reset_session(m),
        GameAction::Reset => ReducerModel { chat_room_key: None, chat_lines: Seq::empty(), ..reset_session(m) },
    }
}

/// The reducer state after applying `a` to `m` at time `now`.
pub open spec fn reducer_step(m: ReducerModel, a: GameAction, now: TimestampMs) -> ReducerModel {
    let n = action_step(m, a, now);
    ReducerModel { phase: phase_of(n), ..n }
}

/// The model of a freshly created reducer.
pub open spec fn initial_model() -> ReducerModel {
    ReducerModel {
        state: empty_game_state(),
        menu_preview_state: None,
        mode: None,
        piece_configs: Map::empty(),
        shop_configs: Map::empty(),
        player_id: None,
        session_secret: None,
        move_unlock_at: None,
        error: None,
        pm_queue: Seq::empty(),
        last_score: 0,
        last_kills: 0,
        last_captured: 0,
        last_survival_secs: 0,
        ping_ms: 0,
        clock_offset_ms: 0,
        sync_interval_ms: 0,
        fps: 0,
        disconnected: false,
        fatal_error: false,
        is_dead: false,
        is_victory: false,
        queue_status: None,
        phase: ClientPhase::Menu,
        disconnected_title: None,
        disconnected_msg: None,
        victory_title: None,
        victory_msg: None,
        victory_focus_target: VictoryFocusTarget::KeepCurrent,
        chat_room_key: None,
        chat_lines: Seq::empty(),
    }
}

impl Default for GameStateReducer {
    /// A reducer with no session, no state and no messages.
    fn default() -> (r: GameStateReducer)
        ensures
            r@ == initial_model(),
    {
        GameStateReducer {
            state: GameState::empty(),
            menu_preview_state: None,
            mode: None,
            piece_configs: HashMap::new(),
            shop_configs: HashMap::new(),
            player_id: None,
            session_secret: None,
            move_unlock_at: None,
            error: None,
            pm_queue: Vec::new(),
            last_score: 0,
            last_kills: 0,
            last_captured: 0,
            last_survival_secs: 0,
            ping_ms: 0,
            clock_offset_ms: 0,
            sync_interval_ms: 0,
            fps: 0,
            disconnected: false,
            fatal_error: false,
            is_dead: false,
            is_victory: false,
            queue_status: None,
            phase: ClientPhase::Menu,
            disconnected_title: None,
            disconnected_msg: None,
            victory_title: None,
            victory_msg: None,
            victory_focus_target: VictoryFocusTarget::KeepCurrent,
            chat_room_key: None,
            chat_lines: Vec::new(),
        }
    }
}

/// Computes the session phase of a reducer state.
pub fn compute_phase(state: &GameStateReducer) -> (p: ClientPhase)
    ensures
        p == phase_of(state@),
{
    match state.active_player_id() {
        None => {
            if state.queue_status.is_some() {
                ClientPhase::Queued
            } else {
                ClientPhase::Menu
            }
        },
        Some(player_id) => {
            if state.is_dead || state.is_victory {
                return ClientPhase::Dead;
            }
            match state.state.players.get(&player_id) {
                Some(player) => {
                    if state.state.pieces.contains_key(&player.king_id) {
                        ClientPhase::Alive
                    } else {
                        ClientPhase::Joining
                    }
                },
                None => ClientPhase::Joining,
            }
        },
    }
}

/// Removes the chat lines that have expired at `now`.
pub fn prune_expired_chat_lines(lines: &mut Vec<ChatLine>, now: TimestampMs, ttl_ms: u32)
    ensures
        final(lines)@ == live_chat_lines(old(lines)@, now, ttl_ms),
{
    let ttl: i64 = if ttl_ms == 0 { 1 } else { ttl_ms as i64 };
    let prune_after_ms: i64 = ttl + CHAT_FADE_OUT_MS;
    let ghost q = lines@;
    let ghost pred = |line: ChatLine| chat_line_live(line.sent_at, now, ttl_ms);
    let mut out: Vec<ChatLine> = Vec::new();
    let mut j: usize = 0;
    while j < lines.len()
        invariant
            lines@ == q,
            j <= q.len(),
            prune_after_ms == (if ttl_ms == 0 { 1 } else { ttl_ms as int }) + CHAT_FADE_OUT_MS,
            pred == (|line: ChatLine| chat_line_live(line.sent_at, now, ttl_ms)),
            out@ == q.take(j as int).filter(pred),
        decreases q.len() - j,
    {
        let line = &lines[j];
        proof {
            assert(q.take(j + 1) =~= q.take(j as int).push(*line));
            q.take(j as int).lemma_filter_push(*line, pred);
        }
        if saturating_sub_i64(now, line.sent_at) < prune_after_ms {
            out.push(line.snapshot());
        }
        j = j + 1;
    }
    assert(q.take(q.len() as int) =~= q);
    *lines = out;
}

impl GameStateReducer {
    /// Clears reconnect/disconnect UI details while keeping fatal flags untouched.
    fn clear_disconnect_ui(&mut self)
        ensures
            final(self)@ == without_disconnect_ui(old(self)@),
    {
        self.disconnected = false;
        self.disconnected_title = None;
        self.disconnected_msg = None;
    }

    /// Clears only victory message text.
    fn clear_victory_messages(&mut self)
        ensures
            final(self)@ == without_victory_messages(old(self)@),
    {
        self.victory_title = None;
        self.victory_msg = None;
    }

    /// Clears all victory state so generic end overlays can be derived cleanly.
    fn clear_victory_state(&mut self)
        ensures
            final(self)@ == without_victory_state(old(self)@),
    {
        self.is_victory = false;
        self.clear_victory_messages();
        self.victory_focus_target = VictoryFocusTarget::KeepCurrent;
    }

    /// Snapshots the local player's live stats at time `now` into end-screen fields.
    fn snapshot_last_stats_from_current_player(&mut self, now: TimestampMs)
        ensures
            final(self)@ == with_current_player_stats(old(self)@, now),
    {
        match self.player_id {
            Some(player_id) => {
                match self.state.players.get(&player_id) {
                    Some(player) => {
                        let score = player.score;
                        let kills = player.kills;
                        let captured = player.pieces_captured;
                        let secs = elapsed_secs_between(now, player.join_time);
                        self.last_score = score;
                        self.last_kills = kills;
                        self.last_captured = captured;
                        self.last_survival_secs = secs;
                    },
                    None => {},
                }
            },
            None => {},
        }
    }

    /// Applies a server update payload to this reducer state at the current time.
    pub fn apply_update_state(&mut self, params: UpdateStatePayload)
        ensures
            exists|now: TimestampMs| final(self)@ == #[trigger] update_step(old(self)@, params, now),
    {
        let now = now_timestamp_ms();
        self.apply_update_state_at(params, now);
    }

    /// Applies an action and returns the next state, taking the current time
    /// from the wall clock.
    pub fn reduce(self, action: GameAction) -> (next: GameStateReducer)
        ensures
            exists|now: TimestampMs| next@ == #[trigger] reducer_step(self@, action, now),
    {
        let now = now_timestamp_ms();
        self.reduce_at(action, now)
    }

    /// Applies an action at time `now` and returns the next state.
    pub fn reduce_at(self, action: GameAction, now: TimestampMs) -> (next: GameStateReducer)
        ensures
            next@ == reducer_step(self@, action, now),
    {
        let ghost m = self@;
        let ghost a = action;
        let mut next = self;
        next.apply_action(action, now);
        next.phase = compute_phase(&next);
        next
    }

    /// Applies the effect of `action` at time `now`, leaving the phase as it was.
    fn apply_action(&mut self, action: GameAction, now: TimestampMs)
        ensures
            final(self)@ == (ReducerModel { phase: old(self)@.phase, ..action_step(old(self)@, action, now) }),
    {
        match action {
            GameAction::SetInit(payload) => self.apply_init(*payload),
            GameAction::SetQueueStatus(status) => {
                self.queue_status = Some(status);
                self.error = None;
                self.clear_disconnect_ui();
                self.is_dead = false;
                self.clear_victory_state();
            },
            GameAction::UpdateState(payload) => {
                self.apply_update_state_at(*payload, now);
            },
            GameAction::PushChatLine(line) => self.push_chat_line(line),
            GameAction::PruneExpiredChat { now: at, ttl_ms } => {
                prune_expired_chat_lines(&mut self.chat_lines, at, ttl_ms);
            },
            GameAction::SetError(e) => self.apply_error(e),
            GameAction::SetVictory { title, msg, focus_target } => {
                self.apply_victory(title, msg, focus_target, now);
            },
            GameAction::GameOver { final_score, kills, pieces_captured, time_survived_secs } => {
                self.last_score = final_score;
                self.last_kills = kills;
                self.last_captured = pieces_captured;
                self.last_survival_secs = time_survived_secs;
                self.is_victory = false;
                self.clear_victory_messages();
                self.is_dead = true;
            },
            GameAction::AddPmove(pm) => {
                self.pm_queue.push(pm);
            },
            GameAction::RemovePm(pm_id) => {
                drop_id(&mut self.pm_queue, pm_id);
            },
            GameAction::ClearPm(piece_id) => {
                drop_piece(&mut self.pm_queue, piece_id);
            },
            GameAction::Pong { ping_ms, sample_offset_ms, smoothed_offset_ms } => {
                self.ping_ms = ping_ms;
                self.clock_offset_ms = if self.clock_offset_ms == 0 { sample_offset_ms } else { smoothed_offset_ms };
            },
            GameAction::SetFPS(fps) => {
                self.fps = fps;
            },
            GameAction::SetDisconnected { disconnected, is_fatal, title, msg } => {
                self.disconnected = disconnected;
                self.fatal_error = is_fatal;
                self.disconnected_title = title;
                self.disconnected_msg = msg;
                if disconnected || is_fatal {
                    self.clear_victory_state();
                }
            },
            GameAction::ResetForRejoin => {
                self.reset_session();
            },
            GameAction::Reset => {
                self.reset_session();
                self.chat_room_key = None;
                self.chat_lines = Vec::new();
            },
        }
    }

    /// Installs a new session snapshot.
    fn apply_init(&mut self, payload: InitPayload)
        ensures
            final(self)@ == init_step(old(self)@, payload),
    {
        let ghost m = self@;
        let ghost p = payload;
        let InitPayload {
            player_id,
            session_secret,
            move_unlock_at,
            state,
            mode,
            pieces,
            shops,
            chat_room_key,
            chat_history,
            sync_interval_ms,
        } = payload;
        self.player_id = Some(player_id);
        self.session_secret = Some(session_secret);
        self.move_unlock_at = move_unlock_at;
        self.state = state;
        self.mode = Some(mode);
        self.piece_configs = pieces;
        self.shop_configs = shops;
        self.chat_room_key = Some(chat_room_key);
        self.chat_lines = chat_history;
        self.sync_interval_ms = sync_interval_ms;
        self.pm_queue = Vec::new();
        self.error = None;
        if player_id != NIL_ID {
            self.queue_status = None;
        }
        self.clear_disconnect_ui();
        self.clear_victory_state();
        if player_id == NIL_ID {
            self.menu_preview_state = Some(self.state.snapshot());
        }
        if player_id != NIL_ID {
            self.fatal_error = false;
            match self.state.players.get(&player_id) {
                Some(p) => {
                    self.last_score = p.score;
                },
                None => {},
            }
        }
        self.is_dead = false;
        assert(self@ =~= init_step(m, p));
    }

    /// Appends a chat line, keeping only the newest [`MAX_CHAT_LINES`].
    fn push_chat_line(&mut self, line: ChatLine)
        ensures
            final(self)@ == (ReducerModel { chat_lines: pushed_chat_lines(old(self)@.chat_lines, line), ..old(self)@ }),
    {
        self.chat_lines.push(line);
        if self.chat_lines.len() > MAX_CHAT_LINES {
            let drop_count = self.chat_lines.len() - MAX_CHAT_LINES;
            self.chat_lines = drop_first_lines(&self.chat_lines, drop_count);
        }
    }

    /// Records a server error and drops the premoves it invalidates.
    fn apply_error(&mut self, e: GameError)
        ensures
            final(self)@ == action_step(old(self)@, GameAction::SetError(e), 0),
    {
        let friendly = match e {
            GameError::TargetFriendly => true,
            _ => false,
        };
        let not_found = match e {
            GameError::PieceNotFound => true,
            _ => false,
        };
        let move_error = is_move_error(&e);
        self.error = if friendly { None } else { Some(e) };
        if not_found {
            drop_missing_pieces(&mut self.pm_queue, &self.state.pieces);
        } else if move_error && !self.pm_queue.is_empty() {
            remove_first_board_move(&mut self.pm_queue);
        } else if move_error {
            assert(self.pm_queue@ =~= drop_first_board_move(self.pm_queue@));
        }
    }

    /// Records a won match at time `now`.
    fn apply_victory(&mut self, title: String, msg: String, focus_target: VictoryFocusTarget, now: TimestampMs)
        ensures
            final(self)@ == action_step(
                old(self)@,
                GameAction::SetVictory { title, msg, focus_target },
                now,
            ),
    {
        self.error = None;
        self.clear_disconnect_ui();
        self.fatal_error = false;
        self.is_dead = false;
        self.snapshot_last_stats_from_current_player(now);
        self.is_victory = true;
        self.victory_title = Some(title);
        self.victory_msg = Some(msg);
        self.victory_focus_target = focus_target;
    }

    /// Returns to the landing screen state shared by both reset actions.
    fn reset_session(&mut self)
        ensures
            final(self)@ == reset_session(old(self)@),
    {
        self.player_id = Some(NIL_ID);
        self.session_secret = None;
        self.move_unlock_at = None;
        self.state = match &self.menu_preview_state {
            Some(s) => s.snapshot(),
            None => GameState::empty(),
        };
        self.pm_queue = Vec::new();
        self.error = None;
        self.clear_disconnect_ui();
        self.fatal_error = false;
        self.is_dead = false;
        self.clear_victory_state();
        self.queue_status = None;
    }
}

/// `lines` without its first `count` entries.
fn drop_first_lines(lines: &Vec<ChatLine>, count: usize) -> (r: Vec<ChatLine>)
    requires
        count <= lines.len(),
    ensures
        r@ == lines@.skip(count as int),
{
    let mut out: Vec<ChatLine> = Vec::new();
    let mut j: usize = count;
    while j < lines.len()
        invariant
            count <= j <= lines.len(),
            out@ == lines@.subrange(count as int, j as int),
        decreases lines.len() - j,
    {
        out.push(lines[j].snapshot());
        proof {
            assert(lines@.subrange(count as int, j + 1) =~= lines@.subrange(count as int, j as int).push(lines@[j as int]));
        }
        j = j + 1;
    }
    out
}

} // verus!
