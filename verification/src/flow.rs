//! Decisions of the landing, join, rejoin and queue flows: what the UI does
//! for a given state and input.

use crate::model::{KitSummary, ModeConfig, Player, PlayerId, NIL_ID};
use crate::reducer::{active_player, ClientPhase, GameStateReducer, QueueStatus};
use crate::text::{has_prefix, parse_usize, parse_usize_spec, str_equal, trim, trim_start_char, leading_count, trimmed};
use crate::ui_state::{CooldownSeconds, JoinStep, RejoinFlow};
use std::collections::HashMap;
use vstd::prelude::*;
use vstd::string::StringExecFns;

verus! {

broadcast use vstd::std_specs::hash::group_hash_axioms;

/// Mode shown when nothing else selects one.
pub const DEFAULT_MODE_ID: &'static str = "ffa";

/// Whether leaving the current mode must tell the server to end the session.
pub fn should_leave_current_session(reducer: &GameStateReducer) -> (b: bool)
    ensures
        b == (reducer.phase == ClientPhase::Alive || reducer.queue_status is Some
            || active_player(reducer.player_id) is Some),
{
    reducer.phase == ClientPhase::Alive || reducer.queue_status.is_some() || reducer.active_player_id().is_some()
}

/// The name of the mode's only kit, when it has exactly one.
pub open spec fn only_kit(mode: Option<ModeConfig>) -> Option<String> {
    match mode {
        Some(m) => if m.kits@.len() == 1 { Some(m.kits@[0].name) } else { None },
        None => None,
    }
}

/// Returns the name of the mode's only kit, when it has exactly one.
pub fn single_kit(mode: &Option<ModeConfig>) -> (k: Option<String>)
    ensures
        k == only_kit(*mode),
{
    match mode {
        Some(m) => if m.kits.len() == 1 { Some(m.kits[0].name.clone()) } else { None },
        None => None,
    }
}

/// The kit to join with again after a match: the known single kit, or the
/// mode's only kit.
pub fn rejoin_single_kit(known: Option<String>, mode: &Option<ModeConfig>) -> (k: Option<String>)
    ensures
        k == match known {
            Some(kit) => Some(kit),
            None => only_kit(*mode),
        },
{
    match known {
        Some(kit) => Some(kit),
        None => single_kit(mode),
    }
}

/// Whether the reconnecting overlay should be shown.
pub fn should_show_disconnected(
    disconnected: bool,
    fatal_error: bool,
    is_joined: bool,
    is_queueing: bool,
    has_match_result: bool,
) -> (b: bool)
    ensures
        b == (disconnected && !fatal_error && (is_joined || is_queueing) && !has_match_result),
{
    disconnected && !fatal_error && (is_joined || is_queueing) && !has_match_result
}

/// The rejoin flow once the match or queue state changed: an active flow
/// ends when the player is alive again outside a queue and without a result.
pub fn rejoin_flow_after(flow: RejoinFlow, has_match_result: bool, phase: ClientPhase, queue_status: &Option<QueueStatus>) -> (f: RejoinFlow)
    ensures
        f == if flow == RejoinFlow::Active && !has_match_result && phase == ClientPhase::Alive
            && queue_status is None {
            RejoinFlow::Inactive
        } else {
            flow
        },
{
    if flow.is_active() && !has_match_result && phase == ClientPhase::Alive && queue_status.is_none() {
        RejoinFlow::Inactive
    } else {
        flow
    }
}

/// Whether queue previews should show the default board: in queue modes
/// (two or more players) while choosing a kit or waiting in the queue.
pub open spec fn preview_default_wanted(mode: Option<ModeConfig>, step: JoinStep, queued: bool) -> bool {
    match mode {
        Some(m) => m.queue_players >= 2 && (step == JoinStep::SelectKit || queued),
        None => false,
    }
}

/// What to do about the default preview board: the value to remember as last
/// sent, and the value to send now, if any.
pub fn preview_default_update(
    joined: bool,
    mode: &Option<ModeConfig>,
    step: JoinStep,
    queue_status: &Option<QueueStatus>,
    has_sender: bool,
    last_sent: Option<bool>,
) -> (r: (Option<bool>, Option<bool>))
    ensures
        r == if joined {
            (None, None)
        } else if !has_sender || last_sent == Some(preview_default_wanted(*mode, step, queue_status is Some)) {
            (last_sent, None)
        } else {
            let w = preview_default_wanted(*mode, step, queue_status is Some);
            (Some(w), Some(w))
        },
{
    if joined {
        return (None, None);
    }
    let wanted = match mode {
        Some(m) => m.queue_players >= 2 && (step.is_select_kit() || queue_status.is_some()),
        None => false,
    };
    if !has_sender {
        return (last_sent, None);
    }
    match last_sent {
        Some(v) => if v == wanted {
            return (last_sent, None);
        },
        None => {},
    }
    (Some(wanted), Some(wanted))
}

/// The mode named by a location hash (without its leading `#`s), or `fallback`.
pub open spec fn mode_from_hash(hash: Seq<char>, fallback: Seq<char>) -> Seq<char> {
    let h = hash.skip(leading_count(hash, '#'));
    if h.len() == 0 { fallback } else { h }
}

/// Reads the selected mode from the location hash.
pub fn mode_id_from_hash(hash: &str, fallback: &str) -> (m: String)
    ensures
        m@ == mode_from_hash(hash@, fallback@),
{
    let h = trim_start_char(hash, '#');
    if h.unicode_len() == 0 {
        String::from_str(fallback)
    } else {
        String::from_str(h)
    }
}

/// The mode to open first: the location hash, else the first mode of the
/// configured order, else the first mode the page was served with, else the
/// default mode.
pub fn initial_mode_id(hash: &str, game_order: &Vec<String>, injected_first: &Option<String>) -> (m: String)
    ensures
        m@ == ({
            let h = hash@.skip(leading_count(hash@, '#'));
            if h.len() > 0 {
                h
            } else if game_order@.len() > 0 {
                game_order@[0]@
            } else {
                match injected_first {
                    Some(i) => i@,
                    None => DEFAULT_MODE_ID@,
                }
            }
        }),
{
    let h = trim_start_char(hash, '#');
    if h.unicode_len() > 0 {
        String::from_str(h)
    } else if game_order.len() > 0 {
        game_order[0].clone()
    } else {
        match injected_first {
            Some(i) => i.clone(),
            None => String::from_str(DEFAULT_MODE_ID),
        }
    }
}

/// The websocket endpoint of a mode on the page's host, secure when the page is.
pub fn websocket_url(protocol: &str, host: &str, mode_id: &str) -> (u: String)
    ensures
        u@ == (if protocol@ == "https:"@ { "wss:"@ } else { "ws:"@ }) + "//"@ + host@ + "/api/ws/"@ + mode_id@,
{
    let scheme = if str_equal(protocol, "https:") { "wss:" } else { "ws:" };
    String::from_str(scheme).concat("//").concat(host).concat("/api/ws/").concat(mode_id)
}

/// Whether a lost connection should be reported: not when a disconnect or a
/// fatal error is already shown.
pub fn needs_soft_disconnect(disconnected: bool, fatal_error: bool) -> (b: bool)
    ensures
        b == (!disconnected && !fatal_error),
{
    !disconnected && !fatal_error
}

/// Whether sending a client message revealed a lost connection: the socket
/// refused it, or there is no socket and the message was not a ping.
pub fn send_reveals_disconnect(has_socket: bool, send_failed: bool, is_ping: bool) -> (b: bool)
    ensures
        b == if has_socket { send_failed } else { !is_ping },
{
    if has_socket { send_failed } else { !is_ping }
}

/// Whether a join request may be sent now.
pub fn join_allowed(is_joining: bool, queue_status: &Option<QueueStatus>) -> (b: bool)
    ensures
        b == (!is_joining && queue_status is None),
{
    !is_joining && queue_status.is_none()
}

/// Whether the name form may advance to kit selection.
pub fn name_submit_allowed(disconnected: bool, landing_cooldown: CooldownSeconds) -> (b: bool)
    ensures
        b == (!disconnected && landing_cooldown@ == 0),
{
    !disconnected && !landing_cooldown.is_active()
}

/// The server's name for the local player, trimmed, when the name field is
/// empty and the server knows the active player under a non-empty name.
pub open spec fn synced_name(current_name: Seq<char>, player_id: Option<PlayerId>, players: Map<PlayerId, Player>) -> Option<Seq<char>> {
    match player_id {
        Some(pid) => if trimmed(current_name).len() == 0 && pid != NIL_ID && players.contains_key(pid)
            && trimmed(players[pid].name@).len() > 0 {
            Some(trimmed(players[pid].name@))
        } else {
            None
        },
        None => None,
    }
}

/// The server's name for the local player to fill an empty name field with.
pub fn synced_player_name(current_name: &str, player_id: Option<PlayerId>, players: &HashMap<PlayerId, Player>) -> (r: Option<String>)
    ensures
        crate::browser::opt_view(r) == synced_name(current_name@, player_id, players@),
{
    if trim(current_name).as_str().unicode_len() != 0 {
        return None;
    }
    match player_id {
        Some(pid) => {
            if pid == NIL_ID {
                return None;
            }
            match players.get(&pid) {
                Some(player) => {
                    let name = trim(player.name.as_str());
                    if name.as_str().unicode_len() == 0 { None } else { Some(name) }
                },
                None => None,
            }
        },
        None => None,
    }
}

/// What a key press on the landing or end screen asks for.
#[derive(Clone, PartialEq, Eq, Debug)]
pub enum KeyAction {
    /// Nothing to do.
    Ignore,
    /// Select the previous (`-1`) or next (`1`) mode.
    CycleMode(i32),
    /// Leave name entry for kit selection, joining at once with the kit when
    /// the mode has only one.
    SubmitName(Option<String>),
    /// Start again after the match ended.
    Rejoin,
    /// Join with the named kit.
    JoinKit(String),
}

/// The landing-screen state that keyboard shortcuts depend on.
pub struct ShortcutState {
    pub joined: bool,
    pub dead: bool,
    pub victory: bool,
    pub step: JoinStep,
    pub landing_cooldown: CooldownSeconds,
    pub rejoin_cooldown: CooldownSeconds,
    pub disconnected: bool,
    pub queueing: bool,
    pub kits: Vec<KitSummary>,
    pub single_kit: Option<String>,
}

/// What a key press asks for in state `s`.
pub open spec fn key_action(s: ShortcutState, key: Seq<char>, in_text_input: bool) -> KeyAction {
    let on_landing = !s.joined && !s.dead && !s.victory;
    if in_text_input {
        KeyAction::Ignore
    } else if on_landing && s.step == JoinStep::EnterName && !s.disconnected && !s.queueing
        && (key == "ArrowUp"@ || key == "ArrowDown"@) {
        KeyAction::CycleMode(if key == "ArrowUp"@ { -1i32 } else { 1i32 })
    } else if key == "Enter"@ {
        if on_landing {
            if s.step == JoinStep::EnterName && s.landing_cooldown@ == 0 && !s.disconnected {
                KeyAction::SubmitName(s.single_kit)
            } else {
                KeyAction::Ignore
            }
        } else if (s.dead || s.victory) && s.rejoin_cooldown@ == 0 && !s.disconnected {
            KeyAction::Rejoin
        } else {
            KeyAction::Ignore
        }
    } else if !on_landing || s.step != JoinStep::SelectKit || s.queueing || s.disconnected {
        KeyAction::Ignore
    } else {
        match parse_usize_spec(key) {
            Some(n) => if n == 0 || n > s.kits@.len() { KeyAction::Ignore } else { KeyAction::JoinKit(s.kits@[n - 1].name) },
            None => KeyAction::Ignore,
        }
    }
}

/// Decides what a key press asks for.
pub fn keyboard_shortcut(s: &ShortcutState, key: &str, in_text_input: bool) -> (a: KeyAction)
    ensures
        a == key_action(*s, key@, in_text_input),
{
    if in_text_input {
        return KeyAction::Ignore;
    }
    let on_landing = !s.joined && !s.dead && !s.victory;
    let up = str_equal(key, "ArrowUp");
    let down = str_equal(key, "ArrowDown");
    if on_landing && s.step.is_enter_name() && !s.disconnected && !s.queueing && (up || down) {
        return KeyAction::CycleMode(if up { -1 } else { 1 });
    }
    if str_equal(key, "Enter") {
        if on_landing {
            if s.step.is_enter_name() && s.landing_cooldown.is_zero() && !s.disconnected {
                return KeyAction::SubmitName(s.single_kit.clone());
            }
            return KeyAction::Ignore;
        } else if (s.dead || s.victory) && s.rejoin_cooldown.is_zero() && !s.disconnected {
            return KeyAction::Rejoin;
        }
        return KeyAction::Ignore;
    }
    if !on_landing || !s.step.is_select_kit() || s.queueing || s.disconnected {
        return KeyAction::Ignore;
    }
    match parse_usize(key) {
        Some(n) => {
            if n == 0 || n > s.kits.len() {
                KeyAction::Ignore
            } else {
                KeyAction::JoinKit(s.kits[n - 1].name.clone())
            }
        },
        None => KeyAction::Ignore,
    }
}

/// What fills the screen behind the overlays.
#[derive(Clone, Copy, PartialEq, Eq, Structural, Debug)]
pub enum BoardLayer {
    /// The board view (a connection channel exists).
    Game,
    /// The "connecting" notice.
    Connecting,
    /// Nothing (the disconnected overlay covers the screen).
    Blank,
}

/// The panel shown over the board.
#[derive(Clone, Copy, PartialEq, Eq, Structural, Debug)]
pub enum Panel {
    /// The end-of-match summary.
    EndOfMatch,
    /// The in-game scoreboard and statistics.
    Hud,
    /// The landing screen: name entry, kit choice or queue status.
    Join,
    /// No panel.
    Blank,
}

/// Which layers the root view shows.
#[derive(Clone, Copy, PartialEq, Eq, Structural, Debug)]
pub struct ScreenLayout {
    pub board: BoardLayer,
    pub panel: Panel,
    /// The toast for a gameplay error.
    pub error_toast: bool,
}

/// The root view's layers: the board once connected (the connecting notice
/// until then, unless the disconnected overlay shows after an interaction);
/// the match summary once a match ended, the scoreboard while playing, and
/// the landing screen otherwise, the rejoin flow forcing the landing screen;
/// and gameplay errors as a toast while playing.
pub open spec fn layout_of(
    has_sender: bool,
    show_disconnected: bool,
    has_interacted: bool,
    has_match_result: bool,
    is_joined: bool,
    force_join_overlay: bool,
    has_error: bool,
) -> ScreenLayout {
    ScreenLayout {
        board: if has_sender {
            BoardLayer::Game
        } else if !show_disconnected || !has_interacted {
            BoardLayer::Connecting
        } else {
            BoardLayer::Blank
        },
        panel: if has_match_result && !force_join_overlay {
            Panel::EndOfMatch
        } else if is_joined && !force_join_overlay {
            Panel::Hud
        } else if (has_sender && !has_match_result) || force_join_overlay {
            Panel::Join
        } else {
            Panel::Blank
        },
        error_toast: has_error && is_joined && !has_match_result,
    }
}

/// Decides which layers the root view shows.
pub fn screen_layout(
    has_sender: bool,
    show_disconnected: bool,
    has_interacted: bool,
    has_match_result: bool,
    is_joined: bool,
    force_join_overlay: bool,
    has_error: bool,
) -> (l: ScreenLayout)
    ensures
        l == layout_of(has_sender, show_disconnected, has_interacted, has_match_result, is_joined, force_join_overlay, has_error),
{
    let board = if has_sender {
        BoardLayer::Game
    } else if !show_disconnected || !has_interacted {
        BoardLayer::Connecting
    } else {
        BoardLayer::Blank
    };
    let panel = if has_match_result && !force_join_overlay {
        Panel::EndOfMatch
    } else if is_joined && !force_join_overlay {
        Panel::Hud
    } else if (has_sender && !has_match_result) || force_join_overlay {
        Panel::Join
    } else {
        Panel::Blank
    };
    ScreenLayout { board, panel, error_toast: has_error && is_joined && !has_match_result }
}

/// Whether the kit buttons take clicks: not while a join is pending, an
/// error is shown or the player waits in a queue.
pub fn kit_choice_enabled(is_loading: bool, has_error: bool, queue_status: &Option<QueueStatus>) -> (b: bool)
    ensures
        b == (!is_loading && !has_error && queue_status is None),
{
    !is_loading && !has_error && queue_status.is_none()
}

/// The heading of the end-of-match screen.
#[derive(Clone, PartialEq, Eq, Debug)]
pub enum EndHeading {
    /// The server's victory title (shown in capitals).
    Titled(String),
    /// The plain victory heading.
    Victory,
    /// The defeat heading.
    Defeat,
}

/// The end-screen heading: a won match shows the server's title when it is
/// not blank, and a plain victory heading otherwise; a lost match shows the
/// defeat heading.
pub fn end_heading(is_victory: bool, title: &Option<String>) -> (h: EndHeading)
    ensures
        h == if !is_victory {
            EndHeading::Defeat
        } else {
            match title {
                Some(t) => if trimmed(t@).len() > 0 { EndHeading::Titled(*t) } else { EndHeading::Victory },
                None => EndHeading::Victory,
            }
        },
{
    if !is_victory {
        return EndHeading::Defeat;
    }
    match title {
        Some(t) => if trim(t.as_str()).as_str().unicode_len() > 0 {
            EndHeading::Titled(t.clone())
        } else {
            EndHeading::Victory
        },
        None => EndHeading::Victory,
    }
}

} // verus!
