use ffchess_client::flow::{
    initial_mode_id, join_allowed, keyboard_shortcut, mode_id_from_hash, name_submit_allowed,
    needs_soft_disconnect, preview_default_update, rejoin_flow_after, rejoin_single_kit,
    send_reveals_disconnect, should_leave_current_session, should_show_disconnected, single_kit,
    synced_player_name, websocket_url, KeyAction, ShortcutState,
};
use ffchess_client::flow::{end_heading, EndHeading, kit_choice_enabled, screen_layout, BoardLayer, Panel, ScreenLayout};
use ffchess_client::model::{KitSummary, ModeConfig, Player};
use ffchess_client::reducer::{ClientPhase, GameStateReducer, QueueStatus};
use ffchess_client::ui_state::{CooldownSeconds, JoinStep, RejoinFlow};
use std::collections::HashMap;

fn kit(name: &str) -> KitSummary {
    KitSummary { name: name.to_string(), description: String::new() }
}

fn mode(kits: Vec<KitSummary>, queue_players: u32) -> ModeConfig {
    ModeConfig { kits, queue_players, respawn_cooldown_ms: 5000, show_scoreboard: true }
}

fn landing(step: JoinStep) -> ShortcutState {
    ShortcutState {
        joined: false,
        dead: false,
        victory: false,
        step,
        landing_cooldown: CooldownSeconds::zero(),
        rejoin_cooldown: CooldownSeconds::zero(),
        disconnected: false,
        queueing: false,
        kits: vec![kit("knights"), kit("bishops")],
        single_kit: None,
    }
}

#[test]
fn keyboard_shortcuts() {
    let s = landing(JoinStep::EnterName);
    assert_eq!(keyboard_shortcut(&s, "ArrowUp", false), KeyAction::CycleMode(-1));
    assert_eq!(keyboard_shortcut(&s, "ArrowDown", false), KeyAction::CycleMode(1));
    assert_eq!(keyboard_shortcut(&s, "ArrowUp", true), KeyAction::Ignore);
    assert_eq!(keyboard_shortcut(&s, "Enter", false), KeyAction::SubmitName(None));
    assert_eq!(keyboard_shortcut(&s, "1", false), KeyAction::Ignore);
    let k = landing(JoinStep::SelectKit);
    assert_eq!(keyboard_shortcut(&k, "2", false), KeyAction::JoinKit("bishops".to_string()));
    assert_eq!(keyboard_shortcut(&k, "3", false), KeyAction::Ignore);
    assert_eq!(keyboard_shortcut(&k, "0", false), KeyAction::Ignore);
    assert_eq!(keyboard_shortcut(&k, "Enter", false), KeyAction::Ignore);
    let mut dead = landing(JoinStep::SelectKit);
    dead.dead = true;
    assert_eq!(keyboard_shortcut(&dead, "Enter", false), KeyAction::Rejoin);
    dead.rejoin_cooldown = CooldownSeconds::from_seconds(2);
    assert_eq!(keyboard_shortcut(&dead, "Enter", false), KeyAction::Ignore);
    let mut waiting = landing(JoinStep::EnterName);
    waiting.landing_cooldown = CooldownSeconds::from_seconds(1);
    assert_eq!(keyboard_shortcut(&waiting, "Enter", false), KeyAction::Ignore);
}

#[test]
fn kits_and_rejoin() {
    let one = Some(mode(vec![kit("solo")], 1));
    assert_eq!(single_kit(&one), Some("solo".to_string()));
    assert_eq!(single_kit(&Some(mode(vec![kit("a"), kit("b")], 1))), None);
    assert_eq!(rejoin_single_kit(None, &one), Some("solo".to_string()));
    assert_eq!(rejoin_single_kit(Some("x".to_string()), &one), Some("x".to_string()));
    assert_eq!(rejoin_flow_after(RejoinFlow::Active, false, ClientPhase::Alive, &None), RejoinFlow::Inactive);
    assert_eq!(rejoin_flow_after(RejoinFlow::Active, true, ClientPhase::Alive, &None), RejoinFlow::Active);
}

#[test]
fn overlays_and_connection() {
    assert!(should_show_disconnected(true, false, true, false, false));
    assert!(!should_show_disconnected(true, true, true, false, false));
    assert!(!should_show_disconnected(true, false, false, false, false));
    assert!(needs_soft_disconnect(false, false));
    assert!(!needs_soft_disconnect(true, false));
    assert!(send_reveals_disconnect(true, true, true));
    assert!(!send_reveals_disconnect(false, false, true));
    assert!(send_reveals_disconnect(false, false, false));
    let q = Some(QueueStatus { position_in_queue: 1, queued_players: 1, required_players: 2 });
    assert!(!join_allowed(false, &q));
    assert!(join_allowed(false, &None));
    assert!(!join_allowed(true, &None));
    assert!(name_submit_allowed(false, CooldownSeconds::zero()));
    assert!(!name_submit_allowed(false, CooldownSeconds::from_seconds(1)));
    let r = GameStateReducer::default();
    assert!(!should_leave_current_session(&r));
}

#[test]
fn preview_default() {
    let m = Some(mode(vec![], 2));
    assert_eq!(preview_default_update(false, &m, JoinStep::SelectKit, &None, true, None), (Some(true), Some(true)));
    assert_eq!(preview_default_update(false, &m, JoinStep::SelectKit, &None, true, Some(true)), (Some(true), None));
    assert_eq!(preview_default_update(false, &m, JoinStep::EnterName, &None, true, Some(true)), (Some(false), Some(false)));
    assert_eq!(preview_default_update(true, &m, JoinStep::EnterName, &None, true, Some(true)), (None, None));
    assert_eq!(preview_default_update(false, &m, JoinStep::SelectKit, &None, false, None), (None, None));
}

#[test]
fn modes_and_urls() {
    assert_eq!(mode_id_from_hash("#blitz", "ffa"), "blitz");
    assert_eq!(mode_id_from_hash("#", "ffa"), "ffa");
    let order = vec!["duel".to_string()];
    assert_eq!(initial_mode_id("", &order, &None), "duel");
    assert_eq!(initial_mode_id("##x", &order, &None), "x");
    assert_eq!(initial_mode_id("", &vec![], &Some("inj".to_string())), "inj");
    assert_eq!(initial_mode_id("", &vec![], &None), "ffa");
    assert_eq!(websocket_url("https:", "example.org", "ffa"), "wss://example.org/api/ws/ffa");
    assert_eq!(websocket_url("http:", "localhost:8080", "duel"), "ws://localhost:8080/api/ws/duel");
}

#[test]
fn player_name_sync() {
    let mut players = HashMap::new();
    players.insert(
        5u128,
        Player { id: 5, name: " Ann ".to_string(), color: "#fff".to_string(), score: 0, kills: 0, pieces_captured: 0, join_time: 0, king_id: 1 },
    );
    assert_eq!(synced_player_name("  ", Some(5), &players), Some("Ann".to_string()));
    assert_eq!(synced_player_name("Bo", Some(5), &players), None);
    assert_eq!(synced_player_name("", Some(0), &players), None);
    assert_eq!(synced_player_name("", Some(6), &players), None);
}

#[test]
fn the_root_view_picks_its_layers() {
    // connected, on the landing screen
    assert_eq!(
        screen_layout(true, false, false, false, false, false, false),
        ScreenLayout { board: BoardLayer::Game, panel: Panel::Join, error_toast: false }
    );
    // not connected yet
    assert_eq!(
        screen_layout(false, false, true, false, false, false, false),
        ScreenLayout { board: BoardLayer::Connecting, panel: Panel::Blank, error_toast: false }
    );
    // the disconnected overlay after an interaction hides the connecting notice
    assert_eq!(screen_layout(false, true, true, false, false, false, false).board, BoardLayer::Blank);
    // playing with an error
    assert_eq!(
        screen_layout(true, false, true, false, true, false, true),
        ScreenLayout { board: BoardLayer::Game, panel: Panel::Hud, error_toast: true }
    );
    // the match ended
    assert_eq!(screen_layout(true, false, true, true, true, false, true).panel, Panel::EndOfMatch);
    assert!(!screen_layout(true, false, true, true, true, false, true).error_toast);
    // the rejoin flow forces the landing screen
    assert_eq!(screen_layout(true, false, true, true, true, true, false).panel, Panel::Join);
}

#[test]
fn kits_cannot_be_chosen_while_busy() {
    let queued = Some(QueueStatus { position_in_queue: 1, queued_players: 1, required_players: 2 });
    assert!(kit_choice_enabled(false, false, &None));
    assert!(!kit_choice_enabled(true, false, &None));
    assert!(!kit_choice_enabled(false, true, &None));
    assert!(!kit_choice_enabled(false, false, &queued));
}

#[test]
fn end_heading_prefers_a_non_blank_victory_title() {
    assert_eq!(end_heading(true, &Some("Last one standing".to_string())), EndHeading::Titled("Last one standing".to_string()));
    assert_eq!(end_heading(true, &Some("   ".to_string())), EndHeading::Victory);
    assert_eq!(end_heading(true, &None), EndHeading::Victory);
    assert_eq!(end_heading(false, &Some("Won".to_string())), EndHeading::Defeat);
}
