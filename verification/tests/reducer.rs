use ffchess_client::model::{
    BoardCoord, ChatLine, GameError, GameState, ModeConfig, Piece, Player, VictoryFocusTarget,
};
use ffchess_client::premoves::Pmove;
use ffchess_client::reducer::{
    compute_phase, is_move_error, ClientPhase, GameAction, GameStateReducer, InitPayload,
    QueueStatus, MAX_CHAT_LINES,
};
use ffchess_client::update::UpdateStatePayload;
use std::collections::HashMap;

const ME: u128 = 0x11;
const KING: u128 = 0x21;
const ROOK: u128 = 0x22;

fn coord(x: i32, y: i32) -> BoardCoord {
    BoardCoord { x, y }
}

fn piece(id: u128, owner: Option<u128>, x: i32, y: i32) -> Piece {
    Piece { id, owner_id: owner, piece_type: "rook".to_string(), position: coord(x, y), last_move_time: 0, cooldown_ms: 0 }
}

fn player(id: u128, king: u128) -> Player {
    Player {
        id,
        name: "alice".to_string(),
        color: "#ff0000".to_string(),
        score: 7,
        kills: 2,
        pieces_captured: 3,
        join_time: 1_000,
        king_id: king,
    }
}

fn pm(id: u64, piece_id: u128, x: i32, y: i32) -> Pmove {
    Pmove { id, piece_id, target: coord(x, y), shop_item_index: None }
}

fn empty_update() -> UpdateStatePayload {
    UpdateStatePayload {
        players: vec![],
        pieces: vec![],
        shops: vec![],
        removed_pieces: vec![],
        removed_players: vec![],
        board_size: 30,
    }
}

fn joined() -> GameStateReducer {
    let mut state = GameState::default();
    state.board_size = 30;
    state.players.insert(ME, player(ME, KING));
    state.pieces.insert(KING, piece(KING, Some(ME), 0, 0));
    state.pieces.insert(ROOK, piece(ROOK, Some(ME), 0, 0));
    let init = InitPayload {
        player_id: ME,
        session_secret: 0x99,
        move_unlock_at: None,
        state,
        mode: ModeConfig { kits: vec![], queue_players: 1, respawn_cooldown_ms: 5000, show_scoreboard: true },
        pieces: HashMap::new(),
        shops: HashMap::new(),
        chat_room_key: "room".to_string(),
        chat_history: vec![],
        sync_interval_ms: 50,
    };
    GameStateReducer::default().reduce_at(GameAction::SetInit(Box::new(init)), 0)
}

#[test]
fn init_makes_local_player_alive() {
    let r = joined();
    assert_eq!(r.phase, ClientPhase::Alive);
    assert_eq!(r.player_id, Some(ME));
    assert_eq!(r.session_secret, Some(0x99));
    assert_eq!(r.last_score, 7);
    assert!(!r.is_dead);
    assert_eq!(compute_phase(&r), ClientPhase::Alive);
}

#[test]
fn confirmed_move_drops_it_and_earlier_premoves_of_that_piece() {
    let mut r = joined();
    r = r.reduce_at(GameAction::AddPmove(pm(1, ROOK, 0, 1)), 0);
    r = r.reduce_at(GameAction::AddPmove(pm(2, ROOK, 0, 2)), 0);
    r = r.reduce_at(GameAction::AddPmove(pm(3, ROOK, 0, 3)), 0);
    assert_eq!(r.pm_queue.len(), 3);
    let mut u = empty_update();
    u.pieces = vec![piece(ROOK, Some(ME), 0, 2)];
    r = r.reduce_at(GameAction::UpdateState(Box::new(u)), 5_000);
    assert_eq!(r.pm_queue.len(), 1);
    assert_eq!(r.pm_queue[0].target, coord(0, 3));
    assert_eq!(r.state.pieces[&ROOK].position, coord(0, 2));
}

#[test]
fn update_without_session_keeps_premoves_and_preview() {
    let mut r = GameStateReducer::default();
    r.pm_queue.push(pm(1, ROOK, 0, 1));
    let mut u = empty_update();
    u.pieces = vec![piece(ROOK, None, 4, 4)];
    r = r.reduce_at(GameAction::UpdateState(Box::new(u)), 0);
    assert_eq!(r.pm_queue, vec![pm(1, ROOK, 0, 1)]);
    let preview = r.menu_preview_state.clone().expect("preview kept");
    assert_eq!(preview.pieces[&ROOK].position, coord(4, 4));
    assert_eq!(r.phase, ClientPhase::Menu);
}

fn setup() -> GameStateReducer {
    let mut reducer = GameStateReducer::default();
    reducer.state.board_size = 30;
    reducer
}

fn update_with(piece: Piece) -> GameAction {
    GameAction::UpdateState(Box::new(UpdateStatePayload {
        players: vec![],
        pieces: vec![piece],
        shops: vec![],
        removed_pieces: vec![],
        removed_players: vec![],
        board_size: 30,
    }))
}

const PIECE: u128 = 0x5151;
const OWNER: u128 = 0x6161;

// The client sends a move when it is requested and the server carries out
// queued moves, so there is no client tick that sends or marks premoves; this
// test and the next check the queue: a premove stays until the server's copy
// of the piece confirms it.
#[test]
fn test_premove_execution() {
    let mut reducer = setup();
    let mut p = piece(PIECE, Some(OWNER), 0, 0);
    p.last_move_time = 1_000_000 - 5000;
    p.cooldown_ms = 1000;
    reducer.state.pieces.insert(PIECE, p.clone());

    let target = coord(0, 5);
    let reducer = reducer.reduce_at(GameAction::AddPmove(Pmove { id: 1, piece_id: PIECE, target, shop_item_index: None }), 1_000_000);
    assert_eq!(reducer.pm_queue.len(), 1);

    let mut confirmed_piece = reducer.state.pieces.get(&PIECE).unwrap().clone();
    confirmed_piece.position = target;
    let reducer = reducer.reduce_at(update_with(confirmed_piece), 1_000_000);
    assert_eq!(reducer.pm_queue.len(), 0);
}

#[test]
fn test_multi_premove_chain() {
    let mut reducer = setup();
    let mut p = piece(PIECE, Some(OWNER), 0, 0);
    p.last_move_time = 1_000_000;
    p.cooldown_ms = 1000;
    reducer.state.pieces.insert(PIECE, p);

    let reducer = reducer.reduce_at(GameAction::AddPmove(pm(1, PIECE, 0, 1)), 1_000_000);
    let reducer = reducer.reduce_at(GameAction::AddPmove(pm(2, PIECE, 0, 2)), 1_000_000);

    let mut p1 = reducer.state.pieces.get(&PIECE).unwrap().clone();
    p1.position = coord(0, 1);
    p1.last_move_time = 1_002_000;
    let reducer = reducer.reduce_at(update_with(p1), 1_002_000);
    assert_eq!(reducer.pm_queue.len(), 1);
    assert_eq!(reducer.pm_queue[0].target, coord(0, 2));
}

#[test]
fn test_aggressive_cleanup() {
    let mut reducer = setup();
    reducer.state.pieces.insert(PIECE, piece(PIECE, Some(OWNER), 0, 0));

    // Queue: (0,1), (0,2), (0,3)
    let reducer = reducer.reduce_at(GameAction::AddPmove(pm(1, PIECE, 0, 1)), 0);
    let reducer = reducer.reduce_at(GameAction::AddPmove(pm(2, PIECE, 0, 2)), 0);
    let reducer = reducer.reduce_at(GameAction::AddPmove(pm(3, PIECE, 0, 3)), 0);
    assert_eq!(reducer.pm_queue.len(), 3);

    // Server confirms (0,2) directly (maybe (0,1) update was missed)
    let mut p_at_2 = reducer.state.pieces.get(&PIECE).unwrap().clone();
    p_at_2.position = coord(0, 2);
    let reducer = reducer.reduce_at(update_with(p_at_2), 0);

    // Should have removed BOTH (0,1) and (0,2)
    assert_eq!(reducer.pm_queue.len(), 1);
    assert_eq!(reducer.pm_queue[0].target, coord(0, 3));
}

#[test]
fn reassigned_piece_id_carries_its_premoves() {
    let mut r = joined();
    r = r.reduce_at(GameAction::AddPmove(pm(1, ROOK, 5, 5)), 0);
    let mut u = empty_update();
    u.pieces = vec![piece(0x77, Some(ME), 0, 0)];
    u.removed_pieces = vec![];
    // Two own pieces stand on (0,0): the new id has two candidates, so no remap.
    let r2 = r.clone().reduce_at(GameAction::UpdateState(Box::new(u)), 0);
    assert_eq!(r2.pm_queue[0].piece_id, ROOK);
    // Move the king away first: then the rook is the only candidate.
    let mut u1 = empty_update();
    u1.pieces = vec![piece(KING, Some(ME), 9, 9)];
    let r3 = r.reduce_at(GameAction::UpdateState(Box::new(u1)), 0);
    let mut u2 = empty_update();
    u2.pieces = vec![piece(0x77, Some(ME), 0, 0)];
    let r4 = r3.reduce_at(GameAction::UpdateState(Box::new(u2)), 0);
    assert_eq!(r4.pm_queue[0].piece_id, 0x77);
}

#[test]
fn removed_pieces_and_their_premoves_are_dropped() {
    let mut r = joined();
    r = r.reduce_at(GameAction::AddPmove(pm(1, ROOK, 0, 1)), 0);
    r = r.reduce_at(GameAction::AddPmove(pm(2, KING, 1, 1)), 0);
    let mut u = empty_update();
    u.removed_pieces = vec![ROOK];
    r = r.reduce_at(GameAction::UpdateState(Box::new(u)), 0);
    assert!(!r.state.pieces.contains_key(&ROOK));
    assert_eq!(r.pm_queue, vec![pm(2, KING, 1, 1)]);
}

#[test]
fn losing_the_player_entry_means_dead() {
    let mut r = joined();
    let mut u = empty_update();
    u.removed_players = vec![ME];
    r = r.reduce_at(GameAction::UpdateState(Box::new(u)), 0);
    assert!(r.is_dead);
    assert_eq!(r.phase, ClientPhase::Dead);
}

#[test]
fn update_tracks_survival_time_of_local_player() {
    let mut r = joined();
    let mut u = empty_update();
    let mut me = player(ME, KING);
    me.score = 40;
    me.kills = 5;
    u.players = vec![me];
    r = r.reduce_at(GameAction::UpdateState(Box::new(u)), 12_500);
    assert_eq!(r.last_score, 40);
    assert_eq!(r.last_kills, 5);
    assert_eq!(r.last_survival_secs, 11);
}

#[test]
fn errors_drop_the_rejected_premove() {
    let mut r = joined();
    r = r.reduce_at(GameAction::AddPmove(Pmove { id: 1, piece_id: ROOK, target: coord(3, 3), shop_item_index: Some(0) }), 0);
    r = r.reduce_at(GameAction::AddPmove(pm(2, ROOK, 0, 1)), 0);
    r = r.reduce_at(GameAction::AddPmove(pm(3, ROOK, 0, 2)), 0);
    r = r.reduce_at(GameAction::SetError(GameError::OnCooldown), 0);
    assert_eq!(r.error, Some(GameError::OnCooldown));
    assert_eq!(r.pm_queue.iter().map(|p| p.id).collect::<Vec<_>>(), vec![1, 3]);
    r = r.reduce_at(GameAction::SetError(GameError::TargetFriendly), 0);
    assert_eq!(r.error, None);
    assert_eq!(r.pm_queue.iter().map(|p| p.id).collect::<Vec<_>>(), vec![1]);
}

#[test]
fn piece_not_found_keeps_only_existing_pieces() {
    let mut r = joined();
    r = r.reduce_at(GameAction::AddPmove(pm(1, 0x55, 0, 1)), 0);
    r = r.reduce_at(GameAction::AddPmove(pm(2, ROOK, 0, 2)), 0);
    r = r.reduce_at(GameAction::SetError(GameError::PieceNotFound), 0);
    assert_eq!(r.pm_queue, vec![pm(2, ROOK, 0, 2)]);
    assert!(is_move_error(&GameError::PathBlocked));
    assert!(!is_move_error(&GameError::Custom { title: "x".to_string(), message: "y".to_string() }));
}

#[test]
fn remove_and_clear_premoves() {
    let mut r = joined();
    r = r.reduce_at(GameAction::AddPmove(pm(1, ROOK, 0, 1)), 0);
    r = r.reduce_at(GameAction::AddPmove(pm(2, KING, 1, 1)), 0);
    r = r.reduce_at(GameAction::AddPmove(pm(3, ROOK, 0, 2)), 0);
    let removed = r.clone().reduce_at(GameAction::RemovePm(2), 0);
    assert_eq!(removed.pm_queue, vec![pm(1, ROOK, 0, 1), pm(3, ROOK, 0, 2)]);
    let cleared = r.reduce_at(GameAction::ClearPm(ROOK), 0);
    assert_eq!(cleared.pm_queue, vec![pm(2, KING, 1, 1)]);
}

#[test]
fn victory_then_game_over_and_reset() {
    let mut r = joined();
    r = r.reduce_at(
        GameAction::SetVictory { title: "Win".to_string(), msg: "gg".to_string(), focus_target: VictoryFocusTarget::KeepCurrent },
        31_000,
    );
    assert!(r.is_victory);
    assert_eq!(r.phase, ClientPhase::Dead);
    assert_eq!(r.last_survival_secs, 30);
    assert_eq!(r.victory_title.as_deref(), Some("Win"));
    r = r.reduce_at(GameAction::GameOver { final_score: 9, kills: 1, pieces_captured: 4, time_survived_secs: 60 }, 0);
    assert!(r.is_dead && !r.is_victory);
    assert_eq!(r.victory_title, None);
    assert_eq!(r.last_captured, 4);
    r = r.reduce_at(GameAction::Reset, 0);
    assert_eq!(r.phase, ClientPhase::Menu);
    assert_eq!(r.player_id, Some(0));
    assert!(r.pm_queue.is_empty() && r.chat_lines.is_empty() && r.chat_room_key.is_none());
}

#[test]
fn rejoin_reset_keeps_chat() {
    let mut r = joined();
    r = r.reduce_at(
        GameAction::PushChatLine(ChatLine {
            sent_at: 1,
            sender_name: "bob".to_string(),
            sender_color: "#000".to_string(),
            message: "hi".to_string(),
        }),
        0,
    );
    r = r.reduce_at(GameAction::ResetForRejoin, 0);
    assert_eq!(r.chat_lines.len(), 1);
    assert_eq!(r.chat_room_key.as_deref(), Some("room"));
    assert_eq!(r.phase, ClientPhase::Menu);
}

#[test]
fn queue_status_shows_queue_phase() {
    let r = GameStateReducer::default().reduce_at(
        GameAction::SetQueueStatus(QueueStatus { position_in_queue: 2, queued_players: 3, required_players: 4 }),
        0,
    );
    assert_eq!(r.phase, ClientPhase::Queued);
    assert_eq!(r.queue_status.unwrap().players_needed(), 1);
    let q = QueueStatus { position_in_queue: 0, queued_players: 9, required_players: 4 };
    assert_eq!(q.players_needed(), 0);
}

#[test]
fn chat_keeps_newest_lines_and_prunes_expired() {
    let mut r = GameStateReducer::default();
    for i in 0..(MAX_CHAT_LINES as i64 + 5) {
        r = r.reduce_at(
            GameAction::PushChatLine(ChatLine {
                sent_at: i * 100,
                sender_name: "n".to_string(),
                sender_color: "#111".to_string(),
                message: format!("m{i}"),
            }),
            0,
        );
    }
    assert_eq!(r.chat_lines.len(), MAX_CHAT_LINES);
    assert_eq!(r.chat_lines[0].message, "m5");
    assert_eq!(r.chat_lines.last().unwrap().message, format!("m{}", MAX_CHAT_LINES + 4));
    // ttl 1000 ms + 500 ms fade: a line sent at t survives while now - t < 1500.
    let now = 124 * 100;
    r = r.reduce_at(GameAction::PruneExpiredChat { now, ttl_ms: 1000 }, 0);
    assert_eq!(r.chat_lines.len(), 15);
    assert_eq!(r.chat_lines[0].sent_at, 110 * 100);
}

#[test]
fn pong_sets_offset_then_smooths() {
    let mut r = GameStateReducer::default();
    r = r.reduce_at(GameAction::Pong { ping_ms: 40, sample_offset_ms: 100, smoothed_offset_ms: 7 }, 0);
    assert_eq!(r.ping_ms, 40);
    assert_eq!(r.clock_offset_ms, 100);
    r = r.reduce_at(GameAction::Pong { ping_ms: 30, sample_offset_ms: 200, smoothed_offset_ms: 120 }, 0);
    assert_eq!(r.clock_offset_ms, 120);
    assert_eq!(r.ping_ms, 30);
}

#[test]
fn disconnect_clears_victory() {
    let mut r = joined();
    r = r.reduce_at(
        GameAction::SetVictory { title: "W".to_string(), msg: "m".to_string(), focus_target: VictoryFocusTarget::Square(coord(1, 2)) },
        0,
    );
    r = r.reduce_at(GameAction::SetDisconnected { disconnected: true, is_fatal: false, title: None, msg: None }, 0);
    assert!(!r.is_victory);
    assert_eq!(r.victory_focus_target, VictoryFocusTarget::KeepCurrent);
    assert!(r.disconnected);
    r = r.reduce_at(GameAction::SetFPS(60), 0);
    assert_eq!(r.fps, 60);
}

#[test]
fn reduce_uses_wall_clock() {
    let r = joined().reduce(GameAction::SetFPS(30));
    assert_eq!(r.fps, 30);
    let mut r2 = joined();
    r2.apply_update_state(empty_update());
    assert_eq!(r2.state.board_size, 30);
}
