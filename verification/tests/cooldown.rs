use ffchess_client::cooldown::cooldown_bar;
use ffchess_client::model::{BoardCoord, Piece};

fn piece(owner: Option<u128>, last_move_time: i64, cooldown_ms: i64) -> Piece {
    Piece {
        id: 10,
        owner_id: owner,
        piece_type: "rook".to_string(),
        position: BoardCoord { x: 0, y: 0 },
        last_move_time,
        cooldown_ms,
    }
}

#[test]
fn the_bar_shows_time_passed_of_a_running_cooldown() {
    assert_eq!(cooldown_bar(&piece(Some(1), 1_000, 1_500), 1, false, 1_600), Some((600, 1_500)));
    assert_eq!(cooldown_bar(&piece(Some(1), 1_000, 1_500), 1, false, 2_500), None);
    assert_eq!(cooldown_bar(&piece(Some(1), 1_000, 1_500), 1, false, 3_000), None);
}

#[test]
fn the_bar_is_only_for_my_real_pieces() {
    assert_eq!(cooldown_bar(&piece(Some(2), 1_000, 1_500), 1, false, 1_600), None);
    assert_eq!(cooldown_bar(&piece(None, 1_000, 1_500), 1, false, 1_600), None);
    assert_eq!(cooldown_bar(&piece(Some(1), 1_000, 1_500), 1, true, 1_600), None);
}

#[test]
fn elapsed_time_saturates() {
    assert_eq!(cooldown_bar(&piece(Some(1), i64::MIN, i64::MAX), 1, false, i64::MAX), None);
    assert_eq!(cooldown_bar(&piece(Some(1), i64::MAX, 10), 1, false, i64::MIN), Some((i64::MIN, 10)));
}
