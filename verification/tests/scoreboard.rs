use ffchess_client::model::Player;
use ffchess_client::scoreboard::{display_name, leaderboard_rows, LEADERBOARD_ROWS, UNNAMED_PLAYER};

fn player(id: u128, score: u64, join_time: i64) -> Player {
    Player {
        id,
        name: format!("p{id}"),
        color: "#123456".to_string(),
        score,
        kills: 0,
        pieces_captured: 0,
        join_time,
        king_id: id + 100,
    }
}

#[test]
fn players_are_ranked_by_score_then_join_time() {
    let players = vec![player(1, 5, 30), player(2, 9, 50), player(3, 5, 10), player(4, 0, 0)];
    let rows = leaderboard_rows(&players);
    let ids: Vec<u128> = rows.iter().map(|p| p.id).collect();
    assert_eq!(ids, vec![2, 3, 1, 4]);
}

#[test]
fn only_the_leading_ten_are_listed() {
    let players: Vec<Player> = (0..15u128).map(|i| player(i, i as u64, 0)).collect();
    let rows = leaderboard_rows(&players);
    assert_eq!(rows.len(), LEADERBOARD_ROWS);
    assert_eq!(rows[0].id, 14);
    assert_eq!(rows[9].id, 5);
    assert!(leaderboard_rows(&Vec::new()).is_empty());
}

#[test]
fn blank_names_get_a_stand_in() {
    assert_eq!(display_name("  \t"), UNNAMED_PLAYER);
    assert_eq!(display_name(""), "An Unnamed Player");
    assert_eq!(display_name(" Ann "), " Ann ");
}

#[test]
fn full_ties_keep_the_listed_order() {
    let players = vec![player(1, 5, 10), player(2, 7, 10), player(3, 5, 10), player(4, 5, 10)];
    let ids: Vec<u128> = leaderboard_rows(&players).iter().map(|p| p.id).collect();
    assert_eq!(ids, vec![2, 1, 3, 4]);
    let many: Vec<Player> = (0..12u128).map(|i| player(i, 1, 0)).collect();
    let ids: Vec<u128> = leaderboard_rows(&many).iter().map(|p| p.id).collect();
    assert_eq!(ids, (0..10u128).collect::<Vec<_>>());
}
