use ffchess_client::model::ModeSummary;
use ffchess_client::modes::{mode_rank, order_modes};

fn m(id: &str) -> ModeSummary {
    ModeSummary { id: id.to_string(), display_name: id.to_uppercase(), players: 0, max_players: 8 }
}

#[test]
fn modes_follow_preferred_order_stably() {
    let order = vec!["duel".to_string(), "ffa".to_string()];
    let list = vec![m("x"), m("ffa"), m("y"), m("duel")];
    let ids: Vec<String> = order_modes(list, &order).into_iter().map(|s| s.id).collect();
    assert_eq!(ids, vec!["duel", "ffa", "x", "y"]);
    assert_eq!(mode_rank("ffa", &order), 1);
    assert_eq!(mode_rank("zzz", &order), 2);
}

