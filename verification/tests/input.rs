use ffchess_client::input::{
    after_move_check, next_premove_id, shop_hotkey, has_pending_shop_action, pending_purchase, pm_visible, purchase_in_offer,
    selection_after_change, tap_outcome, MoveFollowup, TapOutcome,
};
use ffchess_client::model::{BoardCoord, Piece, Shop};
use ffchess_client::premoves::Pmove;
use std::collections::HashMap;

const ME: u128 = 1;

fn c(x: i32, y: i32) -> BoardCoord {
    BoardCoord { x, y }
}

fn pieces() -> HashMap<u128, Piece> {
    let mut m = HashMap::new();
    m.insert(10, Piece { id: 10, owner_id: Some(ME), piece_type: "rook".to_string(), position: c(0, 0), last_move_time: 0, cooldown_ms: 0 });
    m.insert(11, Piece { id: 11, owner_id: Some(ME), piece_type: "pawn".to_string(), position: c(1, 0), last_move_time: 0, cooldown_ms: 0 });
    m.insert(20, Piece { id: 20, owner_id: Some(2), piece_type: "pawn".to_string(), position: c(3, 3), last_move_time: 0, cooldown_ms: 0 });
    m
}

#[test]
fn taps() {
    let p = pieces();
    let q: Vec<Pmove> = vec![];
    assert_eq!(tap_outcome(true, c(0, 0), ME, Some(10), &p, &q, &p), TapOutcome::Deselect);
    assert_eq!(tap_outcome(false, c(0, 0), ME, None, &p, &q, &p), TapOutcome::Select(10));
    assert_eq!(tap_outcome(false, c(0, 0), ME, Some(10), &p, &q, &p), TapOutcome::Deselect);
    assert_eq!(tap_outcome(false, c(1, 0), ME, Some(10), &p, &q, &p), TapOutcome::Select(11));
    assert_eq!(
        tap_outcome(false, c(3, 3), ME, Some(10), &p, &q, &p),
        TapOutcome::CheckMove { piece_id: 10, from: c(0, 0), is_capture: true, deselect_if_invalid: false }
    );
    assert_eq!(
        tap_outcome(false, c(5, 5), ME, Some(10), &p, &q, &p),
        TapOutcome::CheckMove { piece_id: 10, from: c(0, 0), is_capture: false, deselect_if_invalid: true }
    );
    assert_eq!(tap_outcome(false, c(5, 5), ME, None, &p, &q, &p), TapOutcome::Keep);
    let q = vec![Pmove { id: 1, piece_id: 10, target: c(0, 4), shop_item_index: None }];
    assert_eq!(
        tap_outcome(false, c(0, 0), ME, Some(10), &p, &q, &p),
        TapOutcome::ClearPremoves { piece_id: 10, select: None }
    );
    assert_eq!(
        tap_outcome(false, c(0, 0), ME, None, &p, &q, &p),
        TapOutcome::ClearPremoves { piece_id: 10, select: Some(10) }
    );
    assert_eq!(after_move_check(true, true), MoveFollowup::Move);
    assert_eq!(after_move_check(false, true), MoveFollowup::Deselect);
    assert_eq!(after_move_check(false, false), MoveFollowup::Keep);
}

#[test]
fn selection_and_purchases() {
    let p = pieces();
    assert_eq!(selection_after_change(Some(10), &p, ME), Some(10));
    assert_eq!(selection_after_change(Some(20), &p, ME), None);
    assert_eq!(selection_after_change(Some(99), &p, ME), None);
    let q = vec![
        Pmove { id: 1, piece_id: 11, target: c(1, 0), shop_item_index: None },
        Pmove { id: 2, piece_id: 11, target: c(1, 0), shop_item_index: Some(1) },
    ];
    assert!(pm_visible(&q[0], &p));
    let shops = vec![
        Shop { shop_id: "a".to_string(), position: c(9, 9), uses_remaining: 1 },
        Shop { shop_id: "b".to_string(), position: c(1, 0), uses_remaining: 1 },
    ];
    assert_eq!(pending_purchase(&q, &p, &shops, ME), Some((q[1], 1)));
    assert_eq!(pending_purchase(&q, &p, &shops[..1].to_vec(), ME), None);
    assert!(has_pending_shop_action(&q, &vec![], 11, c(1, 0)));
    assert!(!has_pending_shop_action(&q, &vec![], 10, c(1, 0)));
    assert!(has_pending_shop_action(&vec![], &vec![(10, c(1, 0))], 10, c(1, 0)));
    assert!(purchase_in_offer(0, 1));
    assert!(!purchase_in_offer(1, 1));
}

#[test]
fn shop_digit_keys_buy_affordable_items() {
    let can_buy = vec![true, false, true];
    assert_eq!(shop_hotkey("1", &can_buy), Some(0));
    assert_eq!(shop_hotkey("2", &can_buy), None);
    assert_eq!(shop_hotkey("3", &can_buy), Some(2));
    assert_eq!(shop_hotkey("4", &can_buy), None);
    assert_eq!(shop_hotkey("0", &can_buy), None);
    assert_eq!(shop_hotkey("a", &can_buy), None);
    assert_eq!(shop_hotkey("", &can_buy), None);
    assert_eq!(shop_hotkey("3x", &can_buy), Some(2));
}

#[test]
fn premove_ids_count_up_from_the_counter() {
    let mut counter = 1u64;
    assert_eq!(next_premove_id(&mut counter), 1);
    assert_eq!(next_premove_id(&mut counter), 2);
    assert_eq!(counter, 3);
}
