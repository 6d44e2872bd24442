use ffchess_client::ghosts::{apply_visible_ghosts, premove_lines, PremoveLine};
use ffchess_client::model::{BoardCoord, Piece};
use ffchess_client::premoves::Pmove;
use std::collections::HashMap;

fn c(x: i32, y: i32) -> BoardCoord {
    BoardCoord { x, y }
}

fn piece(id: u128, pos: BoardCoord) -> Piece {
    Piece { id, owner_id: Some(1), piece_type: "rook".to_string(), position: pos, last_move_time: 0, cooldown_ms: 0 }
}

fn pm(id: u64, piece_id: u128, target: BoardCoord) -> Pmove {
    Pmove { id, piece_id, target, shop_item_index: None }
}

#[test]
fn ghosts_follow_the_last_queued_move_of_each_piece() {
    let mut pieces = HashMap::new();
    pieces.insert(10, piece(10, c(0, 0)));
    pieces.insert(11, piece(11, c(1, 0)));
    let mut ghosts = pieces.clone();
    let queue = vec![pm(1, 10, c(0, 3)), pm(2, 11, c(1, 2)), pm(3, 10, c(4, 3))];
    apply_visible_ghosts(&mut ghosts, &queue, &pieces);
    assert_eq!(ghosts[&10].position, c(4, 3));
    assert_eq!(ghosts[&11].position, c(1, 2));
    assert_eq!(ghosts[&10].piece_type, "rook");
    assert_eq!(ghosts.len(), 2);
}

#[test]
fn premoves_of_missing_pieces_move_nothing() {
    let mut pieces = HashMap::new();
    pieces.insert(10, piece(10, c(0, 0)));
    let mut ghosts = pieces.clone();
    ghosts.insert(12, piece(12, c(5, 5)));
    let queue = vec![pm(1, 12, c(6, 6)), pm(2, 99, c(7, 7))];
    apply_visible_ghosts(&mut ghosts, &queue, &pieces);
    assert_eq!(ghosts[&12].position, c(5, 5));
    assert_eq!(ghosts[&10].position, c(0, 0));
    assert!(!ghosts.contains_key(&99));
}

#[test]
fn premove_lines_chain_from_the_previous_target() {
    let mut pieces = HashMap::new();
    pieces.insert(10, piece(10, c(0, 0)));
    pieces.insert(11, piece(11, c(1, 0)));
    let queue = vec![pm(1, 10, c(0, 3)), pm(2, 11, c(1, 2)), pm(3, 99, c(9, 9)), pm(4, 10, c(4, 3))];
    let lines = premove_lines(&queue, &pieces);
    assert_eq!(
        lines,
        vec![
            PremoveLine { piece_id: 10, start: c(0, 0), target: c(0, 3) },
            PremoveLine { piece_id: 11, start: c(1, 0), target: c(1, 2) },
            PremoveLine { piece_id: 10, start: c(0, 3), target: c(4, 3) },
        ]
    );
}

#[test]
fn a_repeated_premove_starts_where_its_first_copy_did() {
    let mut pieces = HashMap::new();
    pieces.insert(10, piece(10, c(0, 0)));
    let queue = vec![pm(1, 10, c(0, 3)), pm(2, 10, c(2, 3)), pm(1, 10, c(0, 3))];
    let lines = premove_lines(&queue, &pieces);
    assert_eq!(lines[2], PremoveLine { piece_id: 10, start: c(0, 0), target: c(0, 3) });
    assert_eq!(lines[1].start, c(0, 3));
}

#[test]
fn each_ghost_stands_where_its_last_line_ends() {
    let mut pieces = HashMap::new();
    pieces.insert(10, piece(10, c(0, 0)));
    pieces.insert(11, piece(11, c(1, 0)));
    pieces.insert(12, piece(12, c(2, 0)));
    let queue = vec![pm(1, 10, c(0, 3)), pm(2, 11, c(1, 2)), pm(3, 10, c(4, 3)), pm(4, 11, c(5, 2))];
    let mut ghosts = pieces.clone();
    apply_visible_ghosts(&mut ghosts, &queue, &pieces);
    let lines = premove_lines(&queue, &pieces);
    for id in [10u128, 11, 12] {
        let end = lines.iter().rev().find(|l| l.piece_id == id).map(|l| l.target).unwrap_or(pieces[&id].position);
        assert_eq!(ghosts[&id].position, end);
    }
}
