use ffchess_client::model::ModeConfig;
use ffchess_client::storage::{
    death_info_from_stored, death_record, landing_cooldown, parse_stored_uuid, rejoin_cooldown, storage_key,
};

#[test]
fn keys_and_stored_values() {
    assert_eq!(storage_key("ffchess_player_id", "ffa"), "ffchess_player_id_ffa");
    assert_eq!(
        parse_stored_uuid(Some("67e55044-10b1-426f-9247-bb680e5fe0c8".to_string())),
        Some(0x67e55044_10b1_426f_9247_bb680e5fe0c8)
    );
    assert_eq!(parse_stored_uuid(Some("not a uuid".to_string())), None);
    assert_eq!(parse_stored_uuid(None), None);
    assert_eq!(death_info_from_stored(Some("1700".to_string()), Some("x".to_string())), (1700, 5000));
    assert_eq!(death_info_from_stored(None, Some("3000".to_string())), (0, 3000));
}

#[test]
fn cooldowns_in_whole_seconds() {
    assert_eq!(landing_cooldown(10_000, 5_000, 11_500).as_u32(), 3);
    assert_eq!(landing_cooldown(10_000, 5_000, 15_000).as_u32(), 0);
    assert_eq!(landing_cooldown(10_000, 5_000, 20_000).as_u32(), 0);
    assert_eq!(rejoin_cooldown(&None).as_u32(), 5);
    let mode = ModeConfig { kits: vec![], queue_players: 2, respawn_cooldown_ms: 12_999, show_scoreboard: false };
    assert_eq!(rejoin_cooldown(&Some(mode)).as_u32(), 12);
}

#[test]
fn a_death_record_reads_back() {
    for (ts, cd) in [(0i64, 5000i64), (1_700_000_000_123, 7_500), (-42, 0), (i64::MIN, i64::MAX)] {
        let (a, b) = death_record(ts, cd);
        assert_eq!(a, ts.to_string());
        assert_eq!(b, cd.to_string());
        assert_eq!(death_info_from_stored(Some(a), Some(b)), (ts, cd));
    }
}
