//! Values kept in browser local storage: key names and the parsing of what
//! was stored.

use crate::model::{ModeConfig, TimestampMs};
use crate::text::{decimal_text, format_i64, law_decimal_text_parses_back, parse_i64, parse_i64_spec};
use crate::ui_state::CooldownSeconds;
use vstd::prelude::*;
use vstd::string::StringExecFns;

verus! {

/// Storage key of the player's name.
pub const NAME_KEY: &'static str = "ffchess_name";

/// Base of the per-mode storage key of the player id.
pub const PLAYER_ID_KEY: &'static str = "ffchess_player_id";

/// Base of the per-mode storage key of the session secret.
pub const SESSION_SECRET_KEY: &'static str = "ffchess_session_secret";

/// Base of the per-mode storage key of the time of death.
pub const DEATH_TS_KEY: &'static str = "ffchess_death_ts";

/// Base of the per-mode storage key of the respawn cooldown.
pub const DEATH_CD_KEY: &'static str = "ffchess_death_cd";

/// Respawn cooldown assumed when none is known.
pub const DEFAULT_RESPAWN_COOLDOWN_MS: i64 = 5000;

/// The per-mode storage key `<base>_<mode id>`.
pub fn storage_key(base: &str, mode_id: &str) -> (k: String)
    ensures
        k@ == base@ + "_"@ + mode_id@,
{
    String::from_str(base).concat("_").concat(mode_id)
}

/// What `uuid::Uuid::parse_str` gives for a text, as the UUID's integer value.
pub uninterp spec fn uuid_text_value(s: Seq<char>) -> Option<u128>;

/// Calls `uuid::Uuid::parse_str`; the result is `uuid_text_value` of the
/// text, the parsed UUID taken as its 128-bit value. Which texts are UUIDs
/// (hyphenated, simple, braced or URN forms) is left to the crate.
#[verifier::external_body]
fn parse_uuid(s: &str) -> (r: Option<u128>)
    ensures
        r == uuid_text_value(s@),
{
    match uuid::Uuid::parse_str(s) {
        Ok(u) => Some(u.as_u128()),
        Err(_) => None,
    }
}

/// The UUID stored under a key, when something was stored and it parses.
pub fn parse_stored_uuid(stored: Option<String>) -> (r: Option<u128>)
    ensures
        r == match stored {
            Some(s) => uuid_text_value(s@),
            None => None,
        },
{
    match stored {
        Some(s) => parse_uuid(s.as_str()),
        None => None,
    }
}

/// A stored decimal number, or `default` when it is missing or does not parse.
pub open spec fn stored_i64_or(stored: Option<String>, default: i64) -> i64 {
    match stored {
        Some(s) => match parse_i64_spec(s@) {
            Some(v) => v,
            None => default,
        },
        None => default,
    }
}

/// Reads a stored decimal number, falling back to `default`.
pub fn parse_stored_i64(stored: Option<String>, default: i64) -> (r: i64)
    ensures
        r == stored_i64_or(stored, default),
{
    match stored {
        Some(s) => match parse_i64(s.as_str()) {
            Some(v) => v,
            None => default,
        },
        None => default,
    }
}

/// The stored time of death and respawn cooldown: missing or malformed
/// entries read as time `0` and the default cooldown.
pub fn death_info_from_stored(ts: Option<String>, cd: Option<String>) -> (r: (TimestampMs, i64))
    ensures
        r == (stored_i64_or(ts, 0), stored_i64_or(cd, DEFAULT_RESPAWN_COOLDOWN_MS)),
{
    (parse_stored_i64(ts, 0), parse_stored_i64(cd, DEFAULT_RESPAWN_COOLDOWN_MS))
}

/// The texts a death record stores: the time of death and the respawn
/// cooldown, each in decimal.
pub fn death_record(ts: TimestampMs, cooldown_ms: i64) -> (r: (String, String))
    ensures
        r.0@ == decimal_text(ts as int),
        r.1@ == decimal_text(cooldown_ms as int),
{
    (format_i64(ts), format_i64(cooldown_ms))
}

/// Reading back what a death record stored gives the time of death and the
/// cooldown that were written.
pub proof fn law_death_record_reads_back(ts: TimestampMs, cooldown_ms: i64, stored_ts: String, stored_cd: String)
    requires
        stored_ts@ == decimal_text(ts as int),
        stored_cd@ == decimal_text(cooldown_ms as int),
    ensures
        stored_i64_or(Some(stored_ts), 0) == ts,
        stored_i64_or(Some(stored_cd), DEFAULT_RESPAWN_COOLDOWN_MS) == cooldown_ms,
{
    law_decimal_text_parses_back(ts);
    law_decimal_text_parses_back(cooldown_ms);
}

/// Whole seconds of a duration in milliseconds as a cooldown; a negative
/// duration counts as zero.
pub open spec fn cooldown_secs(ms: int) -> u32 {
    if ms > 0 { (ms / 1000) as u64 as u32 } else { 0 }
}

/// The cooldown left on the landing screen: the respawn cooldown minus the
/// time since death, in whole seconds, or zero once it has run out.
pub fn landing_cooldown(death_ts: TimestampMs, cooldown_ms: i64, now: TimestampMs) -> (c: CooldownSeconds)
    ensures
        c@ == cooldown_secs(cooldown_ms - (now - death_ts)),
{
    let diff: i128 = cooldown_ms as i128 - (now as i128 - death_ts as i128);
    if diff > 0 {
        let secs: u64 = (diff / 1000) as u64;
        CooldownSeconds::from_seconds(secs as u32)
    } else {
        CooldownSeconds::zero()
    }
}

/// The respawn cooldown of the mode, or the default when no mode is known.
pub open spec fn respawn_cooldown_ms(mode: Option<ModeConfig>) -> i64 {
    match mode {
        Some(m) => m.respawn_cooldown_ms,
        None => DEFAULT_RESPAWN_COOLDOWN_MS,
    }
}

/// The cooldown before rejoining after a match ends.
pub fn rejoin_cooldown(mode: &Option<ModeConfig>) -> (c: CooldownSeconds)
    ensures
        c@ == cooldown_secs(respawn_cooldown_ms(*mode) as int),
{
    let ms: i64 = match mode {
        Some(m) => m.respawn_cooldown_ms,
        None => DEFAULT_RESPAWN_COOLDOWN_MS,
    };
    if ms > 0 {
        let secs: u64 = (ms / 1000) as u64;
        CooldownSeconds::from_seconds(secs as u32)
    } else {
        CooldownSeconds::zero()
    }
}

} // verus!
