//! Decisions of the room chat overlay: palette, link detection and expiry
//! timing.

use crate::model::{ChatLine, TimestampMs};
use crate::reducer::{saturating_diff, saturating_sub_i64, ClientPhase, GameStateReducer, CHAT_FADE_OUT_MS};
use crate::text::{trim, trimmed, chars_of, eq_ignore_ascii_case, eq_ignore_ascii_case_spec, has_prefix};
use vstd::prelude::*;
use vstd::string::StringExecFns;

verus! {

/// Visual surface behind the chat UI.
#[derive(Clone, Copy, Debug, PartialEq, Eq, Structural)]
pub enum ChatSurface {
    LightBoard,
    DarkOverlay,
}

/// Chat color palette chosen for the current UI surface.
#[derive(Clone, Copy, Debug, PartialEq, Eq)]
pub struct ChatTheme {
    pub message_color: &'static str,
    pub message_shadow: &'static str,
    pub input_color: &'static str,
    pub input_shadow: &'static str,
    pub link_color: &'static str,
}

impl ChatTheme {
    /// Returns the chat palette for one surface type: gray text with a light
    /// board behind it, light text over a dark overlay.
    pub fn for_surface(surface: ChatSurface) -> (t: Self)
        ensures
            t.message_shadow@ == "#374151"@,
            t.input_shadow@ == "#374151"@,
            surface == ChatSurface::LightBoard ==> t.message_color@ == "#6b7280"@ && t.input_color@
                == "#6b7280"@ && t.link_color@ == "#1d4ed8"@,
            surface == ChatSurface::DarkOverlay ==> t.message_color@ == "#d1d5db"@ && t.input_color@
                == "#d1d5db"@ && t.link_color@ == "#93c5fd"@,
    {
        match surface {
            ChatSurface::LightBoard => ChatTheme {
                message_color: "#6b7280",
                message_shadow: "#374151",
                input_color: "#6b7280",
                input_shadow: "#374151",
                link_color: "#1d4ed8",
            },
            ChatSurface::DarkOverlay => ChatTheme {
                message_color: "#d1d5db",
                message_shadow: "#374151",
                input_color: "#d1d5db",
                input_shadow: "#374151",
                link_color: "#93c5fd",
            },
        }
    }
}

/// The surface behind the chat: the light board while the local player is
/// alive in play, a dark overlay otherwise.
pub fn chat_surface(reducer: &GameStateReducer) -> (s: ChatSurface)
    ensures
        s == if reducer.phase == ClientPhase::Alive && !reducer.is_dead && !reducer.is_victory {
            ChatSurface::LightBoard
        } else {
            ChatSurface::DarkOverlay
        },
{
    if reducer.phase == ClientPhase::Alive && !reducer.is_dead && !reducer.is_victory {
        ChatSurface::LightBoard
    } else {
        ChatSurface::DarkOverlay
    }
}

/// The color to show a sender's name in: the NPC gray is lightened over the
/// dark overlay so that it stays readable.
pub fn display_sender_color(sender_color: &str, surface: ChatSurface) -> (c: &str)
    ensures
        c@ == if surface == ChatSurface::DarkOverlay && eq_ignore_ascii_case_spec(sender_color@, "#555555"@) {
            "#9ca3af"@
        } else {
            sender_color@
        },
{
    if surface == ChatSurface::DarkOverlay && eq_ignore_ascii_case(sender_color, "#555555") {
        "#9ca3af"
    } else {
        sender_color
    }
}

/// Punctuation that ends a sentence after a link rather than the link itself.
pub open spec fn is_link_trailing_punct(c: char) -> bool {
    c == ',' || c == '.' || c == '!' || c == '?' || c == ';' || c == ':' || c == ')' || c == ']' || c == '}'
}

/// Number of trailing punctuation characters of `s`.
pub open spec fn trailing_punct(s: Seq<char>) -> int
    decreases s.len(),
{
    if s.len() > 0 && is_link_trailing_punct(s.last()) {
        1 + trailing_punct(s.drop_last())
    } else {
        0
    }
}

proof fn lemma_trailing_punct(s: Seq<char>, n: int)
    requires
        0 <= n <= s.len(),
        forall|i: int| s.len() - n <= i < s.len() ==> is_link_trailing_punct(#[trigger] s[i]),
        n == s.len() || !is_link_trailing_punct(s[s.len() - n - 1]),
    ensures
        trailing_punct(s) == n,
    decreases n,
{
    if n > 0 {
        let t = s.drop_last();
        assert forall|i: int| t.len() - (n - 1) <= i < t.len() implies is_link_trailing_punct(#[trigger] t[i]) by {
            assert(t[i] == s[i]);
        }
        if n - 1 < t.len() {
            assert(t[t.len() - (n - 1) - 1] == s[s.len() - n - 1]);
        }
        lemma_trailing_punct(t, n - 1);
    }
}

/// Splits a token into its core and the punctuation that trails it.
pub fn split_url_trailing_punctuation(token: &str) -> (r: (&str, &str))
    ensures
        r.0@ == token@.take(token@.len() - trailing_punct(token@)),
        r.1@ == token@.skip(token@.len() - trailing_punct(token@)),
{
    let cs = chars_of(token);
    let n = cs.len();
    let mut k: usize = 0;
    while k < n && is_punct(cs[n - 1 - k])
        invariant
            cs@ == token@,
            n == token@.len(),
            k <= n,
            forall|i: int| n - k <= i < n ==> is_link_trailing_punct(#[trigger] token@[i]),
        decreases n - k,
    {
        k = k + 1;
    }
    proof {
        lemma_trailing_punct(token@, k as int);
    }
    (token.substring_char(0, n - k), token.substring_char(n - k, n))
}

fn is_punct(c: char) -> (b: bool)
    ensures
        b == is_link_trailing_punct(c),
{
    c == ',' || c == '.' || c == '!' || c == '?' || c == ';' || c == ':' || c == ')' || c == ']' || c == '}'
}

/// The link target of a chat token: web addresses are kept, `www.` hosts get
/// `https://` in front, anything else is not a link.
pub open spec fn url_href_spec(token: Seq<char>) -> Option<Seq<char>> {
    if has_prefix_spec(token, "http://"@) || has_prefix_spec(token, "https://"@) {
        Some(token)
    } else if has_prefix_spec(token, "www."@) {
        Some("https://"@ + token)
    } else {
        None
    }
}

/// Returns the link target of a chat token, if it is a link.
pub fn url_href(token: &str) -> (r: Option<String>)
    ensures
        crate::browser::opt_view(r) == url_href_spec(token@),
{
    if has_prefix(token, "http://") || has_prefix(token, "https://") {
        return Some(String::from_str(token));
    }
    if has_prefix(token, "www.") {
        return Some(String::from_str("https://").concat(token));
    }
    None
}

/// `s` starts with `p`.
pub open spec fn has_prefix_spec(s: Seq<char>, p: Seq<char>) -> bool {
    p.len() <= s.len() && s.subrange(0, p.len() as int) == p
}

/// Time to live of chat lines, where `0` counts as one millisecond.
pub open spec fn effective_ttl(ttl_ms: u32) -> int {
    if ttl_ms == 0 { 1 } else { ttl_ms as int }
}

/// Milliseconds until a chat line starts to fade out (zero when it already has).
pub open spec fn fade_delay(now: TimestampMs, sent_at: TimestampMs, ttl_ms: u32) -> int {
    let d = effective_ttl(ttl_ms) - saturating_diff(now, sent_at);
    let sat = if d > i64::MAX { i64::MAX as int } else { d };
    if sat < 0 { 0 } else { sat }
}

/// Computes [`fade_delay`].
pub fn line_fade_delay_ms(now: TimestampMs, sent_at: TimestampMs, ttl_ms: u32) -> (d: i64)
    ensures
        d == fade_delay(now, sent_at, ttl_ms),
{
    let age = saturating_sub_i64(now, sent_at);
    let ttl: i64 = if ttl_ms == 0 { 1 } else { ttl_ms as i64 };
    let d = saturating_sub_i64(ttl, age);
    if d < 0 { 0 } else { d }
}

/// Milliseconds until a chat line is gone (faded out and pruned), zero when
/// it already is.
pub open spec fn prune_delay(now: TimestampMs, sent_at: TimestampMs, ttl_ms: u32) -> int {
    let d = effective_ttl(ttl_ms) + CHAT_FADE_OUT_MS - saturating_diff(now, sent_at);
    let sat = if d > i64::MAX { i64::MAX as int } else { d };
    if sat < 0 { 0 } else { sat }
}

/// The least prune delay among the first `n` lines, or `None` when `n` is zero.
pub open spec fn min_prune_delay(lines: Seq<ChatLine>, now: TimestampMs, ttl_ms: u32, n: int) -> Option<int>
    decreases n,
{
    if n <= 0 {
        None
    } else {
        let d = prune_delay(now, lines[n - 1].sent_at, ttl_ms);
        match min_prune_delay(lines, now, ttl_ms, n - 1) {
            Some(m) => Some(if d < m { d } else { m }),
            None => Some(d),
        }
    }
}

/// How long to wait before pruning the chat again: the soonest moment a line
/// disappears, or nothing when there are no lines.
pub fn next_prune_delay_ms(lines: &Vec<ChatLine>, ttl_ms: u32, now: TimestampMs) -> (r: Option<i64>)
    ensures
        match r {
            Some(d) => min_prune_delay(lines@, now, ttl_ms, lines@.len() as int) == Some(d as int),
            None => min_prune_delay(lines@, now, ttl_ms, lines@.len() as int) is None,
        },
{
    let ttl: i64 = if ttl_ms == 0 { 1 } else { ttl_ms as i64 };
    let total: i64 = ttl + CHAT_FADE_OUT_MS;
    let mut best: Option<i64> = None;
    let mut i: usize = 0;
    while i < lines.len()
        invariant
            i <= lines.len(),
            total == effective_ttl(ttl_ms) + CHAT_FADE_OUT_MS,
            match best {
                Some(d) => min_prune_delay(lines@, now, ttl_ms, i as int) == Some(d as int),
                None => min_prune_delay(lines@, now, ttl_ms, i as int) is None,
            },
        decreases lines.len() - i,
    {
        let age = saturating_sub_i64(now, lines[i].sent_at);
        let d0 = saturating_sub_i64(total, age);
        let d = if d0 < 0 { 0 } else { d0 };
        best = match best {
            Some(b) => Some(if d < b { d } else { b }),
            None => Some(d),
        };
        i = i + 1;
    }
    best
}

/// A delay for a timer: negative delays fire at once, and delays beyond
/// `u32::MAX` milliseconds are capped there.
pub fn clamp_timeout_ms(delay_ms: i64) -> (r: u32)
    ensures
        r == if delay_ms < 0 { 0 } else if delay_ms > u32::MAX { u32::MAX as int } else { delay_ms as int },
{
    if delay_ms < 0 {
        0
    } else if delay_ms > u32::MAX as i64 {
        u32::MAX
    } else {
        delay_ms as u32
    }
}

/// The message a chat submission sends: the text trimmed, or nothing when
/// only whitespace was typed.
pub fn outgoing_chat_message(text: &str) -> (r: Option<String>)
    ensures
        match r {
            Some(m) => trimmed(text@).len() > 0 && m@ == trimmed(text@),
            None => trimmed(text@).len() == 0,
        },
{
    let t = trim(text);
    if t.as_str().unicode_len() == 0 {
        None
    } else {
        Some(t)
    }
}

} // verus!
