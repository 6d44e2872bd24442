use ffchess_client::chat::{
    chat_surface, clamp_timeout_ms, display_sender_color, line_fade_delay_ms, next_prune_delay_ms,
    split_url_trailing_punctuation, url_href, ChatSurface, ChatTheme,
};
use ffchess_client::model::ChatLine;
use ffchess_client::reducer::GameStateReducer;

#[test]
fn links_and_punctuation() {
    assert_eq!(split_url_trailing_punctuation("https://a.b/c)."), ("https://a.b/c", ")."));
    assert_eq!(split_url_trailing_punctuation("plain"), ("plain", ""));
    assert_eq!(split_url_trailing_punctuation("?!"), ("", "?!"));
    assert_eq!(url_href("http://x"), Some("http://x".to_string()));
    assert_eq!(url_href("www.example.org"), Some("https://www.example.org".to_string()));
    assert_eq!(url_href("example.org"), None);
}

#[test]
fn colors_by_surface() {
    assert_eq!(display_sender_color("#555555", ChatSurface::DarkOverlay), "#9ca3af");
    assert_eq!(display_sender_color("#555555", ChatSurface::LightBoard), "#555555");
    assert_eq!(display_sender_color("#ff0000", ChatSurface::DarkOverlay), "#ff0000");
    assert_eq!(ChatTheme::for_surface(ChatSurface::LightBoard).link_color, "#1d4ed8");
    assert_eq!(ChatTheme::for_surface(ChatSurface::DarkOverlay).message_color, "#d1d5db");
    assert_eq!(chat_surface(&GameStateReducer::default()), ChatSurface::DarkOverlay);
}

#[test]
fn expiry_timing() {
    let line = |t: i64| ChatLine { sent_at: t, sender_name: String::new(), sender_color: String::new(), message: String::new() };
    assert_eq!(next_prune_delay_ms(&vec![], 1000, 0), None);
    assert_eq!(next_prune_delay_ms(&vec![line(0), line(900)], 1000, 1000), Some(500));
    assert_eq!(next_prune_delay_ms(&vec![line(0)], 1000, 9000), Some(0));
    assert_eq!(line_fade_delay_ms(1000, 400, 1000), 400);
    assert_eq!(line_fade_delay_ms(1000, 400, 0), 0);
    assert_eq!(clamp_timeout_ms(-5), 0);
    assert_eq!(clamp_timeout_ms(70), 70);
    assert_eq!(clamp_timeout_ms(i64::MAX), u32::MAX);
}

#[test]
fn chat_sends_trimmed_non_blank_messages() {
    assert_eq!(ffchess_client::chat::outgoing_chat_message("  hi there \n"), Some("hi there".to_string()));
    assert_eq!(ffchess_client::chat::outgoing_chat_message(" \t "), None);
    assert_eq!(ffchess_client::chat::outgoing_chat_message(""), None);
}
