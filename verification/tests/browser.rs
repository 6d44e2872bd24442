use ffchess_client::browser::{is_mobile_agent, normalize_text, PageMetadata};

#[test]
fn metadata_title_and_favicon() {
    let m = PageMetadata::new(Some("  Blitz ".to_string()), Some(" #ff0000".to_string()));
    assert_eq!(m.title(), "Blitz - FFChess");
    assert_eq!(m.favicon_color(), "#ff0000");
    let empty = PageMetadata::new(Some("   ".to_string()), None);
    assert_eq!(empty.title(), "FFChess");
    assert_eq!(empty.favicon_color(), "#555555");
    assert_eq!(normalize_text(Some(" x ".to_string())), Some("x".to_string()));
    assert_eq!(normalize_text(Some("\t".to_string())), None);
    assert_eq!(normalize_text(None), None);
}

#[test]
fn phones_and_tablets_are_told_apart_by_their_user_agent() {
    assert!(is_mobile_agent("Mozilla/5.0 (iPhone; CPU iPhone OS 17_0 like Mac OS X) Mobile/15E148"));
    assert!(is_mobile_agent("Mozilla/5.0 (Linux; ANDROID 14; Pixel 8)"));
    assert!(is_mobile_agent("Mozilla/5.0 (IPAD; CPU OS 17_0 like Mac OS X)"));
    assert!(!is_mobile_agent("Mozilla/5.0 (X11; Linux x86_64) Gecko/20100101 Firefox/126.0"));
    assert!(!is_mobile_agent(""));
}

#[test]
fn metadata_equality_goes_by_the_normalised_texts() {
    assert!(
        PageMetadata::new(Some("  Classic ".to_string()), Some(" #ff0000 ".to_string()))
            == PageMetadata::new(Some("Classic".to_string()), Some("#ff0000".to_string()))
    );
    assert!(PageMetadata::new(Some("   ".to_string()), Some("".to_string())) == PageMetadata::new(None, None));
    assert!(PageMetadata::new(None, None) == PageMetadata::default());
    assert!(PageMetadata::new(Some("Classic".to_string()), None) != PageMetadata::new(Some("Blitz".to_string()), None));
}
