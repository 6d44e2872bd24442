use ffchess_client::color::{
    format_hex_color,
    hex_color_slices_valid, parse_hex_color, rgba_channels, rgba_slices_valid, shadow_base_channels,
    shadow_slices_valid, NPC_PIECE_COLOR,
};

#[test]
fn parses_long_and_short_hex_colors() {
    assert_eq!(parse_hex_color("#ff8800"), Some((255, 136, 0)));
    assert_eq!(parse_hex_color("ff8800"), Some((255, 136, 0)));
    assert_eq!(parse_hex_color("##0a0B0c"), Some((10, 11, 12)));
    assert_eq!(parse_hex_color("#f80"), Some((255, 136, 0)));
    assert_eq!(parse_hex_color(NPC_PIECE_COLOR), Some((85, 85, 85)));
    assert_eq!(parse_hex_color("#+f+f+f"), Some((15, 15, 15)));
    assert_eq!(parse_hex_color("#gg0000"), None);
    assert_eq!(parse_hex_color("#ff00"), None);
    assert_eq!(parse_hex_color("#+ff"), None);
}

#[test]
fn rgba_channels_default_to_zero() {
    assert_eq!(rgba_channels("#102030"), (16, 32, 48));
    assert_eq!(rgba_channels("#zz2030"), (0, 32, 48));
    assert_eq!(rgba_channels("#abc"), (170, 187, 204));
    assert_eq!(rgba_channels("#1234"), (0, 0, 0));
}

#[test]
fn shadow_base_needs_trimmed_hash_form() {
    assert_eq!(shadow_base_channels("  #1d4ed8 "), Some((0x1d, 0x4e, 0xd8)));
    assert_eq!(shadow_base_channels("1d4ed8"), None);
    assert_eq!(shadow_base_channels("#1d4e"), None);
    assert_eq!(shadow_base_channels("#1d4exx"), None);
}

#[test]
fn slices_that_split_a_character_are_detected() {
    // "é" takes two bytes: with it at the front, byte 1 falls inside it
    assert!(hex_color_slices_valid("#ff8800"));
    assert!(hex_color_slices_valid("#abc"));
    assert!(hex_color_slices_valid("#toolongcolor"));
    assert!(!hex_color_slices_valid("#\u{e9}a"));
    assert!(hex_color_slices_valid("#\u{e9}ab"));
    // the first channel does not parse, so the second slice is never taken
    assert!(hex_color_slices_valid("#zza\u{e9}b"));
    assert!(!hex_color_slices_valid("#ffa\u{e9}b"));
    assert!(rgba_slices_valid("#102030"));
    assert!(!rgba_slices_valid("#zza\u{e9}b"));
    assert!(!rgba_slices_valid("#a\u{e9}"));
    assert!(shadow_slices_valid("  #1d4ed8 "));
    assert!(shadow_slices_valid("plain"));
    assert!(!shadow_slices_valid("#1\u{e9}abc"));
}

#[test]
fn formatted_colors_parse_back() {
    assert_eq!(format_hex_color(255, 136, 0), "#ff8800");
    assert_eq!(format_hex_color(0, 10, 171), "#000aab");
    for r in (0..=255u8).step_by(17) {
        for g in [0u8, 1, 15, 16, 128, 254, 255] {
            let b = r ^ g;
            let text = format_hex_color(r, g, b);
            assert_eq!(text, format!("#{r:02x}{g:02x}{b:02x}"));
            assert_eq!(parse_hex_color(&text), Some((r, g, b)));
        }
    }
    assert_eq!(parse_hex_color("#f80"), Some((255, 136, 0)));
}

#[test]
fn rgba_reads_the_channels_that_parse() {
    for text in ["#102030", "#abc", "ff8800", "##0A0b0C", "#+f+f+f"] {
        let parsed = parse_hex_color(text).expect("parses");
        assert!(rgba_slices_valid(text));
        assert_eq!(rgba_channels(text), parsed);
    }
}
