use robs::text::{decimal_string, parse_i32, parse_u32, str_eq};
use robs::ui::parse_monitor_coords;

#[test]
fn decimal_of_numbers() {
    assert_eq!(decimal_string(0), "0");
    assert_eq!(decimal_string(7), "7");
    assert_eq!(decimal_string(6000), "6000");
    assert_eq!(decimal_string(u64::MAX), "18446744073709551615");
}

#[test]
fn parse_u32_like_std() {
    for s in ["0", "42", "+42", "4294967295", "4294967296", "", "+", "-1", "12a", "007"] {
        assert_eq!(parse_u32(s), s.parse::<u32>().ok(), "input {:?}", s);
    }
}

#[test]
fn str_eq_compares_characters() {
    assert!(str_eq("bitrate", "bitrate"));
    assert!(!str_eq("bitrate", "keyint"));
    assert!(!str_eq("ab", "abc"));
    assert!(str_eq("", ""));
}

#[test]
fn parse_i32_follows_std() {
    for s in ["0", "42", "-42", "+7", "2147483647", "-2147483648", "2147483648", "-2147483649", "", "-", "+", "1x", " 1", "+-1"] {
        assert_eq!(parse_i32(s), s.parse::<i32>().ok(), "{s}");
    }
}

#[test]
fn monitor_coords_from_source_name() {
    assert_eq!(parse_monitor_coords("Display 1|x:1920|y:0|w:2560|h:1440"), (1920, 0, 2560, 1440));
    assert_eq!(parse_monitor_coords("Primary Monitor"), (0, 0, 1920, 1080));
    assert_eq!(parse_monitor_coords("M|x:abc|w:"), (0, 0, 1920, 1080));
    assert_eq!(parse_monitor_coords("M|x:-100|y:+5|foo|z:1"), (-100, 5, 1920, 1080));
    assert_eq!(parse_monitor_coords("M|x:1|x:2|h:720"), (2, 0, 1920, 720));
    assert_eq!(parse_monitor_coords("M|w:99999999999"), (0, 0, 1920, 1080));
    assert_eq!(parse_monitor_coords("M||"), (0, 0, 1920, 1080));
}
