use svwc_snip::selector::{contains_substring, resolve, SelectionPolicy};
use svwc_snip::target::{CaptureError, CaptureTarget};

fn mk(name: &str, primary: bool, w: u32, h: u32) -> CaptureTarget {
    CaptureTarget { name: String::from(name), primary, width: w, height: h }
}

fn outputs() -> Vec<CaptureTarget> {
    vec![
        mk("HDMI-1", false, 1920, 1080),
        mk("eDP-1", true, 2560, 1440),
        mk("eDP-2", false, 1280, 720),
    ]
}

#[test]
fn by_index_returns_indexed() {
    let v = outputs();
    let r = resolve(&v, &SelectionPolicy::ByIndex(1)).unwrap();
    assert_eq!(r.name, "eDP-1");
    assert!(r.primary);
    assert_eq!(r.width, 2560);
    assert_eq!(r.height, 1440);
}

#[test]
fn by_index_last_element() {
    let v = outputs();
    let r = resolve(&v, &SelectionPolicy::ByIndex(2)).unwrap();
    assert_eq!(r.name, "eDP-2");
}

#[test]
fn by_index_out_of_range() {
    let v = outputs();
    let r = resolve(&v, &SelectionPolicy::ByIndex(3));
    assert_eq!(r.unwrap_err(), CaptureError::IndexOutOfRange);
}

#[test]
fn by_index_on_empty_list() {
    let v: Vec<CaptureTarget> = Vec::new();
    let r = resolve(&v, &SelectionPolicy::ByIndex(0));
    assert_eq!(r.unwrap_err(), CaptureError::IndexOutOfRange);
}

#[test]
fn no_primary_fails() {
    let v = vec![mk("HDMI-1", false, 1920, 1080), mk("DP-3", false, 800, 600)];
    let r = resolve(&v, &SelectionPolicy::Primary);
    assert_eq!(r.unwrap_err(), CaptureError::NoPrimaryTarget);
}

#[test]
fn primary_on_empty_list() {
    let v: Vec<CaptureTarget> = Vec::new();
    let r = resolve(&v, &SelectionPolicy::Primary);
    assert_eq!(r.unwrap_err(), CaptureError::NoPrimaryTarget);
}

#[test]
fn primary_picks_first_flagged() {
    let v = vec![
        mk("HDMI-1", false, 1920, 1080),
        mk("eDP-1", true, 2560, 1440),
        mk("DP-3", true, 800, 600),
    ];
    let r = resolve(&v, &SelectionPolicy::Primary).unwrap();
    assert_eq!(r.name, "eDP-1");
}

#[test]
fn substring_picks_first_containing() {
    let v = outputs();
    let r = resolve(&v, &SelectionPolicy::NameSubstring(String::from("eDP"))).unwrap();
    assert_eq!(r.name, "eDP-1");
}

#[test]
fn substring_no_match() {
    let v = outputs();
    let r = resolve(&v, &SelectionPolicy::NameSubstring(String::from("VGA")));
    assert_eq!(r.unwrap_err(), CaptureError::NoMatchingTarget);
}

#[test]
fn substring_on_empty_list() {
    let v: Vec<CaptureTarget> = Vec::new();
    let r = resolve(&v, &SelectionPolicy::NameSubstring(String::from("eDP")));
    assert_eq!(r.unwrap_err(), CaptureError::NoMatchingTarget);
}

#[test]
fn empty_substring_matches_first() {
    let v = outputs();
    let r = resolve(&v, &SelectionPolicy::NameSubstring(String::new())).unwrap();
    assert_eq!(r.name, "HDMI-1");
}

#[test]
fn resolve_is_deterministic() {
    let v = outputs();
    let a = resolve(&v, &SelectionPolicy::NameSubstring(String::from("eDP"))).unwrap();
    let b = resolve(&v, &SelectionPolicy::NameSubstring(String::from("eDP"))).unwrap();
    assert_eq!(a.name, b.name);
    assert_eq!(a.width, b.width);
    assert_eq!(a.height, b.height);
    assert_eq!(a.primary, b.primary);
}

#[test]
fn contains_substring_middle() {
    assert!(contains_substring("hello world", "lo wo"));
}

#[test]
fn contains_substring_whole() {
    assert!(contains_substring("eDP-1", "eDP-1"));
}

#[test]
fn contains_substring_absent() {
    assert!(!contains_substring("abc", "abcd"));
    assert!(!contains_substring("abc", "bd"));
}

#[test]
fn contains_substring_empty_needle() {
    assert!(contains_substring("abc", ""));
    assert!(contains_substring("", ""));
}

#[test]
fn contains_substring_non_ascii() {
    assert!(contains_substring("Größe-1", "öße"));
    assert!(!contains_substring("Größe-1", "öze"));
}
