use plug::devices::{linear, vibrator};
use plug::input::{normalize, parse_list_string, sanitize_name_list, TkDeviceSettings, TkParams, TkPattern};

fn owned(list: &[&str]) -> Vec<String> {
    list.iter().map(|s| s.to_string()).collect()
}

fn entry(name: &str, enabled: bool, events: &[&str]) -> TkDeviceSettings {
    TkDeviceSettings { name: name.to_string(), enabled, events: owned(events) }
}

fn demo_pattern() -> TkPattern {
    TkPattern::Linear { duration_ms: 1000, strength: 800 }
}

#[test]
fn normalize_trims_and_lower_cases() {
    assert_eq!(normalize("  AbC "), "abc");
    assert_eq!(normalize("\t Vibrate\r\n"), "vibrate");
    assert_eq!(normalize("already"), "already");
    assert_eq!(normalize("   "), "");
    assert_eq!(normalize(""), "");
}

#[test]
fn normalize_handles_unicode_whitespace_and_case() {
    // vertical tab and no-break space are Unicode whitespace
    assert_eq!(normalize("\u{b}a"), "a");
    assert_eq!(normalize("\u{a0}x\u{a0}"), "x");
    // a-umlaut lower-cases beyond the basic letters
    assert_eq!(normalize("\u{c4}BC"), "\u{e4}bc");
    // dotted capital I lower-cases to two characters
    assert_eq!(normalize("\u{130}"), "i\u{307}");
}

#[test]
fn sanitize_name_list_normalizes_each_element() {
    let raw = owned(&[" Vibrate ", "STROKE", "ok", " \u{c4} "]);
    assert_eq!(sanitize_name_list(&raw), owned(&["vibrate", "stroke", "ok", "\u{e4}"]));
}

#[test]
fn parse_list_string_splits_and_normalizes() {
    assert_eq!(parse_list_string("Vibrate, Stroke"), owned(&["vibrate", "stroke"]));
    assert_eq!(parse_list_string("a,,b"), owned(&["a", "b"]));
    assert_eq!(parse_list_string(""), Vec::<String>::new());
    assert_eq!(parse_list_string(","), Vec::<String>::new());
    assert_eq!(parse_list_string("one"), owned(&["one"]));
    assert_eq!(parse_list_string(" , "), owned(&["", ""]));
    assert_eq!(parse_list_string("\u{c4}, b"), owned(&["\u{e4}", "b"]));
    assert_eq!(parse_list_string("\u{b}a"), owned(&["a"]));
}

#[test]
fn empty_tag_list_selects_every_enabled_device() {
    let devices = vec![
        entry("glove", true, &["vibrate"]),
        entry("wand", false, &["vibrate"]),
        entry("cuff", true, &[]),
    ];
    let params = TkParams::from_input(vec![], demo_pattern(), &devices);
    assert_eq!(params.selector, owned(&["glove", "cuff"]));
}

#[test]
fn unmatched_tags_select_nothing() {
    let devices = vec![
        entry("glove", true, &["vibrate"]),
        entry("cuff", true, &["stroke"]),
    ];
    let params = TkParams::from_input(owned(&["missing"]), demo_pattern(), &devices);
    assert!(params.selector.is_empty());
}

#[test]
fn disabled_devices_are_never_selected() {
    let devices = vec![entry("glove", false, &["vibrate"])];
    let params = TkParams::from_input(owned(&["vibrate"]), demo_pattern(), &devices);
    assert!(params.selector.is_empty());
}

#[test]
fn resolution_is_idempotent_under_renormalization() {
    let devices = vec![
        entry("glove", true, &["vibrate"]),
        entry("cuff", true, &["stroke"]),
    ];
    let messy = TkParams::from_input(owned(&["Vibrate", " vibrate "]), demo_pattern(), &devices);
    let clean = TkParams::from_input(owned(&["vibrate"]), demo_pattern(), &devices);
    assert_eq!(messy.selector, clean.selector);
    assert_eq!(messy.selector, owned(&["glove"]));
}

#[test]
fn from_input_keeps_raw_events_and_pattern() {
    let devices = vec![entry("glove", true, &["vibrate"])];
    let events = owned(&[" Vibrate "]);
    let params = TkParams::from_input(events.clone(), demo_pattern(), &devices);
    assert_eq!(params.events, owned(&[" Vibrate "]));
    match params.pattern {
        TkPattern::Linear { duration_ms, strength } => {
            assert_eq!(duration_ms, 1000);
            assert_eq!(strength, 800);
        }
        _ => panic!("pattern must round-trip"),
    }
}

#[test]
fn filter_devices_needs_name_match_and_scalar_capability() {
    let devices = vec![entry("glove", true, &[])];
    let params = TkParams::from_input(vec![], demo_pattern(), &devices);
    assert_eq!(params.selector, owned(&["glove"]));

    let connected = vec![vibrator(1, "glove"), linear(2, "glove"), vibrator(3, "other")];
    let kept = params.filter_devices(connected);
    assert_eq!(kept.len(), 1);
    assert_eq!(kept[0].index, 1);
    assert_eq!(kept[0].name, "glove");
}
