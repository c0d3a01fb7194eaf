use tracing_sqlite::filter::has_module;
use tracing_sqlite::prefix::{same_text, starts_with};
use tracing_sqlite::{effective_metadata, Level, LevelFilter, Metadata, SubscriberBuilder};

fn meta(level: Level, module: Option<&str>) -> Metadata<'_> {
    Metadata { level, module, file: None, line: None }
}

#[test]
fn starts_with_compares_characters() {
    assert!(starts_with("svc::net::tcp", "svc::net"));
    assert!(starts_with("svc::net", "svc::net"));
    assert!(starts_with("svc::net", ""));
    assert!(starts_with("", ""));
    assert!(!starts_with("svc::db", "svc::net"));
    assert!(!starts_with("svc", "svc::net"));
    assert!(!starts_with("", "a"));
    assert!(!starts_with("Svc::net", "svc"));
}

#[test]
fn starts_with_handles_text_beyond_ascii() {
    assert!(starts_with("größe::maß", "größe"));
    assert!(starts_with("日本語::モジュール", "日本"));
    assert!(!starts_with("日本語", "日語"));
    assert!(!starts_with("é", "e"));
    assert!(!starts_with("e", "é"));
    assert!(starts_with("🦀::claw", "🦀"));
}

#[test]
fn same_text_is_equality() {
    assert!(same_text("message", "message"));
    assert!(same_text("", ""));
    assert!(!same_text("message", "messages"));
    assert!(!same_text("messages", "message"));
    assert!(!same_text("Message", "message"));
}

#[test]
fn has_module_needs_one_matching_prefix() {
    assert!(has_module("svc::net::tcp", &["svc::db", "svc::net"]));
    assert!(!has_module("svc::net::tcp", &["svc::db", "app"]));
    assert!(!has_module("svc::net::tcp", &[]));
    assert!(has_module("svc", &[""]));
}

#[test]
fn more_verbose_events_are_rejected() {
    let layer = SubscriberBuilder::new().with_max_level(LevelFilter::Info).build_layer(());
    assert!(!layer.enabled(&meta(Level::Debug, None)));
    assert!(!layer.enabled(&meta(Level::Trace, Some("svc"))));
    assert!(layer.enabled(&meta(Level::Info, None)));
    assert!(layer.enabled(&meta(Level::Warn, Some("svc"))));
    assert!(layer.enabled(&meta(Level::Error, None)));
}

#[test]
fn threshold_off_rejects_every_event() {
    let layer = SubscriberBuilder::new().with_max_level(LevelFilter::Off).build_layer(());
    assert!(!layer.enabled(&meta(Level::Error, None)));
    assert!(!layer.enabled(&meta(Level::Trace, Some("svc"))));
}

#[test]
fn white_list_rejects_modules_that_match_no_entry() {
    let layer = SubscriberBuilder::new()
        .with_max_level(LevelFilter::Trace)
        .with_white_list(vec!["svc::net", "svc::rpc"])
        .build_layer(());
    assert!(layer.enabled(&meta(Level::Info, Some("svc::net::tcp"))));
    assert!(layer.enabled(&meta(Level::Info, Some("svc::rpc"))));
    assert!(!layer.enabled(&meta(Level::Info, Some("svc::db"))));
    assert!(!layer.enabled(&meta(Level::Error, Some("svc"))));
}

#[test]
fn white_list_needs_any_entry_not_all() {
    let layer = SubscriberBuilder::new().with_white_list(vec!["a", "b"]).build_layer(());
    assert!(layer.enabled(&meta(Level::Info, Some("a::x"))));
    assert!(layer.enabled(&meta(Level::Info, Some("b::y"))));
}

#[test]
fn empty_white_list_rejects_every_named_module() {
    let layer = SubscriberBuilder::new().with_white_list(vec![]).build_layer(());
    assert!(!layer.enabled(&meta(Level::Error, Some("svc"))));
    assert!(layer.enabled(&meta(Level::Error, None)));
}

#[test]
fn black_list_rejects_modules_that_match_an_entry() {
    let layer = SubscriberBuilder::new()
        .with_max_level(LevelFilter::Trace)
        .with_black_list(vec!["svc::db", "noisy"])
        .build_layer(());
    assert!(!layer.enabled(&meta(Level::Error, Some("svc::db::pool"))));
    assert!(!layer.enabled(&meta(Level::Error, Some("noisy"))));
    assert!(layer.enabled(&meta(Level::Error, Some("svc::net"))));
}

#[test]
fn black_list_wins_over_white_list() {
    let layer = SubscriberBuilder::new()
        .with_white_list(vec!["svc"])
        .with_black_list(vec!["svc::db"])
        .build_layer(());
    assert!(layer.enabled(&meta(Level::Info, Some("svc::net"))));
    assert!(!layer.enabled(&meta(Level::Info, Some("svc::db"))));
    assert!(!layer.enabled(&meta(Level::Info, Some("other"))));
}

#[test]
fn event_without_module_passes_both_lists() {
    let layer = SubscriberBuilder::new()
        .with_white_list(vec!["svc"])
        .with_black_list(vec![""])
        .build_layer(());
    assert!(layer.enabled(&meta(Level::Info, None)));
    assert!(!layer.enabled(&meta(Level::Info, Some("svc"))));
    assert!(!layer.enabled(&meta(Level::Trace, None)));
}

#[test]
fn max_level_hint_is_the_threshold() {
    let layer = SubscriberBuilder::new().with_max_level(LevelFilter::Warn).build_layer(());
    assert_eq!(layer.max_level_hint(), Some(LevelFilter::Warn));
    assert_eq!(*layer.max_level(), LevelFilter::Warn);
}

#[test]
fn builder_starts_at_debug_without_lists() {
    let layer = SubscriberBuilder::new().build_layer(());
    assert_eq!(*layer.max_level(), LevelFilter::Debug);
    assert_eq!(layer.white_list(), None);
    assert_eq!(layer.black_list(), None);
    assert!(!layer.log_compat());
    let by_default = SubscriberBuilder::default().build_layer(());
    assert_eq!(*by_default.max_level(), LevelFilter::Debug);
    assert_eq!(by_default.white_list(), None);
    assert_eq!(by_default.black_list(), None);
}

#[test]
fn builder_hands_its_settings_to_the_layer() {
    let layer = SubscriberBuilder::new()
        .with_max_level(LevelFilter::Error)
        .with_black_list(vec!["a", "b"])
        .with_white_list(vec!["c"])
        .with_log_compat(true)
        .build_layer(7u8);
    assert_eq!(*layer.max_level(), LevelFilter::Error);
    assert_eq!(layer.black_list(), Some(&["a", "b"][..]));
    assert_eq!(layer.white_list(), Some(&["c"][..]));
    assert!(layer.log_compat());
}

#[test]
fn later_builder_calls_replace_earlier_ones() {
    let layer = SubscriberBuilder::new()
        .with_black_list(vec!["a"])
        .with_black_list(vec!["b"])
        .with_max_level(LevelFilter::Info)
        .with_max_level(LevelFilter::Warn)
        .build_layer(());
    assert_eq!(layer.black_list(), Some(&["b"][..]));
    assert_eq!(*layer.max_level(), LevelFilter::Warn);
}

#[test]
fn bridged_metadata_counts_only_in_compatibility_mode() {
    let own = Metadata { level: Level::Info, module: Some("log"), file: None, line: None };
    let bridged =
        Metadata { level: Level::Info, module: Some("svc::net"), file: Some("net.rs"), line: Some(4) };
    let chosen = effective_metadata(own, Some(bridged), true);
    assert_eq!(chosen.module, Some("svc::net"));
    assert_eq!(chosen.file, Some("net.rs"));
    assert_eq!(chosen.line, Some(4));
    let chosen = effective_metadata(own, Some(bridged), false);
    assert_eq!(chosen.module, Some("log"));
    assert_eq!(chosen.file, None);
    assert_eq!(chosen.line, None);
}

#[test]
fn an_event_that_was_not_bridged_goes_by_its_own_metadata() {
    let own = Metadata { level: Level::Warn, module: Some("svc"), file: None, line: Some(9) };
    for log_compat in [true, false] {
        let chosen = effective_metadata(own, None, log_compat);
        assert_eq!(chosen.level, Level::Warn);
        assert_eq!(chosen.module, Some("svc"));
        assert_eq!(chosen.line, Some(9));
    }
}

#[test]
fn the_filter_goes_by_the_metadata_that_counts() {
    let layer = SubscriberBuilder::new().with_white_list(vec!["svc"]).with_log_compat(true).build_layer(());
    let own = Metadata { level: Level::Info, module: Some("log"), file: None, line: None };
    let bridged = Metadata { level: Level::Info, module: Some("svc::net"), file: None, line: None };
    assert!(!layer.enabled(&own));
    assert!(layer.enabled(&effective_metadata(own, Some(bridged), layer.log_compat())));
}
