//! Filter construction and evaluation: level thresholds, directive-string
//! parsing with its fallbacks, prefix matching, and the paired gate.

use aptos_logger::entry::Metadata;
use aptos_logger::filter::{Filter, FilterPair};
use aptos_logger::level::{Level, LevelFilter};

fn meta(level: Level, target: &'static str) -> Metadata {
    Metadata::new(level, target, "m", "f.rs", 1)
}

#[test]
fn severity_ordering() {
    assert!(Level::Error.passes(LevelFilter::Error));
    assert!(Level::Error.passes(LevelFilter::Trace));
    assert!(!Level::Trace.passes(LevelFilter::Error));
    assert!(!Level::Error.passes(LevelFilter::Off));
    assert!(Level::Info.passes(LevelFilter::Info));
    assert!(!Level::Debug.passes(LevelFilter::Info));
}

#[test]
fn level_names() {
    assert_eq!(Level::Error.as_str(), "ERROR");
    assert_eq!(Level::Warn.as_str(), "WARN");
    assert_eq!(Level::Info.as_str(), "INFO");
    assert_eq!(Level::Debug.as_str(), "DEBUG");
    assert_eq!(Level::Trace.as_str(), "TRACE");
}

#[test]
fn plain_level_filter() {
    let f = Filter::from_level(LevelFilter::Warn);
    assert!(f.enabled(&meta(Level::Error, "any")));
    assert!(f.enabled(&meta(Level::Warn, "any")));
    assert!(!f.enabled(&meta(Level::Info, "any")));
}

#[test]
fn directive_string_overrides_per_target() {
    let (f, defect) = Filter::from_directives("noisy=error,chatty=trace", LevelFilter::Info);
    assert!(!defect);
    assert!(!f.enabled(&meta(Level::Warn, "noisy")));
    assert!(f.enabled(&meta(Level::Error, "noisy")));
    assert!(f.enabled(&meta(Level::Trace, "chatty")));
    assert!(f.enabled(&meta(Level::Info, "other")));
    assert!(!f.enabled(&meta(Level::Debug, "other")));
}

#[test]
fn directive_prefix_longest_match_wins() {
    let (f, defect) = Filter::from_directives("app=off,app::inner=debug", LevelFilter::Info);
    assert!(!defect);
    assert!(!f.enabled(&meta(Level::Error, "app")));
    assert!(!f.enabled(&meta(Level::Error, "app::outer")));
    assert!(f.enabled(&meta(Level::Debug, "app::inner")));
    assert!(f.enabled(&meta(Level::Debug, "app::inner::leaf")));
}

#[test]
fn bare_level_sets_default() {
    let (f, defect) = Filter::from_directives("debug,noisy=warn", LevelFilter::Info);
    assert!(!defect);
    assert!(f.enabled(&meta(Level::Debug, "other")));
    assert!(!f.enabled(&meta(Level::Debug, "noisy")));
}

#[test]
fn malformed_directives_fall_back() {
    let (f, defect) = Filter::from_directives("noisy=loud", LevelFilter::Info);
    assert!(defect);
    assert!(f.enabled(&meta(Level::Info, "noisy")));
    assert!(!f.enabled(&meta(Level::Debug, "noisy")));

    let (f2, defect2) = Filter::from_directives("nonsense", LevelFilter::Warn);
    assert!(defect2);
    assert!(f2.enabled(&meta(Level::Warn, "x")));
    assert!(!f2.enabled(&meta(Level::Info, "x")));

    let (f3, defect3) = Filter::from_directives("", LevelFilter::Error);
    assert!(!defect3);
    assert!(f3.enabled(&meta(Level::Error, "x")));
    assert!(!f3.enabled(&meta(Level::Warn, "x")));
}

#[test]
fn pair_gate_is_the_union() {
    let pair = FilterPair {
        local_filter: Filter::from_level(LevelFilter::Error),
        remote_filter: Filter::from_level(LevelFilter::Debug),
    };
    assert!(pair.enabled(&meta(Level::Debug, "x")));
    assert!(pair.enabled(&meta(Level::Error, "x")));
    assert!(!pair.enabled(&meta(Level::Trace, "x")));

    let both_off = FilterPair {
        local_filter: Filter::from_level(LevelFilter::Off),
        remote_filter: Filter::from_level(LevelFilter::Off),
    };
    assert!(!both_off.enabled(&meta(Level::Error, "x")));
}
