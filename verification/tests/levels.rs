use fiaas_logger::text::same_text;
use fiaas_logger::{FiaasEnv, Level, LevelFilter};

const LEVELS: [Level; 5] = [Level::Error, Level::Warn, Level::Info, Level::Debug, Level::Trace];

const FILTERS: [LevelFilter; 6] = [
    LevelFilter::Off,
    LevelFilter::Error,
    LevelFilter::Warn,
    LevelFilter::Info,
    LevelFilter::Debug,
    LevelFilter::Trace,
];

fn outside(level: Level) -> log::Level {
    match level {
        Level::Error => log::Level::Error,
        Level::Warn => log::Level::Warn,
        Level::Info => log::Level::Info,
        Level::Debug => log::Level::Debug,
        Level::Trace => log::Level::Trace,
    }
}

fn outside_filter(filter: LevelFilter) -> log::LevelFilter {
    match filter {
        LevelFilter::Off => log::LevelFilter::Off,
        LevelFilter::Error => log::LevelFilter::Error,
        LevelFilter::Warn => log::LevelFilter::Warn,
        LevelFilter::Info => log::LevelFilter::Info,
        LevelFilter::Debug => log::LevelFilter::Debug,
        LevelFilter::Trace => log::LevelFilter::Trace,
    }
}

#[test]
fn ordinals_run_from_most_to_least_severe() {
    assert_eq!(Level::Error.ordinal(), 1);
    assert_eq!(Level::Warn.ordinal(), 2);
    assert_eq!(Level::Info.ordinal(), 3);
    assert_eq!(Level::Debug.ordinal(), 4);
    assert_eq!(Level::Trace.ordinal(), 5);
    assert_eq!(LevelFilter::Off.ordinal(), 0);
    assert_eq!(LevelFilter::Trace.ordinal(), 5);
}

#[test]
fn names_are_upper_case() {
    assert_eq!(Level::Error.as_str(), "ERROR");
    assert_eq!(Level::Warn.as_str(), "WARN");
    assert_eq!(Level::Info.as_str(), "INFO");
    assert_eq!(Level::Debug.as_str(), "DEBUG");
    assert_eq!(Level::Trace.as_str(), "TRACE");
}

#[test]
fn levels_agree_with_the_log_crate() {
    for a in LEVELS {
        assert_eq!(a.as_str(), outside(a).as_str());
        assert_eq!(a.as_str(), outside(a).to_string());
        assert_eq!(usize::from(a.ordinal()), outside(a) as usize);
        assert_eq!(outside_filter(a.to_level_filter()), outside(a).to_level_filter());
        for b in LEVELS {
            assert_eq!(a.ordinal() <= b.ordinal(), outside(a) <= outside(b));
        }
        for f in FILTERS {
            assert_eq!(f.allows(a), outside(a) <= outside_filter(f));
        }
    }
}

#[test]
fn filter_of_a_level_admits_that_level_and_the_more_severe() {
    for min in LEVELS {
        let filter = min.to_level_filter();
        assert_eq!(filter.ordinal(), min.ordinal());
        for level in LEVELS {
            assert_eq!(filter.allows(level), level.ordinal() <= min.ordinal());
        }
    }
    for level in LEVELS {
        assert!(!LevelFilter::Off.allows(level));
        assert!(LevelFilter::Trace.allows(level));
    }
}

#[test]
fn level_tokens_are_lower_case_and_exact() {
    assert_eq!(Level::parse("error"), Some(Level::Error));
    assert_eq!(Level::parse("warn"), Some(Level::Warn));
    assert_eq!(Level::parse("info"), Some(Level::Info));
    assert_eq!(Level::parse("debug"), Some(Level::Debug));
    assert_eq!(Level::parse("trace"), Some(Level::Trace));
    for bad in ["", "verbose", "ERROR", "Warn", " info", "info ", "warning", "off", "trac", "tracee"] {
        assert_eq!(Level::parse(bad), None, "{:?}", bad);
    }
}

#[test]
fn environment_tokens_are_lower_case_and_exact() {
    assert_eq!(FiaasEnv::parse("local"), Some(FiaasEnv::Local));
    assert_eq!(FiaasEnv::parse("dev"), Some(FiaasEnv::Dev));
    assert_eq!(FiaasEnv::parse("prod"), Some(FiaasEnv::Prod));
    for bad in ["", "staging", "LOCAL", "Dev", "prod ", " prod", "production", "de"] {
        assert_eq!(FiaasEnv::parse(bad), None, "{:?}", bad);
    }
}

#[test]
fn only_local_is_unstructured() {
    assert!(!FiaasEnv::Local.is_structured());
    assert!(FiaasEnv::Dev.is_structured());
    assert!(FiaasEnv::Prod.is_structured());
}

#[test]
fn same_text_compares_characters() {
    assert!(same_text("", ""));
    assert!(same_text("warn", "warn"));
    assert!(!same_text("warn", "Warn"));
    assert!(!same_text("warn", "warn "));
    assert!(same_text("\u{e9}", "\u{e9}"));
    assert!(!same_text("\u{e9}", "e"));
}
