use std::io::IsTerminal;
use volta_core::level::{
    level_from_env, level_from_env_value, level_from_token, resolve, Level, LevelFilter,
    LogVerbosity,
};
use volta_core::logger::{LogContext, Logger, SetupError, Sink, Stream};
use volta_core::wrap::{strip_leading_prefix, wrap_to_width};

const RED_ERROR: &str = "\u{1b}[31m\u{1b}[1merror:\u{1b}[0m";
const RED_SHIM_ERROR: &str = "\u{1b}[31m\u{1b}[1mVolta error:\u{1b}[0m";
const YELLOW_WARNING: &str = "\u{1b}[33m\u{1b}[1mwarning:\u{1b}[0m";

#[test]
fn env_tokens_map_one_to_one() {
    let cases = [
        ("off", LevelFilter::Off),
        ("error", LevelFilter::Error),
        ("warn", LevelFilter::Warn),
        ("info", LevelFilter::Info),
        ("debug", LevelFilter::Debug),
        ("trace", LevelFilter::Trace),
    ];
    for (token, expected) in cases {
        assert_eq!(resolve(LogVerbosity::Default, Some(token), true), expected);
        assert_eq!(resolve(LogVerbosity::Default, Some(token), false), expected);
        assert_eq!(level_from_env(Some(token)), expected);
    }
}

#[test]
fn env_tokens_are_case_sensitive() {
    assert_eq!(level_from_token("OFF"), None);
    assert_eq!(level_from_token("Warn"), None);
    assert_eq!(level_from_token("warn "), None);
    assert_eq!(level_from_token(""), None);
    assert_eq!(level_from_token("trace"), Some(LevelFilter::Trace));
}

#[test]
fn quiet_and_verbose_ignore_environment() {
    for env in [None, Some("trace"), Some("off"), Some("bogus")] {
        for tty in [true, false] {
            assert_eq!(resolve(LogVerbosity::Quiet, env, tty), LevelFilter::Error);
            assert_eq!(resolve(LogVerbosity::Verbose, env, tty), LevelFilter::Debug);
        }
    }
}

#[test]
fn default_falls_back_to_terminal() {
    assert_eq!(level_from_env_value(None, true), LevelFilter::Info);
    assert_eq!(level_from_env_value(None, false), LevelFilter::Error);
    assert_eq!(level_from_env_value(Some("loud"), true), LevelFilter::Info);
    assert_eq!(level_from_env_value(Some("loud"), false), LevelFilter::Error);
}

#[test]
fn new_logger_resolves_level() {
    let quiet = Logger::new(LogContext::Shim, LogVerbosity::Quiet, Some("trace"));
    assert_eq!(quiet.level(), LevelFilter::Error);
    assert_eq!(quiet.context(), LogContext::Shim);
    let verbose = Logger::new(LogContext::Volta, LogVerbosity::Verbose, None);
    assert_eq!(verbose.level(), LevelFilter::Debug);
    let from_env = Logger::new(LogContext::Volta, LogVerbosity::Default, Some("warn"));
    assert_eq!(from_env.level(), LevelFilter::Warn);
}

#[test]
fn eligibility_is_monotonic() {
    let levels = [Level::Error, Level::Warn, Level::Info, Level::Debug, Level::Trace];
    let filters = [
        LevelFilter::Off,
        LevelFilter::Error,
        LevelFilter::Warn,
        LevelFilter::Info,
        LevelFilter::Debug,
        LevelFilter::Trace,
    ];
    for f in filters {
        let logger = Logger::with_level(LogContext::Volta, f);
        for (i, l1) in levels.iter().enumerate() {
            if logger.enabled(*l1) {
                for l2 in &levels[..=i] {
                    assert!(logger.enabled(*l2));
                }
            }
        }
    }
    let warn = Logger::with_level(LogContext::Volta, LevelFilter::Warn);
    assert!(warn.enabled(Level::Error));
    assert!(warn.enabled(Level::Warn));
    assert!(!warn.enabled(Level::Info));
    let off = Logger::with_level(LogContext::Volta, LevelFilter::Off);
    assert!(!off.enabled(Level::Error));
}

#[test]
fn foreign_sources_are_dropped() {
    let logger = Logger::with_level(LogContext::Volta, LevelFilter::Trace);
    for level in [Level::Error, Level::Warn, Level::Info, Level::Debug, Level::Trace] {
        assert!(logger.log(level, "cargo::build", "message").is_none());
        assert!(logger.log(level, "Volta", "message").is_none());
        assert!(logger.log(level, "", "message").is_none());
        assert!(logger.log(level, "volta::run", "message").is_some());
    }
}

#[test]
fn events_above_threshold_are_dropped() {
    let logger = Logger::with_level(LogContext::Volta, LevelFilter::Error);
    assert!(logger.log(Level::Warn, "volta", "w").is_none());
    assert!(logger.log(Level::Error, "volta", "e").is_some());
    let off = Logger::with_level(LogContext::Volta, LevelFilter::Off);
    assert!(off.log(Level::Error, "volta", "e").is_none());
}

#[test]
fn error_line_primary() {
    let logger = Logger::with_level(LogContext::Volta, LevelFilter::Error);
    let line = logger.log(Level::Error, "volta::fetch", "disk full").unwrap();
    assert_eq!(line.stream, Stream::Stderr);
    assert!(
        line.text == "error: disk full" || line.text == format!("{} disk full", RED_ERROR),
        "unexpected line {:?}",
        line.text
    );
}

#[test]
fn error_line_alias() {
    let logger = Logger::with_level(LogContext::Shim, LevelFilter::Error);
    let line = logger.log(Level::Error, "volta::shim", "disk full").unwrap();
    assert_eq!(line.stream, Stream::Stderr);
    assert!(
        line.text == "Volta error: disk full"
            || line.text == format!("{} disk full", RED_SHIM_ERROR),
        "unexpected line {:?}",
        line.text
    );
}

#[test]
fn warning_body_without_width_is_unwrapped() {
    let message = "x".repeat(500);
    let body = wrap_to_width("warning:", &message, None);
    assert_eq!(body, format!(" {}", message));
    assert!(!body.contains('\n'));
}

#[test]
fn warning_line_off_terminal() {
    if std::io::stdout().is_terminal() {
        return;
    }
    let message = "x".repeat(500);
    let logger = Logger::with_level(LogContext::Volta, LevelFilter::Warn);
    let line = logger.log(Level::Warn, "volta", &message).unwrap();
    assert_eq!(line.stream, Stream::Stdout);
    assert!(
        line.text == format!("warning: {}", message)
            || line.text == format!("{} {}", YELLOW_WARNING, message)
    );
}

#[test]
fn warning_body_wraps_at_width() {
    let body = wrap_to_width("warning:", "aaa bbb ccc ddd eee", Some(12));
    assert_eq!(body, " aaa\n    bbb ccc\n    ddd eee");
}

#[test]
fn warning_prefix_inside_message_is_kept() {
    let body = wrap_to_width("warning:", "see warning: above", Some(80));
    assert_eq!(body, " see warning: above");
}

#[test]
fn strip_only_the_leading_prefix() {
    assert_eq!(strip_leading_prefix("warning:", "warning: a warning: b"), " a warning: b");
    assert_eq!(strip_leading_prefix("warning:", "note: warning: b"), "note: warning: b");
    assert_eq!(strip_leading_prefix("warning:", "warning:"), "");
}

#[test]
fn debug_line_has_verbose_prefix() {
    let logger = Logger::with_level(LogContext::Volta, LevelFilter::Debug);
    let line = logger.log(Level::Debug, "volta::cache", "cache miss").unwrap();
    assert_eq!(line.stream, Stream::Stdout);
    assert_eq!(line.text, "[verbose] cache miss");
}

#[test]
fn info_and_trace_lines_are_bare() {
    let logger = Logger::with_level(LogContext::Shim, LevelFilter::Trace);
    let info = logger.log(Level::Info, "volta", "installed node").unwrap();
    assert_eq!(info.stream, Stream::Stdout);
    assert_eq!(info.text, "installed node");
    let trace = logger.log(Level::Trace, "volta", "step 3").unwrap();
    assert_eq!(trace.stream, Stream::Stdout);
    assert_eq!(trace.text, "step 3");
}

#[test]
fn second_init_is_refused() {
    let mut sink = Sink::new();
    assert!(sink.active().is_none());
    let first = Logger::init(LogContext::Volta, LogVerbosity::Verbose, None, &mut sink);
    assert_eq!(first, Ok(()));
    let second = Logger::init(LogContext::Shim, LogVerbosity::Quiet, None, &mut sink);
    assert_eq!(second, Err(SetupError::AlreadyInstalled));
    let active = sink.active().unwrap();
    assert_eq!(active.context(), LogContext::Volta);
    assert_eq!(active.level(), LevelFilter::Debug);
    let line = active.log(Level::Debug, "volta", "still here").unwrap();
    assert_eq!(line.text, "[verbose] still here");
}

#[test]
fn warning_with_multibyte_text_is_left_unwrapped() {
    let message = format!("{} café", "x".repeat(150));
    let body = wrap_to_width("warning:", &message, Some(80));
    assert_eq!(body, format!(" {}", message));
}
