//! Severities of log events, display thresholds, and the policy that picks the
//! threshold from the requested verbosity, the environment and the terminal.
use vstd::prelude::*;
use crate::text::same_text;

verus! {

/// Name of the environment variable that sets the default verbosity.
pub const VOLTA_LOGLEVEL: &'static str = "VOLTA_LOGLEVEL";

/// Severity of one log event, from most to least severe.
#[derive(Clone, Copy, Debug, PartialEq, Eq, Structural)]
pub enum Level {
    Error,
    Warn,
    Info,
    Debug,
    Trace,
}

/// The least severe level that is still displayed; `Off` displays nothing.
#[derive(Clone, Copy, Debug, PartialEq, Eq, Structural)]
pub enum LevelFilter {
    Off,
    Error,
    Warn,
    Info,
    Debug,
    Trace,
}

/// Represents the level of verbosity that was requested by the user
#[derive(Clone, Copy, Debug, PartialEq, Eq, Structural)]
pub enum LogVerbosity {
    Quiet,
    Default,
    Verbose,
}

impl Level {
    /// Position in the severity order: a smaller rank is more severe.
    pub open spec fn rank(self) -> nat {
        match self {
            Level::Error => 1,
            Level::Warn => 2,
            Level::Info => 3,
            Level::Debug => 4,
            Level::Trace => 5,
        }
    }
}

impl LevelFilter {
    /// Rank of the least severe level shown; `Off` is below every level.
    pub open spec fn rank(self) -> nat {
        match self {
            LevelFilter::Off => 0,
            LevelFilter::Error => 1,
            LevelFilter::Warn => 2,
            LevelFilter::Info => 3,
            LevelFilter::Debug => 4,
            LevelFilter::Trace => 5,
        }
    }

    /// Whether events of `level` pass this threshold.
    pub open spec fn admits(self, level: Level) -> bool {
        level.rank() <= self.rank()
    }

    /// Executable form of `admits`.
    pub fn allows(&self, level: Level) -> (r: bool)
        ensures
            r == self.admits(level),
    {
        let l: u8 = match level {
            Level::Error => 1,
            Level::Warn => 2,
            Level::Info => 3,
            Level::Debug => 4,
            Level::Trace => 5,
        };
        let f: u8 = match self {
            LevelFilter::Off => 0,
            LevelFilter::Error => 1,
            LevelFilter::Warn => 2,
            LevelFilter::Info => 3,
            LevelFilter::Debug => 4,
            LevelFilter::Trace => 5,
        };
        l <= f
    }
}

/// The threshold named by an environment token; only the six exact lower-case
/// names are recognised.
pub open spec fn token_level(t: Seq<char>) -> Option<LevelFilter> {
    if t == "off"@ {
        Some(LevelFilter::Off)
    } else if t == "error"@ {
        Some(LevelFilter::Error)
    } else if t == "warn"@ {
        Some(LevelFilter::Warn)
    } else if t == "info"@ {
        Some(LevelFilter::Info)
    } else if t == "debug"@ {
        Some(LevelFilter::Debug)
    } else if t == "trace"@ {
        Some(LevelFilter::Trace)
    } else {
        None
    }
}

/// The threshold for the default verbosity: a recognised token in the
/// environment wins; otherwise `Info` on an interactive stdout, else `Error`.
pub open spec fn env_level(env: Option<Seq<char>>, stdout_is_tty: bool) -> LevelFilter {
    match env {
        Some(t) if token_level(t) is Some => token_level(t)->0,
        _ => if stdout_is_tty {
            LevelFilter::Info
        } else {
            LevelFilter::Error
        },
    }
}

/// The threshold chosen for a verbosity request.
pub open spec fn resolved(
    verbosity: LogVerbosity,
    env: Option<Seq<char>>,
    stdout_is_tty: bool,
) -> LevelFilter {
    match verbosity {
        LogVerbosity::Quiet => LevelFilter::Error,
        LogVerbosity::Default => env_level(env, stdout_is_tty),
        LogVerbosity::Verbose => LevelFilter::Debug,
    }
}

/// The view of an optional string argument.
pub open spec fn opt_view(s: Option<&str>) -> Option<Seq<char>> {
    match s {
        Some(t) => Some(t@),
        None => None,
    }
}

/// Parses an environment token into a threshold.
pub fn level_from_token(t: &str) -> (r: Option<LevelFilter>)
    ensures
        r == token_level(t@),
{
    if same_text(t, "off") {
        Some(LevelFilter::Off)
    } else if same_text(t, "error") {
        Some(LevelFilter::Error)
    } else if same_text(t, "warn") {
        Some(LevelFilter::Warn)
    } else if same_text(t, "info") {
        Some(LevelFilter::Info)
    } else if same_text(t, "debug") {
        Some(LevelFilter::Debug)
    } else if same_text(t, "trace") {
        Some(LevelFilter::Trace)
    } else {
        None
    }
}

/// The threshold for the default verbosity, given the environment variable's
/// value (if set) and whether stdout is an interactive terminal.
pub fn level_from_env_value(env: Option<&str>, stdout_is_tty: bool) -> (r: LevelFilter)
    ensures
        r == env_level(opt_view(env), stdout_is_tty),
{
    let parsed = match env {
        Some(t) => level_from_token(t),
        None => None,
    };
    match parsed {
        Some(l) => l,
        None => if stdout_is_tty {
            LevelFilter::Info
        } else {
            LevelFilter::Error
        },
    }
}

/// The threshold for a verbosity request, given the environment variable's
/// value (if set) and whether stdout is an interactive terminal.
pub fn resolve(verbosity: LogVerbosity, env: Option<&str>, stdout_is_tty: bool) -> (r: LevelFilter)
    ensures
        r == resolved(verbosity, opt_view(env), stdout_is_tty),
{
    match verbosity {
        LogVerbosity::Quiet => LevelFilter::Error,
        LogVerbosity::Default => level_from_env_value(env, stdout_is_tty),
        LogVerbosity::Verbose => LevelFilter::Debug,
    }
}

/// Relies on atty::is: whether standard output is attached to a terminal.
/// The answer depends on how the process was started, so nothing is stated.
#[verifier::external_body]
fn stdout_is_tty() -> (r: bool) {
    atty::is(atty::Stream::Stdout)
}

/// Determines the logging level from the environment variable's value: a valid
/// level name is used as it is; otherwise `Info` when stdout is a terminal and
/// `Error` when it is not, so that scripts do not see warnings.
pub fn level_from_env(env: Option<&str>) -> (r: LevelFilter)
    ensures
        r == env_level(opt_view(env), true) || r == env_level(opt_view(env), false),
        token_level_of(opt_view(env)) is Some ==> r == token_level_of(opt_view(env))->0,
{
    let tty = stdout_is_tty();
    level_from_env_value(env, tty)
}

/// The threshold named by an optional environment value, if it names one.
pub open spec fn token_level_of(env: Option<Seq<char>>) -> Option<LevelFilter> {
    match env {
        Some(t) => token_level(t),
        None => None,
    }
}

/// Each recognised environment token sets exactly its own threshold under the
/// default verbosity, whether or not stdout is a terminal.
pub proof fn lemma_env_token_decides(stdout_is_tty: bool)
    ensures
        resolved(LogVerbosity::Default, Some("off"@), stdout_is_tty) == LevelFilter::Off,
        resolved(LogVerbosity::Default, Some("error"@), stdout_is_tty) == LevelFilter::Error,
        resolved(LogVerbosity::Default, Some("warn"@), stdout_is_tty) == LevelFilter::Warn,
        resolved(LogVerbosity::Default, Some("info"@), stdout_is_tty) == LevelFilter::Info,
        resolved(LogVerbosity::Default, Some("debug"@), stdout_is_tty) == LevelFilter::Debug,
        resolved(LogVerbosity::Default, Some("trace"@), stdout_is_tty) == LevelFilter::Trace,
{
    reveal_strlit("off");
    reveal_strlit("error");
    reveal_strlit("warn");
    reveal_strlit("info");
    reveal_strlit("debug");
    reveal_strlit("trace");
    assert("off"@.len() == 3 && "error"@.len() == 5 && "warn"@.len() == 4);
    assert("info"@.len() == 4 && "debug"@.len() == 5 && "trace"@.len() == 5);
    assert("warn"@[0] != "info"@[0]);
    assert("error"@[0] != "debug"@[0] && "error"@[0] != "trace"@[0]);
    assert("debug"@[0] != "trace"@[0]);
}

/// A quiet request always shows errors only, and a verbose request always shows
/// everything down to debug, whatever the environment and the terminal.
pub proof fn lemma_explicit_request_wins(env: Option<Seq<char>>, stdout_is_tty: bool)
    ensures
        resolved(LogVerbosity::Quiet, env, stdout_is_tty) == LevelFilter::Error,
        resolved(LogVerbosity::Verbose, env, stdout_is_tty) == LevelFilter::Debug,
{
}

/// Without a recognised token the default verbosity shows info on an
/// interactive stdout and errors only otherwise.
pub proof fn lemma_default_follows_terminal(env: Option<Seq<char>>)
    requires
        token_level_of(env) is None,
    ensures
        resolved(LogVerbosity::Default, env, true) == LevelFilter::Info,
        resolved(LogVerbosity::Default, env, false) == LevelFilter::Error,
{
}

/// If a severity passes a threshold, every severity at least as severe passes
/// it too.
pub proof fn lemma_admits_monotonic(threshold: LevelFilter, s1: Level, s2: Level)
    requires
        threshold.admits(s1),
        s2.rank() <= s1.rank(),
    ensures
        threshold.admits(s2),
{
}

} // verus!
