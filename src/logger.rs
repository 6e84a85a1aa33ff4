//! The logger: which events are eligible, how each severity is rendered, and
//! the one-time installation of the process-wide sink.
use vstd::prelude::*;
use crate::level::{
    level_from_env, opt_view, resolved, token_level_of, Level, LevelFilter, LogVerbosity,
};
use crate::style::{red_bold, style_red_bold, style_yellow_bold, yellow_bold};
use crate::text::{begins_with, joined};
use crate::wrap::{wrap_body, wrap_content};

verus! {

pub const ERROR_PREFIX: &'static str = "error:";

pub const WARNING_PREFIX: &'static str = "warning:";

pub const SHIM_ERROR_PREFIX: &'static str = "Volta error:";

pub const SHIM_WARNING_PREFIX: &'static str = "Volta warning:";

/// Prefix of debug lines.
pub const VERBOSE_PREFIX: &'static str = "[verbose] ";

/// Source tags of the tool's own events start with this; others are dropped.
pub const ALLOWED_PREFIX: &'static str = "volta";

/// Represents the context from which the logger was created
#[derive(Clone, Copy, Debug, PartialEq, Eq, Structural)]
pub enum LogContext {
    /// Log messages from the `volta` executable
    Volta,
    /// Log messages from one of the shims
    Shim,
}

/// The stream a rendered line is written to.
#[derive(Clone, Copy, Debug, PartialEq, Eq, Structural)]
pub enum Stream {
    Stdout,
    Stderr,
}

/// A rendered line and the stream it belongs on (the newline is not included).
#[derive(Debug)]
pub struct Line {
    pub stream: Stream,
    pub text: String,
}

/// Error reported when a sink has already been installed.
#[derive(Clone, Copy, Debug, PartialEq, Eq, Structural)]
pub enum SetupError {
    AlreadyInstalled,
}

/// What a logger is: the context it renders for and its fixed threshold.
pub struct LoggerView {
    pub context: LogContext,
    pub level: LevelFilter,
}

/// Renders the tool's log events; its context and threshold are fixed when it
/// is built.
#[derive(Clone, Copy, Debug, PartialEq, Eq, Structural)]
pub struct Logger {
    context: LogContext,
    level: LevelFilter,
}

impl View for Logger {
    type V = LoggerView;

    closed spec fn view(&self) -> LoggerView {
        LoggerView { context: self.context, level: self.level }
    }
}

/// The error label for a context.
pub open spec fn error_label(c: LogContext) -> Seq<char> {
    match c {
        LogContext::Volta => ERROR_PREFIX@,
        LogContext::Shim => SHIM_ERROR_PREFIX@,
    }
}

/// The warning label for a context.
pub open spec fn warning_label(c: LogContext) -> Seq<char> {
    match c {
        LogContext::Volta => WARNING_PREFIX@,
        LogContext::Shim => SHIM_WARNING_PREFIX@,
    }
}

/// An error line: the label, plain or in bold red, a space and the message.
pub open spec fn is_error_text(c: LogContext, msg: Seq<char>, text: Seq<char>) -> bool {
    text == error_label(c) + seq![' '] + msg || text == red_bold(error_label(c)) + seq![' '] + msg
}

/// A warning line: the label, plain or in bold yellow, then the message wrapped
/// after the unstyled label, at the terminal's width or, with none, unwrapped.
pub open spec fn is_warning_text(c: LogContext, msg: Seq<char>, text: Seq<char>) -> bool {
    exists|w: Option<usize>|
        #![trigger wrap_body(warning_label(c), msg, w)]
        text == warning_label(c) + wrap_body(warning_label(c), msg, w) || text == yellow_bold(
            warning_label(c),
        ) + wrap_body(warning_label(c), msg, w)
}

/// Whether an event of `level` from source `target` is shown by `l`.
pub open spec fn eligible(l: LoggerView, level: Level, target: Seq<char>) -> bool {
    l.level.admits(level) && ALLOWED_PREFIX@.is_prefix_of(target)
}

/// How an eligible event of `level` with message `msg` is rendered under `c`.
pub open spec fn rendered_as(c: LogContext, level: Level, msg: Seq<char>, line: Line) -> bool {
    match level {
        Level::Error => line.stream == Stream::Stderr && is_error_text(c, msg, line.text@),
        Level::Warn => line.stream == Stream::Stdout && is_warning_text(c, msg, line.text@),
        Level::Debug => line.stream == Stream::Stdout && line.text@ == VERBOSE_PREFIX@ + msg,
        _ => line.stream == Stream::Stdout && line.text@ == msg,
    }
}

impl Logger {
    /// Builds a logger for `context` with the threshold for `verbosity`; `env`
    /// is the value of the level environment variable, if it is set.
    pub fn new(context: LogContext, verbosity: LogVerbosity, env: Option<&str>) -> (r: Logger)
        ensures
            r@.context == context,
            r@.level == resolved(verbosity, opt_view(env), true) || r@.level == resolved(
                verbosity,
                opt_view(env),
                false,
            ),
            verbosity != LogVerbosity::Default || token_level_of(opt_view(env)) is Some
                ==> r@.level == resolved(verbosity, opt_view(env), false),
    {
        let level = match verbosity {
            LogVerbosity::Quiet => LevelFilter::Error,
            LogVerbosity::Default => level_from_env(env),
            LogVerbosity::Verbose => LevelFilter::Debug,
        };
        Logger { context, level }
    }

    /// A logger with the given context and threshold.
    pub fn with_level(context: LogContext, level: LevelFilter) -> (r: Logger)
        ensures
            r@.context == context,
            r@.level == level,
    {
        Logger { context, level }
    }

    pub fn context(&self) -> (r: LogContext)
        ensures
            r == self@.context,
    {
        self.context
    }

    pub fn level(&self) -> (r: LevelFilter)
        ensures
            r == self@.level,
    {
        self.level
    }

    /// Whether events of `level` pass this logger's threshold.
    pub fn enabled(&self, level: Level) -> (r: bool)
        ensures
            r == self@.level.admits(level),
    {
        self.level.allows(level)
    }

    /// Renders an event, or returns `None` when it is not shown: its severity
    /// is below the threshold or its source is not one of the tool's own.
    pub fn log(&self, level: Level, target: &str, message: &str) -> (r: Option<Line>)
        ensures
            r is Some <==> eligible(self@, level, target@),
            r matches Some(line) ==> rendered_as(self@.context, level, message@, line),
    {
        if self.enabled(level) && begins_with(target, ALLOWED_PREFIX) {
            let line = match level {
                Level::Error => Line { stream: Stream::Stderr, text: self.log_error(message) },
                Level::Warn => Line { stream: Stream::Stdout, text: self.log_warning(message) },
                Level::Debug => Line {
                    stream: Stream::Stdout,
                    text: joined(VERBOSE_PREFIX, message),
                },
                _ => Line { stream: Stream::Stdout, text: String::from_str(message) },
            };
            Some(line)
        } else {
            None
        }
    }

    /// The error line for `message`.
    pub fn log_error(&self, message: &str) -> (r: String)
        ensures
            is_error_text(self@.context, message@, r@),
    {
        let prefix = match self.context {
            LogContext::Volta => ERROR_PREFIX,
            LogContext::Shim => SHIM_ERROR_PREFIX,
        };
        let styled = style_red_bold(prefix);
        let head = joined(styled.as_str(), " ");
        proof {
            reveal_strlit(" ");
        }
        assert(prefix@ == error_label(self@.context));
        let r = joined(head.as_str(), message);
        assert(r@ == styled@ + seq![' '] + message@);
        r
    }

    /// The warning line for `message`, wrapped to the terminal when there is one.
    pub fn log_warning(&self, message: &str) -> (r: String)
        ensures
            is_warning_text(self@.context, message@, r@),
    {
        let prefix = match self.context {
            LogContext::Volta => WARNING_PREFIX,
            LogContext::Shim => SHIM_WARNING_PREFIX,
        };
        let styled = style_yellow_bold(prefix);
        let body = wrap_content(prefix, message);
        let r = joined(styled.as_str(), body.as_str());
        proof {
            let label = warning_label(self@.context);
            assert(prefix@ == label);
            if body@ == wrap_body(label, message@, None) {
                let w: Option<usize> = None;
                assert(r@ == styled@ + wrap_body(label, message@, w));
            } else {
                let n = choose|n: usize| body@ == wrap_body(label, message@, Some(n));
                let w: Option<usize> = Some(n);
                assert(r@ == styled@ + wrap_body(label, message@, w));
            }
        }
        r
    }
}

/// The process-wide slot for the one active logger.
#[derive(Clone, Copy, Debug)]
pub struct Sink {
    logger: Option<Logger>,
}

impl View for Sink {
    type V = Option<LoggerView>;

    closed spec fn view(&self) -> Option<LoggerView> {
        match self.logger {
            Some(l) => Some(l@),
            None => None,
        }
    }
}

impl Sink {
    /// An empty slot.
    pub fn new() -> (r: Sink)
        ensures
            r@ is None,
    {
        Sink { logger: None }
    }

    /// The installed logger, if any.
    pub fn active(&self) -> (r: Option<Logger>)
        ensures
            r is Some <==> self@ is Some,
            r matches Some(l) ==> self@ == Some(l@),
    {
        self.logger
    }
}

/// The outcome of one `init` on a slot that held `before`: a second install
/// is refused and leaves the slot as it was; a first one installs a logger for
/// `context` with the threshold that `verbosity` resolves to.
pub open spec fn init_outcome(
    before: Option<LoggerView>,
    after: Option<LoggerView>,
    r: Result<(), SetupError>,
    context: LogContext,
    verbosity: LogVerbosity,
    env: Option<Seq<char>>,
) -> bool {
    match before {
        Some(_) => r == Err::<(), SetupError>(SetupError::AlreadyInstalled) && after == before,
        None => r is Ok && (after matches Some(l) && l.context == context && (l.level == resolved(
            verbosity,
            env,
            true,
        ) || l.level == resolved(verbosity, env, false))),
    }
}

impl Logger {
    /// Initialize the process-wide logger with a Logger instance.
    /// Will use the requested level of verbosity; if that is `Default`, the
    /// environment value `env` and the terminal decide it.
    pub fn init(context: LogContext, verbosity: LogVerbosity, env: Option<&str>, sink: &mut Sink) -> (r:
        Result<(), SetupError>)
        ensures
            init_outcome(old(sink)@, final(sink)@, r, context, verbosity, opt_view(env)),
    {
        if sink.logger.is_some() {
            return Err(SetupError::AlreadyInstalled);
        }
        let logger = Logger::new(context, verbosity, env);
        sink.logger = Some(logger);
        Ok(())
    }
}

/// Events whose source does not start with the tool's namespace are never
/// shown, whatever the threshold and the severity.
pub proof fn lemma_foreign_source_dropped(l: LoggerView, level: Level, target: Seq<char>)
    requires
        !ALLOWED_PREFIX@.is_prefix_of(target),
    ensures
        !eligible(l, level, target),
{
}

/// A second `init` in the same process is refused, and the logger that the
/// first one installed stays in place.
pub proof fn lemma_second_init_refused(
    s0: Option<LoggerView>,
    s1: Option<LoggerView>,
    s2: Option<LoggerView>,
    r1: Result<(), SetupError>,
    r2: Result<(), SetupError>,
    c1: LogContext,
    v1: LogVerbosity,
    e1: Option<Seq<char>>,
    c2: LogContext,
    v2: LogVerbosity,
    e2: Option<Seq<char>>,
)
    requires
        init_outcome(s0, s1, r1, c1, v1, e1),
        init_outcome(s1, s2, r2, c2, v2, e2),
    ensures
        s1 is Some,
        r2 == Err::<(), SetupError>(SetupError::AlreadyInstalled),
        s2 == s1,
{
}

} // verus!
