//! The logger of the command line tools: which records it lets through, and how a record
//! looks on the terminal.
//!
//! A record is drawn as a small frame: the level's name in the level's colour, then the
//! message, every line of it behind a bar, then a closing corner.
//!
//! ```text
//! INFO╶╮
//!      │first line
//!      │second line
//!     ╶╯
//! ```

use vstd::prelude::*;
use vstd::string::StringExecFns;

verus! {

/// The level of a record, from the gravest to the most talkative.
#[derive(Clone, Copy, PartialEq, Eq, Debug, Structural)]
pub enum Level {
    Error,
    Warn,
    Info,
    Debug,
    Trace,
}

impl Level {
    /// The place of the level, the gravest first.
    pub open spec fn spec_rank(self) -> int {
        match self {
            Level::Error => 1,
            Level::Warn => 2,
            Level::Info => 3,
            Level::Debug => 4,
            Level::Trace => 5,
        }
    }

    /// The name of the level, in capitals.
    pub open spec fn spec_name(self) -> Seq<char> {
        match self {
            Level::Error => "ERROR"@,
            Level::Warn => "WARN"@,
            Level::Info => "INFO"@,
            Level::Debug => "DEBUG"@,
            Level::Trace => "TRACE"@,
        }
    }

    /// The escape sequence that sets the level's colour.
    pub open spec fn spec_color(self) -> Seq<char> {
        match self {
            Level::Error => "\x1b[0;31m"@,
            Level::Warn => "\x1b[0;33m"@,
            Level::Info => "\x1b[0;34m"@,
            Level::Debug => "\x1b[0;37m"@,
            Level::Trace => "\x1b[0;35m"@,
        }
    }

    /// As many spaces as the level's name has letters: what stands before the bar.
    pub open spec fn spec_indentation(self) -> Seq<char> {
        match self {
            Level::Warn | Level::Info => "    "@,
            _ => "     "@,
        }
    }

    /// The place of the level, the gravest first.
    pub fn rank(self) -> (rank: u8)
        ensures
            rank == self.spec_rank(),
    {
        match self {
            Level::Error => 1,
            Level::Warn => 2,
            Level::Info => 3,
            Level::Debug => 4,
            Level::Trace => 5,
        }
    }

    /// The name of the level, in capitals.
    pub fn name(self) -> (name: &'static str)
        ensures
            name@ == self.spec_name(),
    {
        match self {
            Level::Error => "ERROR",
            Level::Warn => "WARN",
            Level::Info => "INFO",
            Level::Debug => "DEBUG",
            Level::Trace => "TRACE",
        }
    }

    /// The escape sequence that sets the level's colour.
    pub fn color(self) -> (color: &'static str)
        ensures
            color@ == self.spec_color(),
    {
        match self {
            Level::Error => "\x1b[0;31m",
            Level::Warn => "\x1b[0;33m",
            Level::Info => "\x1b[0;34m",
            Level::Debug => "\x1b[0;37m",
            Level::Trace => "\x1b[0;35m",
        }
    }

    /// The spaces that stand before the bar.
    pub fn indentation(self) -> (indentation: &'static str)
        ensures
            indentation@ == self.spec_indentation(),
    {
        match self {
            Level::Warn | Level::Info => "    ",
            _ => "     ",
        }
    }
}

/// `message` with the start of a new framed line behind each of its line feeds.
pub open spec fn continued(message: Seq<char>, indentation: Seq<char>) -> Seq<char>
    decreases message.len(),
{
    if message.len() == 0 {
        message
    } else {
        let head = continued(message.drop_last(), indentation);
        if message.last() == '\n' {
            head + "\n"@ + indentation + " \u{2502}"@
        } else {
            head.push(message.last())
        }
    }
}

/// A record as it is written to the terminal.
pub open spec fn rendered(level: Level, message: Seq<char>) -> Seq<char> {
    level.spec_color() + level.spec_name() + "\u{2576}\u{256e}\n"@ + level.spec_indentation()
        + " \u{2502}"@ + continued(message, level.spec_indentation()) + "\n"@
        + level.spec_indentation() + "\u{2576}\u{256f}"@ + "\x1b[0m"@
}

/// Draws a record.
pub fn render(level: Level, message: &str) -> (text: String)
    ensures
        text@ == rendered(level, message@),
{
    let indentation = level.indentation();
    let mut text = String::new();
    text.append(level.color());
    text.append(level.name());
    text.append("\u{2576}\u{256e}\n");
    text.append(indentation);
    text.append(" \u{2502}");
    let ghost head = text@;
    assert(head =~= level.spec_color() + level.spec_name() + "\u{2576}\u{256e}\n"@
        + level.spec_indentation() + " \u{2502}"@);
    assert(message@.take(0) =~= Seq::<char>::empty());
    for c in it: message.chars()
        invariant
            it.seq() == message@,
            indentation@ == level.spec_indentation(),
            text@ == head + continued(message@.take(it.index()), indentation@),
    {
        let ghost n = it.index();
        let ghost body = continued(message@.take(n), indentation@);
        proof {
            assert(message@.take(n + 1).drop_last() =~= message@.take(n));
            assert(message@.take(n + 1).last() == c);
        }
        if c == '\n' {
            text.append("\n");
            text.append(indentation);
            text.append(" \u{2502}");
            assert(text@ =~= head + (body + "\n"@ + indentation@ + " \u{2502}"@));
        } else {
            text.push(c);
            assert(text@ =~= head + body.push(c));
        }
    }
    assert(message@.take(message@.len() as int) =~= message@);
    let ghost framed = text@;
    text.append("\n");
    text.append(indentation);
    text.append("\u{2576}\u{256f}");
    text.append("\x1b[0m");
    assert(text@ =~= rendered(level, message@));
    text
}

/// A logger that lets through the records of its level and of every graver one.
#[derive(Clone, Copy, Debug)]
pub struct Logger {
    /// The most talkative level that is let through.
    pub max_level: Level,
}

impl Logger {
    /// Whether a record of `level` is let through.
    pub open spec fn spec_enabled(&self, level: Level) -> bool {
        level.spec_rank() <= self.max_level.spec_rank()
    }

    /// Whether a record of `level` is let through.
    #[verifier::when_used_as_spec(spec_enabled)]
    pub fn enabled(&self, level: Level) -> (enabled: bool)
        ensures
            enabled == self.spec_enabled(level),
    {
        level.rank() <= self.max_level.rank()
    }

    /// The text to write for a record, or nothing where the record is not let through.
    pub fn log(&self, level: Level, message: &str) -> (text: Option<String>)
        ensures
            match text {
                Some(text) => self.spec_enabled(level) && text@ == rendered(level, message@),
                None => !self.spec_enabled(level),
            },
    {
        if self.enabled(level) {
            Some(render(level, message))
        } else {
            None
        }
    }

    /// Nothing is held back, so there is nothing to flush.
    pub fn flush(&self) {
    }
}

/// The logger of the tools: it lets through `Info` and what is graver.
pub fn init() -> (logger: Logger)
    ensures
        logger.max_level == Level::Info,
        forall|level: Level|
            logger.spec_enabled(level) <==> (level == Level::Error || level == Level::Warn
                || level == Level::Info),
{
    Logger { max_level: Level::Info }
}

} // verus!
