//! Severity levels and the threshold that a sink compares them with.

use vstd::prelude::*;

verus! {

/// How important an event is. `Trace` is the most verbose level, `Error` the
/// least verbose.
#[derive(Clone, Copy, Debug, PartialEq, Eq, Structural, Hash)]
pub enum Level {
    Trace,
    Debug,
    Info,
    Warn,
    Error,
}

/// The most verbose level that a sink still records. `Off` records nothing,
/// `Trace` records everything.
#[derive(Clone, Copy, Debug, PartialEq, Eq, Structural, Hash)]
pub enum LevelFilter {
    Off,
    Error,
    Warn,
    Info,
    Debug,
    Trace,
}

/// What `tracing::Level`'s `FromStr` impl makes of a text that is none of
/// the five names under which levels are stored: the level it parses to, or
/// `None` where it rejects the text.
pub uninterp spec fn level_of_other_text(text: Seq<char>) -> Option<Level>;

/// The level that a text is the stored name of, if it is one.
pub open spec fn level_named(text: Seq<char>) -> Option<Level> {
    if text == Level::Trace.spec_as_str() {
        Some(Level::Trace)
    } else if text == Level::Debug.spec_as_str() {
        Some(Level::Debug)
    } else if text == Level::Info.spec_as_str() {
        Some(Level::Info)
    } else if text == Level::Warn.spec_as_str() {
        Some(Level::Warn)
    } else if text == Level::Error.spec_as_str() {
        Some(Level::Error)
    } else {
        None
    }
}

/// What a text reads as: a stored name reads as its level, any other text as
/// `tracing::Level`'s `FromStr` impl has it.
pub open spec fn level_of_text(text: Seq<char>) -> Option<Level> {
    match level_named(text) {
        Some(level) => Some(level),
        None => level_of_other_text(text),
    }
}

/// The name under which a level is stored reads back as that level.
pub proof fn lemma_level_name_reads_back(level: Level)
    ensures
        level_of_text(level.spec_as_str()) == Some(level),
{
    reveal_strlit("TRACE");
    reveal_strlit("DEBUG");
    reveal_strlit("INFO");
    reveal_strlit("WARN");
    reveal_strlit("ERROR");
    // No two names begin with the same letter.
    assert("TRACE"@[0] == 'T');
    assert("DEBUG"@[0] == 'D');
    assert("INFO"@[0] == 'I');
    assert("WARN"@[0] == 'W');
    assert("ERROR"@[0] == 'E');
}

/// Calls `tracing::Level::as_str`, which gives the upper-case name of each of
/// the five levels.
#[verifier::external_body]
fn tracing_level_name(level: Level) -> (name: &'static str)
    ensures
        name@ == level.spec_as_str(),
{
    let outside = match level {
        Level::Trace => tracing::Level::TRACE,
        Level::Debug => tracing::Level::DEBUG,
        Level::Info => tracing::Level::INFO,
        Level::Warn => tracing::Level::WARN,
        Level::Error => tracing::Level::ERROR,
    };
    outside.as_str()
}

/// Calls the `FromStr` impl of `tracing::Level`. It accepts the five level
/// names in any letter case and the numbers 1 to 5, and fails on other text;
/// so it reads each of the upper-case names as its level, which is all that
/// is claimed of it beyond that its answer goes by the text alone.
#[verifier::external_body]
fn tracing_parse_level(text: &str) -> (level: Option<Level>)
    ensures
        match level_named(text@) {
            Some(named) => level == Some(named),
            None => level == level_of_other_text(text@),
        },
{
    match text.parse::<tracing::Level>() {
        Ok(tracing::Level::TRACE) => Some(Level::Trace),
        Ok(tracing::Level::DEBUG) => Some(Level::Debug),
        Ok(tracing::Level::INFO) => Some(Level::Info),
        Ok(tracing::Level::WARN) => Some(Level::Warn),
        Ok(tracing::Level::ERROR) => Some(Level::Error),
        Err(_) => None,
    }
}

impl Level {
    /// Position on the verbosity scale: 1 for `Error` up to 5 for `Trace`.
    pub open spec fn verbosity(self) -> nat {
        match self {
            Level::Error => 1,
            Level::Warn => 2,
            Level::Info => 3,
            Level::Debug => 4,
            Level::Trace => 5,
        }
    }

    /// The name under which a level is stored.
    pub open spec fn spec_as_str(self) -> Seq<char> {
        match self {
            Level::Trace => "TRACE"@,
            Level::Debug => "DEBUG"@,
            Level::Info => "INFO"@,
            Level::Warn => "WARN"@,
            Level::Error => "ERROR"@,
        }
    }

    /// The name under which a level is stored: `"TRACE"`, `"DEBUG"`, `"INFO"`,
    /// `"WARN"` or `"ERROR"`.
    pub fn as_str(&self) -> (name: &'static str)
        ensures
            name@ == self.spec_as_str(),
    {
        tracing_level_name(*self)
    }

    /// Reads a level from text. Every stored name reads back as its level.
    pub fn parse(text: &str) -> (level: Option<Level>)
        ensures
            level == level_of_text(text@),
            forall|l: Level| text@ == l.spec_as_str() ==> level == Some(l),
    {
        proof {
            assert forall|l: Level| text@ == l.spec_as_str() implies level_of_text(text@) == Some(
                l,
            ) by {
                lemma_level_name_reads_back(l);
            }
        }
        tracing_parse_level(text)
    }
}

impl LevelFilter {
    /// Position on the verbosity scale: 0 for `Off`, then as for [`Level`].
    pub open spec fn verbosity(self) -> nat {
        match self {
            LevelFilter::Off => 0,
            LevelFilter::Error => 1,
            LevelFilter::Warn => 2,
            LevelFilter::Info => 3,
            LevelFilter::Debug => 4,
            LevelFilter::Trace => 5,
        }
    }

    /// Whether an event of the given level is at most as verbose as this
    /// threshold.
    pub open spec fn spec_allows(self, level: Level) -> bool {
        level.verbosity() <= self.verbosity()
    }

    /// Whether an event of the given level is at most as verbose as this
    /// threshold.
    pub fn allows(&self, level: Level) -> (allowed: bool)
        ensures
            allowed == self.spec_allows(level),
    {
        match self {
            LevelFilter::Off => false,
            LevelFilter::Error => match level {
                Level::Error => true,
                _ => false,
            },
            LevelFilter::Warn => match level {
                Level::Error | Level::Warn => true,
                _ => false,
            },
            LevelFilter::Info => match level {
                Level::Error | Level::Warn | Level::Info => true,
                _ => false,
            },
            LevelFilter::Debug => match level {
                Level::Trace => false,
                _ => true,
            },
            LevelFilter::Trace => true,
        }
    }
}

} // verus!
