use vstd::prelude::*;
use crate::text::str_eq;

verus! {

/// How much the presentation layer prints; the core only carries the choice.
#[derive(Debug, Hash, Copy, Clone, PartialEq, Eq, Structural)]
pub enum LoggingMode {
    Terminal,
    Full,
    Quiet,
}

/// The resolved command line: which files to visit and how to report on them.
/// Parsing the command line itself is the caller's business; the core takes
/// the finished value.
#[derive(Debug, Clone)]
pub struct Arguments {
    pub logging: LoggingMode,
    pub all: bool,
    pub ignore: bool,
    pub ignore_file: Option<String>,
    pub paths: Vec<String>,
}

/// The logging mode a name on the command line stands for, if any.
pub open spec fn spec_logging_mode(name: Seq<char>) -> Option<LoggingMode> {
    if name == "terminal"@ || name == "interactive"@ || name == "default"@ {
        Some(LoggingMode::Terminal)
    } else if name == "full"@ || name == "lines"@ || name == "pipe"@ {
        Some(LoggingMode::Full)
    } else if name == "none"@ || name == "quiet"@ {
        Some(LoggingMode::Quiet)
    } else {
        None
    }
}

/// Resolves a logging-mode name from the command line.
pub fn logging_mode_of_name(name: &str) -> (r: Option<LoggingMode>)
    ensures
        r == spec_logging_mode(name@),
{
    if str_eq(name, "terminal") || str_eq(name, "interactive") || str_eq(name, "default") {
        Some(LoggingMode::Terminal)
    } else if str_eq(name, "full") || str_eq(name, "lines") || str_eq(name, "pipe") {
        Some(LoggingMode::Full)
    } else if str_eq(name, "none") || str_eq(name, "quiet") {
        Some(LoggingMode::Quiet)
    } else {
        None
    }
}

impl Default for Arguments {
    /// Terminal logging, only recent files, ignore files respected, no extra
    /// ignore file, no paths yet.
    fn default() -> (r: Self)
        ensures
            r.logging == LoggingMode::Terminal,
            !r.all,
            r.ignore,
            r.ignore_file is None,
            r.paths@ =~= Seq::<String>::empty(),
    {
        Arguments {
            logging: LoggingMode::Terminal,
            all: false,
            ignore: true,
            ignore_file: None,
            paths: Vec::new(),
        }
    }
}

} // verus!
