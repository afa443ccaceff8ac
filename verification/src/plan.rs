//! What one run of the program logs and prints, decided from its
//! configuration alone. The caller does the logging and the printing.

use vstd::prelude::*;
use vstd::string::*;

use crate::config::Config;
use crate::error::Error;
use crate::example_function;
use crate::greeting;

verus! {

/// How detailed a log line is. `Debug` lines are the more detailed ones.
#[derive(Clone, Copy, Debug, PartialEq, Eq, Structural)]
pub enum Level {
    /// Detail for whoever investigates a run.
    Debug,
    /// What every run reports.
    Info,
}

/// One line for the log.
#[derive(Clone, Debug, PartialEq, Eq)]
pub struct LogLine {
    /// The level at which the line is logged.
    pub level: Level,
    /// The text of the line.
    pub message: String,
}

impl View for LogLine {
    type V = (Level, Seq<char>);

    open spec fn view(&self) -> (Level, Seq<char>) {
        (self.level, self.message@)
    }
}

/// What a run logs and prints.
#[derive(Clone, Debug, PartialEq, Eq)]
pub struct Report {
    /// The log lines, in the order in which they are logged.
    pub log: Vec<LogLine>,
    /// The line that is printed to standard output, without its line end.
    pub output: String,
}

/// The most detailed level that the log shows: `Debug` for a verbose run,
/// `Info` otherwise.
pub open spec fn max_level_of(verbose: bool) -> Level {
    if verbose {
        Level::Debug
    } else {
        Level::Info
    }
}

/// The line that opens every run's log.
pub open spec fn start_line() -> (Level, Seq<char>) {
    (Level::Info, "Starting application"@)
}

/// The line that a verbose run adds.
pub open spec fn verbose_line() -> (Level, Seq<char>) {
    (Level::Debug, "Verbose logging enabled"@)
}

/// The line that reports the configuration file at `path`.
pub open spec fn config_line(path: Seq<char>) -> (Level, Seq<char>) {
    (Level::Info, "Using config file: "@ + path)
}

/// The log of a run under `config`: the opening line, then the verbose line
/// if the run is verbose, then the configuration file's line if one was named.
pub open spec fn planned_log(config: Config) -> Seq<(Level, Seq<char>)> {
    seq![start_line()] + (if config.verbose {
        seq![verbose_line()]
    } else {
        Seq::empty()
    }) + (match config.config_path {
        Some(path) => seq![config_line(path@)],
        None => Seq::empty(),
    })
}

impl Report {
    /// The log as plain values, line by line.
    pub open spec fn log_view(&self) -> Seq<(Level, Seq<char>)> {
        self.log@.map_values(|line: LogLine| line@)
    }

    /// The characters that reach standard output: the output line and a line
    /// feed.
    pub open spec fn printed(&self) -> Seq<char> {
        self.output@ + seq!['\n']
    }

    /// The text to write to standard output, line end included.
    pub fn printed_text(&self) -> (text: String)
        ensures
            text@ == self.printed(),
    {
        let mut text = self.output.clone();
        proof {
            reveal_strlit("\n");
            assert("\n"@ == seq!['\n']);
        }
        text.append("\n");
        text
    }
}

/// Chooses the most detailed level that the log shows.
pub fn max_level(verbose: bool) -> (level: Level)
    ensures
        level == max_level_of(verbose),
{
    if verbose {
        Level::Debug
    } else {
        Level::Info
    }
}

/// Plans one run: decides the log lines, calls [`example_function`] and
/// hands its text on as the line to print.
///
/// The run succeeds under every configuration. Its output is the greeting, and
/// its log is [`planned_log`] of the configuration. A configuration file that
/// was named is reported by its path and never opened.
pub fn run(config: &Config) -> (result: Result<Report, Error>)
    ensures
        result is Ok,
        result->Ok_0.output@ == greeting(),
        result->Ok_0.log_view() == planned_log(*config),
{
    let mut log: Vec<LogLine> = Vec::new();
    log.push(LogLine { level: Level::Info, message: String::from_str("Starting application") });
    if config.verbose {
        log.push(
            LogLine { level: Level::Debug, message: String::from_str("Verbose logging enabled") },
        );
    }
    match &config.config_path {
        Some(path) => {
            let mut message = String::from_str("Using config file: ");
            message.append(path.as_str());
            log.push(LogLine { level: Level::Info, message });
        },
        None => {},
    }
    match example_function() {
        Ok(output) => {
            let report = Report { log, output };
            assert(report.log_view() =~= planned_log(*config));
            Ok(report)
        },
        Err(error) => Err(error),
    }
}

/// A verbose run logs at least one `Debug` line, and a run that is not
/// verbose logs none: every line of the plan is shown at the level that
/// [`max_level_of`] chooses.
pub proof fn lemma_debug_lines_iff_verbose(config: Config)
    ensures
        config.verbose <==> exists|i: int|
            0 <= i < planned_log(config).len() && (#[trigger] planned_log(config)[i]).0
                == Level::Debug,
        forall|i: int|
            0 <= i < planned_log(config).len() && (#[trigger] planned_log(config)[i]).0
                == Level::Debug ==> max_level_of(config.verbose) == Level::Debug,
{
    let log = planned_log(config);
    assert(log[0] == start_line());
    if config.verbose {
        assert(log[1] == verbose_line());
    } else {
        assert forall|i: int| 0 <= i < log.len() implies (#[trigger] log[i]).0 != Level::Debug by {
            if i == 1 {
                assert(config.config_path is Some);
                assert(log[1] == config_line(config.config_path->Some_0@));
            }
        }
    }
}

/// Every log opens with the start line. A run that was given a
/// configuration file reports its path in the last line of the log, at
/// `Info`, which makes the log one line longer than that of the same run
/// without a file: one or two lines without, two or three with, the larger
/// number for a verbose run.
pub proof fn lemma_config_path_is_reported(config: Config)
    ensures
        config.config_path matches Some(path) ==> planned_log(config).last() == config_line(
            path@,
        ),
        config.config_path is None ==> planned_log(config).len() == (if config.verbose {
            2nat
        } else {
            1nat
        }),
        config.config_path is Some ==> planned_log(config).len() == (if config.verbose {
            3nat
        } else {
            2nat
        }),
        planned_log(config)[0] == start_line(),
{
}

} // verus!
