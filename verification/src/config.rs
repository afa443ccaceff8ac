//! The configuration of one run, as the command line gives it.

use vstd::prelude::*;

verus! {

/// The command-line arguments after parsing: a flag that is absent reads
/// `false`, an option that is absent reads `None`.
#[derive(Clone, Debug, PartialEq, Eq)]
pub struct CliArgs {
    /// Whether verbose logging was asked for.
    pub verbose: bool,
    /// The path of a configuration file, where one was named.
    pub config: Option<String>,
}

/// The configuration of one run. It is made once and read from then on.
#[derive(Clone, Debug, PartialEq, Eq)]
pub struct Config {
    /// Whether verbose logging is on.
    pub verbose: bool,
    /// The path of the configuration file, where one was named. The path is
    /// only reported: nothing opens it.
    pub config_path: Option<String>,
}

impl Config {
    /// Makes the configuration from the parsed arguments, field by field.
    pub fn from_cli_args(args: CliArgs) -> (config: Config)
        ensures
            config.verbose == args.verbose,
            config.config_path == args.config,
    {
        Config { verbose: args.verbose, config_path: args.config }
    }
}

} // verus!
