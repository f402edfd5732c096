//! The parsed command line, as plain data. The surrounding binary parses the
//! actual arguments and hands over a value of this shape.

use vstd::prelude::*;

verus! {

/// The subcommand to perform.
#[derive(Debug)]
pub enum Command {
    /// Show the loaded configuration.
    Config {
        /// Reduce the displayed information.
        minimal: bool,
    },
    /// Run a target.
    Run {
        /// Keep re-running the target whenever a watched file changes.
        watch: bool,
        /// Name of the target to run; without one, the available targets are
        /// listed and the invocation fails as a usage error.
        target_name: Option<String>,
        /// Extra arguments appended to the target's own.
        extra_args: Vec<String>,
    },
}

/// The whole invocation.
#[derive(Debug)]
pub struct Args {
    /// Use the user's global configuration directory instead of searching.
    pub use_global_config: bool,
    /// Search for the configuration from this directory instead of the
    /// current one.
    pub custom_path: Option<String>,
    /// A custom configuration file name; must be a bare file name.
    pub custom_filename: Option<String>,
    /// Log at debug level rather than info level.
    pub verbose_logging: bool,
    /// What to do.
    pub command: Command,
}

} // verus!
