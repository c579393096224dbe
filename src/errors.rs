//! Every error of an invocation, by where it arose.

use vstd::prelude::*;
use crate::cli::CliError;
use crate::diagnostics::ConfigError;
use crate::docker::DockerError;

verus! {

/// An error of the command line, of the configuration, or of the runtime.
#[derive(Clone, Debug)]
pub enum AppError {
    Docker(DockerError),
    Cli(CliError),
    Configuration(ConfigError),
}

} // verus!
