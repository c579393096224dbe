//! What one invocation asks for: which environment, from which file, and
//! what to do with it.

use vstd::prelude::*;
use crate::paths::{join, join_path};

verus! {

/// What to do with the resolved environment.
#[derive(Clone, Copy, Debug, PartialEq, Eq, Structural)]
pub enum Action {
    /// Create or start the container and enter it.
    Up,
    /// Build the image and create the container, then stop it.
    Build,
    /// Print the resolved environment.
    View,
}

impl Action {
    /// The action that the `--view` and `--build` flags select: at most one
    /// of them may be given, and neither means `Up`.
    pub fn from_flags(view: bool, build: bool) -> (r: Option<Action>)
        ensures
            r == (if view && build {
                None
            } else if view {
                Some(Action::View)
            } else if build {
                Some(Action::Build)
            } else {
                Some(Action::Up)
            }),
    {
        if view && build {
            None
        } else if view {
            Some(Action::View)
        } else if build {
            Some(Action::Build)
        } else {
            Some(Action::Up)
        }
    }
}

/// One invocation's request.
#[derive(Clone, Debug)]
pub struct AppConfig {
    pub config_path: String,
    pub action: Action,
    pub cleanup: bool,
    pub environment: String,
}

/// Why no configuration file was found.
#[derive(Clone, Debug)]
pub enum CliError {
    /// The arguments could not be read.
    BadInput(String),
    /// The file given on the command line is not an existing file.
    NoConfigAtProvidedPath(String),
    /// Neither standard location holds a configuration file.
    NoConfigInStandardLocation,
}

/// Where a configuration file stands under a base directory:
/// `<base>/.config/berth/config.toml`.
pub open spec fn standard_config_path(base: Seq<char>) -> Seq<char> {
    join_path(base, ".config/berth/config.toml"@)
}

/// `<base>/.config/berth/config.toml`.
pub fn config_path_under(base: &str) -> (r: String)
    ensures
        r@ == standard_config_path(base@),
{
    join(base, ".config/berth/config.toml")
}

/// A candidate configuration path and whether a file stands there.
#[derive(Clone, Debug)]
pub struct Candidate {
    pub path: String,
    pub exists: bool,
}

/// Whether the candidate names an existing file.
pub open spec fn found(c: Option<Candidate>) -> bool {
    c matches Some(x) && x.exists
}

/// The path of a candidate.
pub open spec fn candidate_path(c: Option<Candidate>) -> Seq<char> {
    c->Some_0.path@
}

/// The configuration file to use: the one given on the command line, which
/// must exist; else the first existing one of the standard locations under
/// `$XDG_CONFIG_HOME` and under `$HOME`.
pub fn choose_config_path(provided: Option<Candidate>, xdg: Option<Candidate>, home: Option<Candidate>) -> (r:
    Result<String, CliError>)
    ensures
        found(provided) ==> (r matches Ok(s) && s@ == candidate_path(provided)),
        provided is Some && !found(provided) ==> (r matches Err(CliError::NoConfigAtProvidedPath(s)) && s@
            == candidate_path(provided)),
        provided is None && found(xdg) ==> (r matches Ok(s) && s@ == candidate_path(xdg)),
        provided is None && !found(xdg) && found(home) ==> (r matches Ok(s) && s@ == candidate_path(home)),
        provided is None && !found(xdg) && !found(home) ==> (r matches Err(CliError::NoConfigInStandardLocation)),
{
    if let Some(p) = provided {
        return if p.exists {
            Ok(p.path)
        } else {
            Err(CliError::NoConfigAtProvidedPath(p.path))
        };
    }
    if let Some(x) = xdg {
        if x.exists {
            return Ok(x.path);
        }
    }
    if let Some(h) = home {
        if h.exists {
            return Ok(h.path);
        }
    }
    Err(CliError::NoConfigInStandardLocation)
}

} // verus!
