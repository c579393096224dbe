//! The arguments of the simplest invocation: a configuration file and an
//! environment name.

use vstd::prelude::*;

verus! {

/// A configuration file, if one is given, and the environment to use.
#[derive(Clone, Debug)]
pub struct Arguments {
    pub config_file: Option<String>,
    pub env_name: String,
}

} // verus!
