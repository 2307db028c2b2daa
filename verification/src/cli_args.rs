//! The command line of the server.

use vstd::prelude::*;

verus! {

/// The server's command line arguments.
#[derive(Clone, Debug)]
pub struct CliArgs {
    /// Path to the configuration file.
    pub config_file: String,
}

} // verus!
