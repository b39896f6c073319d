//! Server mode.
use vstd::prelude::*;

use crate::cli::Cli;

verus! {

/// Run cradle in server mode. Server mode does nothing yet.
pub fn run(args: Cli) {
}

} // verus!
