//! Client mode.
use vstd::prelude::*;

use crate::cli::Cli;

verus! {

/// Run cradle in client mode. Client mode does nothing yet.
pub fn run(args: Cli) {
}

} // verus!
