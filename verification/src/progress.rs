//! The spinner shown while a long step runs.

use vstd::prelude::*;

verus! {

/// Whether a spinner is shown at verbosity `verbose`: only while the
/// engines' own output is hidden, below verbosity 2.
pub fn shows_spinner(verbose: u8) -> (b: bool)
    ensures
        b == (verbose <= 1),
{
    verbose <= 1
}

} // verus!
