use vstd::prelude::*;

verus! {

/// Relies on `whoami::username`: the name of the user running the process.
/// It depends on the environment, so nothing is stated of it.
pub assume_specification[ whoami::username ]() -> String;

} // verus!
