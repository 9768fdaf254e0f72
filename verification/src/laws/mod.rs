//! What holds of whole runs: of a task resumed with one reply after another
//! until it is done.

pub mod rounds;
pub mod signing;
pub mod whole_slot;
