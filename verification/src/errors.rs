//! The error values an interaction can resolve to.

use vstd::prelude::*;

verus! {

/// Why an interaction's result could not be produced.
#[derive(Clone, Copy, Debug, PartialEq, Eq, Structural)]
pub enum Error {
    NotFound,
    WrongType,
}

} // verus!
