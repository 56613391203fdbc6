//! The reasons for which a command is rejected.

use vstd::prelude::*;

verus! {

/// Why a command was rejected. A rejected command changes nothing.
#[derive(Debug, Clone, Copy, PartialEq, Eq, Structural)]
pub enum Error {
    /// The command carries no verified submitter.
    BadOrigin,
    /// A registration names an identifier that is already registered.
    ProductAlreadyExists,
    /// An update names an identifier that was never registered.
    NoSuchProduct,
    /// An update's name differs from the name stored under the identifier.
    NameMismatch,
}

} // verus!
