//! Errors for rejected form input.

use vstd::prelude::*;

verus! {

/// A field of the subscription form was rejected. Each variant carries the
/// raw value that was refused.
#[derive(Debug)]
pub enum MalformedInput {
    InvalidName { name: String },
    InvalidEmail { email: String },
}

} // verus!
