//! The sign-up form accepted by the subscriptions endpoint.

use vstd::prelude::*;

verus! {

/// The form fields a new subscriber submits.
#[derive(Debug, PartialEq, Eq)]
pub struct FormData {
    pub email: String,
    pub name: String,
}

} // verus!
