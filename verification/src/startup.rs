//! What the running service shares among its request handlers.

use vstd::prelude::*;

verus! {

/// The address under which the service is reached from outside, kept in a
/// type of its own so that it is not taken for any other text.
#[derive(Debug, Clone)]
pub struct ApplicationBaseUrl(pub String);

} // verus!
