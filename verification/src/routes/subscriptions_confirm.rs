//! The subscription-confirmation endpoint's query parameters. The HTTP
//! handler around them belongs to the route layer in the binary; token
//! verification itself is a collaborator this library does not define.

use vstd::prelude::*;

verus! {

/// The query parameters the confirmation endpoint accepts.
#[derive(Clone, Debug)]
pub struct Parameters {
    pub subscription_token: String,
}

} // verus!
