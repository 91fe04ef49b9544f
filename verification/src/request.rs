use vstd::prelude::*;

use crate::date::Date;

verus! {

/// The query element shared by the VAT-payer, Cult and Farmer endpoints: a
/// registration code and the date of interest, serialized on the wire under
/// keys `cui` and `data` (the date in ISO-8601).
#[derive(Debug, Clone, Copy, PartialEq, Eq, Structural)]
pub struct ApiRequest {
    pub registration_code: usize,
    pub when: Date,
}

impl ApiRequest {
    /// Builds a query element.
    pub fn new(registration_code: usize, when: Date) -> (r: Self)
        ensures
            r.registration_code == registration_code,
            r.when == when,
    {
        Self { registration_code, when }
    }
}

} // verus!
