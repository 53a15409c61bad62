use super::parts_match_request::PartsMatchRequest;
use super::parts_match_result::PartsMatchResult;
use crate::errors::Error;
use vstd::prelude::*;

verus! {

/// The catalog's answer to a batch of queries.
#[derive(Clone, Debug, PartialEq, Eq)]
pub struct PartsMatchResponse {
    /// The request as the catalog echoes it.
    pub request: PartsMatchRequest,
    /// List of query results, one for each query and in the order of the queries.
    pub results: Vec<PartsMatchResult>,
    /// The server response time in milliseconds.
    pub msec: u32,
}

/// Whether one of `results` reports that its query failed: it carries an error message.
pub open spec fn reports_failure(results: Seq<PartsMatchResult>) -> bool {
    exists|i: int| 0 <= i < results.len() && (#[trigger] results[i]).error is Some
}

impl PartsMatchResponse {
    /// Tells whether the catalog reports a failure in the response: one of the results
    /// carries an error message. Filing the results does not ask this; a caller that
    /// wants no mapping from such a response asks first.
    pub fn reported_failure(&self) -> (failure: Option<Error>)
        ensures
            failure == if reports_failure(self.results@) {
                Some(Error::Protocol)
            } else {
                None
            },
    {
        let mut index: usize = 0;
        while index < self.results.len()
            invariant
                index <= self.results.len(),
                forall|i: int| 0 <= i < index ==> (#[trigger] self.results@[i]).error is None,
            decreases self.results.len() - index,
        {
            if self.results[index].error.is_some() {
                return Some(Error::Protocol);
            }
            index = index + 1;
        }
        None
    }
}

} // verus!
