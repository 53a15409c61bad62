use super::parts_match_query::PartsMatchQuery;
use super::parts_match_query::PartsMatchQueryView;
use crate::bom::json::array;
use crate::bom::json::array_text;
use vstd::prelude::*;

verus! {

/// A batch of queries for the catalog's match endpoint. The catalog answers the
/// query at index `i` with the result at index `i`: the position is all that ties
/// a result to its query.
#[derive(Clone, Debug, PartialEq, Eq)]
pub struct PartsMatchRequest {
    /// List of queries. The catalog accepts at most 20 queries per request.
    pub queries: Vec<PartsMatchQuery>,
    /// Match on non-alphanumeric characters in part numbers.
    pub exact_only: bool,
}

/// A batch as contracts see it.
pub struct PartsMatchRequestView {
    pub queries: Seq<PartsMatchQueryView>,
    pub exact_only: bool,
}

/// The views of a sequence of queries, in the same order.
pub open spec fn query_views(queries: Seq<PartsMatchQuery>) -> Seq<PartsMatchQueryView> {
    Seq::new(queries.len(), |i: int| queries[i]@)
}

impl View for PartsMatchRequest {
    type V = PartsMatchRequestView;

    open spec fn view(&self) -> PartsMatchRequestView {
        PartsMatchRequestView { queries: query_views(self.queries@), exact_only: self.exact_only }
    }
}

impl PartsMatchRequestView {
    /// The queries of the batch as JSON text: the array of the queries, each written as
    /// [`PartsMatchQueryView::json`] has it, in the order of the batch.
    pub open spec fn queries_json(self) -> Seq<char> {
        array_text(Seq::new(self.queries.len(), |i: int| self.queries[i].json()))
    }

    /// Whether the catalog accepts the batch: at most 20 queries, each with a window
    /// that it accepts.
    pub open spec fn within_limits(self) -> bool {
        &&& self.queries.len() <= 20
        &&& forall|i: int| 0 <= i < self.queries.len() ==> (#[trigger] self.queries[i]).within_limits()
    }
}

impl PartsMatchRequest {
    /// Writes the queries of the batch as JSON text.
    pub fn queries_json(&self) -> (text: String)
        ensures
            text@ == self@.queries_json(),
    {
        let mut elements: Vec<String> = Vec::new();
        let mut index: usize = 0;
        while index < self.queries.len()
            invariant
                index <= self.queries.len(),
                elements.len() == index,
                forall|i: int| 0 <= i < index ==> (#[trigger] elements[i])@ == self.queries[i]@.json(),
            decreases self.queries.len() - index,
        {
            elements.push(self.queries[index].to_json());
            index = index + 1;
        }
        assert(elements.deep_view() =~= Seq::new(
            self@.queries.len(),
            |i: int| self@.queries[i].json(),
        ));
        array(&elements)
    }

    /// Tells whether the catalog accepts the batch.
    pub fn within_limits(&self) -> (accepted: bool)
        ensures
            accepted == self@.within_limits(),
    {
        if self.queries.len() > 20 {
            return false;
        }
        let mut index: usize = 0;
        while index < self.queries.len()
            invariant
                index <= self.queries.len(),
                forall|i: int| 0 <= i < index ==> (#[trigger] self@.queries[i]).within_limits(),
            decreases self.queries.len() - index,
        {
            if !self.queries[index].within_limits() {
                assert(!self@.queries[index as int].within_limits());
                return false;
            }
            index = index + 1;
        }
        true
    }
}

} // verus!
