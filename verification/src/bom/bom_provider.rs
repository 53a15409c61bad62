//! The client of the part catalog: what it asks, and what it makes of the answers.

use super::octopart::part::Part;
use super::octopart::parts_match_query::lemma_keys_are_plain;
use super::octopart::parts_match_query::member_text;
use super::octopart::parts_match_query::member_texts;
use super::octopart::parts_match_query::FieldView;
use super::octopart::parts_match_query::PartsMatchQuery;
use super::octopart::parts_match_query::PartsMatchQueryView;
use super::octopart::parts_match_request::PartsMatchRequest;
use super::octopart::parts_match_request::PartsMatchRequestView;
use super::octopart::parts_match_response::PartsMatchResponse;
use super::octopart::parts_match_result::PartsMatchResult;
use super::web_address::address_with_params;
use super::web_address::write_address;
use super::json::decimal;
use super::json::is_json;
use super::json::is_plain;
use super::json::joined;
use super::json::json_well_formed;
use crate::errors::Error;
use crate::remote::address_under;
use crate::remote::body_text;
use crate::remote::under;
use crate::remote::fetched_view;
use crate::remote::text_outcome;
use vstd::hash_map::StringHashMap;
use vstd::prelude::*;

verus! {

/// The part that the catalog's answer to one query stands for: the last of the matched
/// parts, or none where nothing matched.
pub open spec fn last_item(result: PartsMatchResult) -> Option<Part> {
    if result.items@.len() > 0 {
        Some(result.items@.last())
    } else {
        None
    }
}

/// The key under which the result at `index` is filed: the part number of the query at
/// that index of the batch that was sent, or `unknown` where the batch has no such query
/// or the query names no part number.
pub open spec fn result_key(queries: Seq<PartsMatchQueryView>, index: int) -> Seq<char> {
    if 0 <= index < queries.len() && queries[index].mpn is Some {
        queries[index].mpn->0
    } else {
        "unknown"@
    }
}

/// The mapping from part numbers to parts that the results of a batch stand for. The
/// results are filed one after the other, so of two results under one key the later
/// one stays. That holds of the key `unknown` too: a result without a query is filed
/// under it also where a query asked for a part of that very number.
pub open spec fn remap(queries: Seq<PartsMatchQueryView>, results: Seq<PartsMatchResult>) -> Map<
    Seq<char>,
    Option<Part>,
>
    decreases results.len(),
{
    if results.len() == 0 {
        Map::empty()
    } else {
        remap(queries, results.drop_last()).insert(
            result_key(queries, results.len() - 1),
            last_item(results.last()),
        )
    }
}

/// What the answer to a request for one part comes to. `fetched` is the outcome of the
/// exchange, `document` what the JSON decoder made of the body: the part, or nothing
/// where the body is no part document. A body that is JSON and no part document is the
/// catalog's way of saying that it has no such part.
pub open spec fn part_outcome(fetched: Result<Seq<u8>, Error>, document: Option<Part>) -> Result<
    Part,
    Error,
> {
    match text_outcome(fetched) {
        Ok(text) => match document {
            Some(part) => Ok(part),
            None => Err(missing_part(json_well_formed(text))),
        },
        Err(failure) => Err(failure),
    }
}

/// The failure that a body without a part document stands for: the part was not found
/// where the body is JSON, and the body cannot be decoded where it is not.
pub open spec fn missing_part(well_formed: bool) -> Error {
    if well_formed {
        Error::NotFound
    } else {
        Error::Decode
    }
}

/// What the answer to a batch comes to. `fetched` is the outcome of the exchange,
/// `document` what the JSON decoder made of the body: the response, or nothing where the
/// body is no response document. There is no partial result: either every result of the
/// response is filed, or the whole batch fails.
pub open spec fn batch_outcome(
    queries: Seq<PartsMatchQueryView>,
    fetched: Result<Seq<u8>, Error>,
    document: Option<PartsMatchResponse>,
) -> Result<Map<Seq<char>, Option<Part>>, Error> {
    match text_outcome(fetched) {
        Ok(_) => match document {
            Some(response) => Ok(remap(queries, response.results@)),
            None => Err(Error::Decode),
        },
        Err(failure) => Err(failure),
    }
}

/// The query that asks for the one best match of the part number `mpn`.
pub open spec fn mpn_query(mpn: Seq<char>) -> PartsMatchQueryView {
    PartsMatchQueryView { mpn: Some(mpn), limit: 1, ..PartsMatchQueryView::blank() }
}

/// The batch that asks for each of the part numbers `mpns`: one query for each, in the
/// order of `mpns`, and no demand that punctuation in part numbers match.
pub open spec fn mpn_request(mpns: Seq<Seq<char>>) -> PartsMatchRequestView {
    PartsMatchRequestView {
        queries: Seq::new(mpns.len(), |i: int| mpn_query(mpns[i])),
        exact_only: false,
    }
}

/// The keys of the mapping are the keys of the results: a key is in it exactly where
/// some result is filed under it.
pub proof fn lemma_remap_keys(queries: Seq<PartsMatchQueryView>, results: Seq<PartsMatchResult>)
    ensures
        forall|key: Seq<char>|
            remap(queries, results).contains_key(key) <==> exists|i: int|
                0 <= i < results.len() && #[trigger] result_key(queries, i) == key,
    decreases results.len(),
{
    if results.len() > 0 {
        let front = results.drop_last();
        let last = results.len() - 1;
        lemma_remap_keys(queries, front);
        assert forall|key: Seq<char>|
            remap(queries, results).contains_key(key) <==> exists|i: int|
                0 <= i < results.len() && #[trigger] result_key(queries, i) == key by {
            if remap(queries, results).contains_key(key) {
                if key == result_key(queries, last) {
                } else {
                    assert(remap(queries, front).contains_key(key));
                    let i = choose|i: int|
                        0 <= i < front.len() && #[trigger] result_key(queries, i) == key;
                    assert(0 <= i < results.len() && result_key(queries, i) == key);
                }
            }
            if exists|i: int| 0 <= i < results.len() && #[trigger] result_key(queries, i) == key {
                let i = choose|i: int|
                    0 <= i < results.len() && #[trigger] result_key(queries, i) == key;
                if i < last {
                    assert(0 <= i < front.len() && result_key(queries, i) == key);
                    assert(remap(queries, front).contains_key(key));
                }
            }
        }
    }
}

/// Of the results that are filed under one key, the last one stays: a result that no
/// later result shares its key with is the one that the mapping holds under that key.
pub proof fn lemma_later_result_stays(
    queries: Seq<PartsMatchQueryView>,
    results: Seq<PartsMatchResult>,
    index: int,
)
    requires
        0 <= index < results.len(),
        forall|later: int|
            index < later < results.len() ==> #[trigger] result_key(queries, later) != result_key(
                queries,
                index,
            ),
    ensures
        remap(queries, results).contains_key(result_key(queries, index)),
        remap(queries, results)[result_key(queries, index)] == last_item(results[index]),
    decreases results.len(),
{
    let last = results.len() - 1;
    if index < last {
        let front = results.drop_last();
        assert(result_key(queries, last) != result_key(queries, index));
        assert forall|later: int| index < later < front.len() implies #[trigger] result_key(
            queries,
            later,
        ) != result_key(queries, index) by {}
        lemma_later_result_stays(queries, front, index);
        assert(front[index] == results[index]);
    }
}

/// Where the catalog answers each query of a batch for part numbers with one result, the
/// keys of the mapping are the part numbers that were asked for, each once, however
/// often and in whatever order they were asked for.
pub proof fn lemma_keys_are_the_part_numbers(mpns: Seq<Seq<char>>, results: Seq<PartsMatchResult>)
    requires
        results.len() == mpns.len(),
    ensures
        remap(mpn_request(mpns).queries, results).dom() == mpns.to_set(),
{
    let queries = mpn_request(mpns).queries;
    lemma_remap_keys(queries, results);
    assert forall|key: Seq<char>|
        remap(queries, results).dom().contains(key) <==> mpns.to_set().contains(key) by {
        if remap(queries, results).contains_key(key) {
            let i = choose|i: int| 0 <= i < results.len() && #[trigger] result_key(queries, i) == key;
            assert(mpns[i] == key);
            assert(mpns.contains(key));
        }
        if mpns.to_set().contains(key) {
            assert(mpns.contains(key));
            let i = choose|i: int| 0 <= i < mpns.len() && mpns[i] == key;
            assert(result_key(queries, i) == key);
        }
    }
    assert(remap(queries, results).dom() =~= mpns.to_set());
}

/// The query for a part number that is a plain text is written as the object of the part
/// number, the start at the first item and the limit of one match.
pub proof fn lemma_json_of_part_number_query(mpn: Seq<char>)
    requires
        is_plain(mpn),
    ensures
        mpn_query(mpn).json() == "{\"mpn\":\""@ + mpn + "\",\"start\":0,\"limit\":1}"@,
{
    let query = mpn_query(mpn);
    let part = ("mpn"@, FieldView::Text(mpn));
    let start = ("start"@, FieldView::Number(0));
    let limit = ("limit"@, FieldView::Number(1));
    lemma_keys_are_plain();
    reveal_strlit("mpn");
    reveal_strlit("start");
    reveal_strlit("limit");
    reveal_strlit("{\"mpn\":\"");
    reveal_strlit("\",\"start\":0,\"limit\":1}");
    reveal_with_fuel(decimal, 2);
    reveal_with_fuel(joined, 4);
    assert(query.fields() =~= seq![part, start, limit]);
    let texts = member_texts(query.fields());
    assert(texts =~= seq![member_text(part), member_text(start), member_text(limit)]);
    assert(texts.drop_last() =~= seq![member_text(part), member_text(start)]);
    assert(texts.drop_last().drop_last() =~= seq![member_text(part)]);
    assert(member_text(part) =~= seq!['"', 'm', 'p', 'n', '"', ':', '"'] + mpn + seq!['"']);
    assert(member_text(start) =~= seq!['"', 's', 't', 'a', 'r', 't', '"', ':', '0']);
    assert(member_text(limit) =~= seq!['"', 'l', 'i', 'm', 'i', 't', '"', ':', '1']);
    assert(joined(texts, seq![',']) =~= member_text(part) + seq![','] + member_text(start) + seq![
        ',',
    ] + member_text(limit));
    assert(query.json() =~= "{\"mpn\":\""@ + mpn + "\",\"start\":0,\"limit\":1}"@);
}

/// Every request for one part asks the catalog to cut the offers of the part down to the
/// first one: the second of its two query pairs is that directive, whatever the client
/// and whatever the part.
pub proof fn lemma_part_request_slices_offers(provider: BomProvider)
    ensures
        provider.part_params().len() == 2,
        provider.part_params()[0] == ("apikey"@, provider.api_key()),
        provider.part_params()[1] == ("slice[offers]"@, "[0:1]"@),
{
}

/// A failure of the exchange is the outcome of the request, whatever the decoder is
/// said to have made of a body: no part and no mapping comes of it.
pub proof fn lemma_failed_exchange_is_the_outcome(
    failure: Error,
    queries: Seq<PartsMatchQueryView>,
    part: Option<Part>,
    response: Option<PartsMatchResponse>,
)
    ensures
        part_outcome(Err(failure), part) == Err::<Part, Error>(failure),
        batch_outcome(queries, Err(failure), response) == Err::<Map<Seq<char>, Option<Part>>, Error>(
            failure,
        ),
{
}

/// A failure of transport on the way to the catalog is reported as one: the request for
/// a part gives no part and the request for a batch files nothing, not for a single
/// part number, whatever the batch and whatever else is handed over.
pub proof fn lemma_transport_failure_is_surfaced(
    queries: Seq<PartsMatchQueryView>,
    part: Option<Part>,
    response: Option<PartsMatchResponse>,
)
    ensures
        part_outcome(Err(Error::Transport), part) == Err::<Part, Error>(Error::Transport),
        batch_outcome(queries, Err(Error::Transport), response) == Err::<
            Map<Seq<char>, Option<Part>>,
            Error,
        >(Error::Transport),
{
}

/// Manages access to BOM related information.
#[derive(Clone)]
pub struct BomProvider {
    api_url: String,
    api_key: String,
}

impl BomProvider {
    /// The address of the catalog's API, as text.
    pub closed spec fn api_url(&self) -> Seq<char> {
        self.api_url@
    }

    /// The key that the catalog knows this client by.
    pub closed spec fn api_key(&self) -> Seq<char> {
        self.api_key@
    }

    /// A client of the catalog at `api_url`, which it addresses with `api_key`.
    pub fn new(api_url: String, api_key: String) -> (provider: Self)
        ensures
            provider.api_url() == api_url@,
            provider.api_key() == api_key@,
    {
        BomProvider { api_url, api_key }
    }

    /// Where the catalog keeps the part with the identifier `uid`: the path `parts`
    /// and the identifier under the address of the API, with one slash between the two.
    pub open spec fn part_address(&self, uid: Seq<char>) -> Seq<char> {
        address_under(self.api_url(), "/parts/"@ + uid)
    }

    /// The query pairs of a request for one part: the key of the client, and the
    /// directive that has the catalog cut the list of offers down to its first entry
    /// before it answers.
    pub open spec fn part_params(&self) -> Seq<(Seq<char>, Seq<char>)> {
        seq![("apikey"@, self.api_key()), ("slice[offers]"@, "[0:1]"@)]
    }

    /// Computes [`BomProvider::part_params`].
    pub fn part_query(&self) -> (params: Vec<(String, String)>)
        ensures
            params.deep_view() == self.part_params(),
    {
        let mut params: Vec<(String, String)> = Vec::new();
        params.push(("apikey".to_string(), self.api_key.clone()));
        params.push(("slice[offers]".to_string(), "[0:1]".to_string()));
        assert(params.deep_view() =~= self.part_params());
        params
    }

    /// The URL to fetch for the part with the identifier `uid`: the URL that the `url`
    /// crate makes of [`BomProvider::part_address`] and [`BomProvider::part_params`].
    /// Where it makes none, or the URL would pass the length that the crate can hold, no
    /// request can be formed.
    pub fn part_url(&self, uid: &str) -> (url: Result<String, Error>)
        ensures
            match address_with_params(self.part_address(uid@), self.part_params()) {
                Some(address) => url is Ok && url->Ok_0@ == address,
                None => url == Err::<String, Error>(Error::Transport),
            },
    {
        let mut path = "/parts/".to_string();
        path.append(uid);
        let address = under(self.api_url.as_str(), path.as_str());
        let params = self.part_query();
        write_address(address.as_str(), &params)
    }

    /// The batch to send for the part numbers `mpns`.
    pub fn match_request(mpns: Vec<String>) -> (request: PartsMatchRequest)
        ensures
            request@ == mpn_request(mpns.deep_view()),
    {
        let ghost wanted = mpns.deep_view();
        let count = mpns.len();
        let mut queries: Vec<PartsMatchQuery> = Vec::new();
        for mpn in it: mpns
            invariant
                it.seq().len() == count,
                it.seq().len() == wanted.len(),
                forall|i: int| 0 <= i < wanted.len() ==> (#[trigger] it.seq()[i])@ == wanted[i],
                queries.len() == it.index(),
                forall|i: int|
                    0 <= i < queries.len() ==> (#[trigger] queries[i])@ == mpn_query(wanted[i]),
        {
            queries.push(PartsMatchQuery::new().with_mpn(mpn).with_limit(1));
        }
        let request = PartsMatchRequest { queries, exact_only: false };
        assert(request@.queries =~= mpn_request(wanted).queries);
        request
    }

    /// Where the catalog takes batches of queries.
    pub open spec fn match_address(&self) -> Seq<char> {
        address_under(self.api_url(), "/parts/match"@)
    }

    /// The query pairs of a request for a batch: the key of the client, and the queries
    /// of the batch as JSON text.
    pub open spec fn match_params(&self, request: PartsMatchRequestView) -> Seq<
        (Seq<char>, Seq<char>),
    > {
        seq![("apikey"@, self.api_key()), ("queries"@, request.queries_json())]
    }

    /// Computes [`BomProvider::match_params`].
    pub fn match_query(&self, request: &PartsMatchRequest) -> (params: Vec<(String, String)>)
        ensures
            params.deep_view() == self.match_params(request@),
    {
        let mut params: Vec<(String, String)> = Vec::new();
        params.push(("apikey".to_string(), self.api_key.clone()));
        params.push(("queries".to_string(), request.queries_json()));
        assert(params.deep_view() =~= self.match_params(request@));
        params
    }

    /// The URL to fetch for the batch `request`: the URL that the `url` crate makes of
    /// [`BomProvider::match_address`] and [`BomProvider::match_params`]. Where it makes
    /// none, or the URL would pass the length that the crate can hold, no request can be
    /// formed.
    pub fn match_url(&self, request: &PartsMatchRequest) -> (url: Result<String, Error>)
        ensures
            match address_with_params(self.match_address(), self.match_params(request@)) {
                Some(address) => url is Ok && url->Ok_0@ == address,
                None => url == Err::<String, Error>(Error::Transport),
            },
    {
        let address = under(self.api_url.as_str(), "/parts/match");
        let params = self.match_query(request);
        write_address(address.as_str(), &params)
    }

    /// Computes [`result_key`]: the key under which the result at `index` of the answer
    /// to `request` is filed.
    pub fn key_of(request: &PartsMatchRequest, index: usize) -> (key: String)
        ensures
            key@ == result_key(request@.queries, index as int),
    {
        if index < request.queries.len() {
            match &request.queries[index].mpn {
                Some(mpn) => mpn.clone(),
                None => "unknown".to_string(),
            }
        } else {
            "unknown".to_string()
        }
    }

    /// Tells which failure a body without a part document stands for.
    pub fn missing_part(well_formed: bool) -> (failure: Error)
        ensures
            failure == missing_part(well_formed),
    {
        if well_formed {
            Error::NotFound
        } else {
            Error::Decode
        }
    }

    /// Returns Part information from the answer to a request for [`BomProvider::part_url`].
    ///
    /// `fetched` is the outcome of the exchange, and `document` what the JSON decoder
    /// made of the body.
    pub fn get_part(&self, fetched: Result<Vec<u8>, Error>, document: Option<Part>) -> (part: Result<
        Part,
        Error,
    >)
        ensures
            part == part_outcome(fetched_view(fetched), document),
    {
        let text = match body_text(fetched) {
            Ok(text) => text,
            Err(failure) => {
                return Err(failure);
            },
        };
        match document {
            Some(part) => Ok(part),
            None => Err(BomProvider::missing_part(is_json(text.as_str()))),
        }
    }

    /// Files the results of a batch under the part numbers of its queries, from the
    /// answer to a request for [`BomProvider::match_url`].
    ///
    /// `request` is the batch that was sent; what the catalog echoes of it in its
    /// response is not read. `fetched` is the outcome of the exchange, and `document`
    /// what the JSON decoder made of the body.
    pub fn find_parts(
        &self,
        request: &PartsMatchRequest,
        fetched: Result<Vec<u8>, Error>,
        document: Option<PartsMatchResponse>,
    ) -> (found: Result<StringHashMap<Option<Part>>, Error>)
        ensures
            match batch_outcome(request@.queries, fetched_view(fetched), document) {
                Ok(parts) => found is Ok && found->Ok_0@ == parts,
                Err(failure) => found == Err::<StringHashMap<Option<Part>>, Error>(failure),
            },
    {
        match body_text(fetched) {
            Ok(_) => {},
            Err(failure) => {
                return Err(failure);
            },
        }
        let answer = match document {
            Some(answer) => answer,
            None => {
                return Err(Error::Decode);
            },
        };
        let ghost results = answer.results@;
        let count = answer.results.len();
        let mut parts: StringHashMap<Option<Part>> = StringHashMap::new();
        let mut index: usize = 0;
        for result in it: answer.results
            invariant
                index == it.index(),
                it.seq() == results,
                results.len() == count,
                parts@ == remap(request@.queries, results.take(index as int)),
        {
            let key = BomProvider::key_of(request, index);
            let mut items = result.items;
            let part = items.pop();
            proof {
                assert(results.take(index + 1).drop_last() == results.take(index as int));
                assert(results.take(index + 1).last() == result);
            }
            parts.insert(key, part);
            index = index + 1;
        }
        proof {
            assert(results.take(index as int) == results);
        }
        Ok(parts)
    }
}

} // verus!
