use frunze_api::bom::bom_provider::BomProvider;
use frunze_api::bom::octopart::part::Part;
use frunze_api::bom::octopart::part_offer::PartOffer;
use frunze_api::bom::octopart::part_prices::PartPrices;
use frunze_api::bom::octopart::parts_match_query::PartsMatchQuery;
use frunze_api::bom::octopart::parts_match_request::PartsMatchRequest;
use frunze_api::bom::octopart::parts_match_response::PartsMatchResponse;
use frunze_api::bom::octopart::parts_match_result::PartsMatchResult;
use frunze_api::bom::octopart::seller::Seller;
use frunze_api::errors::Error;

fn provider() -> BomProvider {
    BomProvider::new("http://octopart.com/api/v3".to_string(), "KEY".to_string())
}

fn offer(sku: &str) -> PartOffer {
    PartOffer {
        sku: sku.to_string(),
        seller: Seller {
            uid: "2c3be9310496fffc".to_string(),
            name: "Digi-Key".to_string(),
            homepage_url: Some("http://www.digikey.com".to_string()),
            display_flag: Some("US".to_string()),
            has_ecommerce: Some(true),
        },
        eligible_region: None,
        product_url: None,
        octopart_rfq_url: None,
        prices: PartPrices { usd: Some(vec![(1, "0.56000".to_string())]), eur: None },
        in_stock_quantity: -2,
        on_order_quantity: None,
        on_order_eta: None,
        factory_lead_days: Some(42),
        factory_order_multiple: None,
        order_multiple: None,
        moq: Some(1),
        packaging: Some("Tube".to_string()),
        is_authorized: true,
        last_updated: "2018-06-12T10:11:12Z".to_string(),
    }
}

fn part(uid: &str, mpn: &str) -> Part {
    Part {
        uid: uid.to_string(),
        mpn: mpn.to_string(),
        octopart_url: format!("https://octopart.com/{}", uid),
        offers: vec![offer("296-1395-5-ND")],
    }
}

fn result(items: Vec<Part>) -> PartsMatchResult {
    PartsMatchResult { hits: items.len() as u32, reference: None, items, error: None }
}

fn response(results: Vec<PartsMatchResult>) -> PartsMatchResponse {
    PartsMatchResponse {
        request: PartsMatchRequest { queries: vec![], exact_only: false },
        results,
        msec: 12,
    }
}

fn body() -> Result<Vec<u8>, Error> {
    Ok(b"{\"results\":[]}".to_vec())
}

fn mpns(list: &[&str]) -> Vec<String> {
    list.iter().map(|mpn| mpn.to_string()).collect()
}

#[test]
fn part_request_asks_for_the_first_offer_only() {
    assert_eq!(
        provider().part_query(),
        vec![
            ("apikey".to_string(), "KEY".to_string()),
            ("slice[offers]".to_string(), "[0:1]".to_string()),
        ]
    );
}

#[test]
fn part_url_names_the_part_the_key_and_the_slice() {
    assert_eq!(
        provider().part_url("1234"),
        Ok("http://octopart.com/api/v3/parts/1234?apikey=KEY&slice%5Boffers%5D=%5B0%3A1%5D"
            .to_string())
    );
}

#[test]
fn part_url_is_what_the_url_crate_writes() {
    let provider = BomProvider::new("https://example.net/api".to_string(), "a b&c".to_string());
    let expected = url::Url::parse_with_params(
        "https://example.net/api/parts/x y",
        &[("apikey", "a b&c"), ("slice[offers]", "[0:1]")],
    )
    .unwrap();
    assert_eq!(provider.part_url("x y"), Ok(expected.as_str().to_string()));
    assert_eq!(
        expected.as_str(),
        "https://example.net/api/parts/x%20y?apikey=a+b%26c&slice%5Boffers%5D=%5B0%3A1%5D"
    );
}

#[test]
fn part_url_of_an_api_that_has_no_address_fails() {
    let provider = BomProvider::new("octopart".to_string(), "KEY".to_string());
    assert_eq!(provider.part_url("1234"), Err(Error::Transport));
    let provider = BomProvider::new(String::new(), "KEY".to_string());
    assert_eq!(provider.part_url("1234"), Err(Error::Transport));
}

#[test]
fn match_request_has_one_query_for_each_part_number_in_order() {
    let request = BomProvider::match_request(mpns(&["LM358", "UNKNOWN-XYZ", "LM358"]));
    let expected = PartsMatchRequest {
        queries: vec![
            PartsMatchQuery { mpn: Some("LM358".to_string()), limit: 1, ..PartsMatchQuery::new() },
            PartsMatchQuery {
                mpn: Some("UNKNOWN-XYZ".to_string()),
                limit: 1,
                ..PartsMatchQuery::new()
            },
            PartsMatchQuery { mpn: Some("LM358".to_string()), limit: 1, ..PartsMatchQuery::new() },
        ],
        exact_only: false,
    };
    assert_eq!(request, expected);
}

#[test]
fn match_request_for_no_part_number_is_empty() {
    let request = BomProvider::match_request(vec![]);
    assert_eq!(request, PartsMatchRequest { queries: vec![], exact_only: false });
}

#[test]
fn match_request_is_within_the_limits_of_the_catalog_up_to_twenty() {
    let twenty: Vec<String> = (0..20).map(|i| format!("P{}", i)).collect();
    assert!(BomProvider::match_request(twenty).within_limits());
    let more: Vec<String> = (0..21).map(|i| format!("P{}", i)).collect();
    assert!(!BomProvider::match_request(more).within_limits());
}

#[test]
fn match_query_holds_the_key_and_the_queries() {
    let request = BomProvider::match_request(mpns(&["LM358"]));
    assert_eq!(
        provider().match_query(&request),
        vec![
            ("apikey".to_string(), "KEY".to_string()),
            ("queries".to_string(), "[{\"mpn\":\"LM358\",\"start\":0,\"limit\":1}]".to_string()),
        ]
    );
}

#[test]
fn match_url_names_the_key_and_the_queries() {
    let request = BomProvider::match_request(mpns(&["LM358"]));
    assert_eq!(
        provider().match_url(&request),
        Ok("http://octopart.com/api/v3/parts/match?apikey=KEY&queries=%5B%7B%22mpn%22%3A%22LM358\
            %22%2C%22start%22%3A0%2C%22limit%22%3A1%7D%5D"
            .to_string())
    );
}

#[test]
fn match_url_is_what_the_url_crate_writes() {
    let request = BomProvider::match_request(mpns(&["LM358", "a \"b\""]));
    let queries = "[{\"mpn\":\"LM358\",\"start\":0,\"limit\":1},\
                   {\"mpn\":\"a \\\"b\\\"\",\"start\":0,\"limit\":1}]";
    let expected = url::Url::parse_with_params(
        "http://octopart.com/api/v3/parts/match",
        &[("apikey", "KEY"), ("queries", queries)],
    )
    .unwrap();
    assert_eq!(provider().match_url(&request), Ok(expected.as_str().to_string()));
}

#[test]
fn match_url_of_an_api_that_has_no_address_fails() {
    let provider = BomProvider::new("//nowhere".to_string(), "KEY".to_string());
    let request = BomProvider::match_request(mpns(&["LM358"]));
    assert_eq!(provider.match_url(&request), Err(Error::Transport));
}

#[test]
fn get_part_gives_the_decoded_part() {
    let body = Ok(b"{\"uid\":\"1\"}".to_vec());
    assert_eq!(provider().get_part(body, Some(part("1", "LM358"))), Ok(part("1", "LM358")));
}

#[test]
fn get_part_without_a_part_document_in_json_is_not_found() {
    let body = Ok(b"{\"message\":\"no such part\",\"__class__\":\"ClientErrorResponse\"}".to_vec());
    assert_eq!(provider().get_part(body, None), Err(Error::NotFound));
}

#[test]
fn get_part_of_a_body_that_is_not_json_fails_to_decode() {
    assert_eq!(provider().get_part(Ok(b"<html>".to_vec()), None), Err(Error::Decode));
    assert_eq!(provider().get_part(Ok(vec![]), None), Err(Error::Decode));
    assert_eq!(provider().get_part(Ok(b"{\"uid\":".to_vec()), None), Err(Error::Decode));
}

#[test]
fn get_part_of_a_body_that_is_not_utf8_fails_to_decode() {
    assert_eq!(provider().get_part(Ok(vec![0xff]), None), Err(Error::Decode));
    assert_eq!(provider().get_part(Ok(vec![0xff]), Some(part("1", "LM358"))), Err(Error::Decode));
}

#[test]
fn get_part_hands_on_a_failed_exchange() {
    assert_eq!(provider().get_part(Err(Error::Transport), None), Err(Error::Transport));
    assert_eq!(
        provider().get_part(Err(Error::Transport), Some(part("1", "LM358"))),
        Err(Error::Transport)
    );
}

#[test]
fn missing_part_is_not_found_in_json_and_undecodable_else() {
    assert_eq!(BomProvider::missing_part(true), Error::NotFound);
    assert_eq!(BomProvider::missing_part(false), Error::Decode);
}

#[test]
fn find_parts_files_the_last_match_and_keeps_the_absent_absent() {
    let request = BomProvider::match_request(mpns(&["LM358", "UNKNOWN-XYZ"]));
    let part_a = part("a", "LM358");
    let part_b = part("b", "LM358N");
    let answer = response(vec![result(vec![part_a, part_b.clone()]), result(vec![])]);
    let found = provider().find_parts(&request, body(), Some(answer)).unwrap();
    assert_eq!(found.len(), 2);
    assert_eq!(found.get("LM358"), Some(&Some(part_b)));
    assert_eq!(found.get("UNKNOWN-XYZ"), Some(&None));
}

#[test]
fn find_parts_has_one_key_for_each_distinct_part_number() {
    let request = BomProvider::match_request(mpns(&["B", "A", "B", "C", "A"]));
    let answer = response(vec![
        result(vec![part("1", "B")]),
        result(vec![part("2", "A")]),
        result(vec![part("3", "B")]),
        result(vec![]),
        result(vec![]),
    ]);
    let found = provider().find_parts(&request, body(), Some(answer)).unwrap();
    assert_eq!(found.len(), 3);
    assert!(found.contains_key("A"));
    assert!(found.contains_key("B"));
    assert!(found.contains_key("C"));
    assert!(!found.contains_key("unknown"));
}

#[test]
fn find_parts_keeps_the_later_result_of_a_repeated_part_number() {
    let request = BomProvider::match_request(mpns(&["B", "A", "B", "A"]));
    let answer = response(vec![
        result(vec![part("1", "B")]),
        result(vec![part("2", "A")]),
        result(vec![part("3", "B")]),
        result(vec![]),
    ]);
    let found = provider().find_parts(&request, body(), Some(answer)).unwrap();
    assert_eq!(found.get("B"), Some(&Some(part("3", "B"))));
    assert_eq!(found.get("A"), Some(&None));
}

#[test]
fn find_parts_takes_the_key_from_the_request_that_was_sent() {
    let request = BomProvider::match_request(mpns(&["lm358"]));
    let mut answer = response(vec![result(vec![part("1", "LM358")])]);
    answer.request = BomProvider::match_request(mpns(&["LM358"]));
    let found = provider().find_parts(&request, body(), Some(answer)).unwrap();
    assert_eq!(found.len(), 1);
    assert_eq!(found.get("lm358"), Some(&Some(part("1", "LM358"))));
    assert_eq!(found.get("LM358"), None);
}

#[test]
fn find_parts_files_a_result_without_a_query_under_unknown() {
    let request = BomProvider::match_request(mpns(&["LM358"]));
    let answer = response(vec![result(vec![]), result(vec![part("9", "X")])]);
    let found = provider().find_parts(&request, body(), Some(answer)).unwrap();
    assert_eq!(found.len(), 2);
    assert_eq!(found.get("LM358"), Some(&None));
    assert_eq!(found.get("unknown"), Some(&Some(part("9", "X"))));
}

#[test]
fn find_parts_files_a_result_of_a_query_without_part_number_under_unknown() {
    let request = PartsMatchRequest {
        queries: vec![PartsMatchQuery { q: Some("op amp".to_string()), ..PartsMatchQuery::new() }],
        exact_only: false,
    };
    let answer = response(vec![result(vec![part("9", "X")])]);
    let found = provider().find_parts(&request, body(), Some(answer)).unwrap();
    assert_eq!(found.len(), 1);
    assert_eq!(found.get("unknown"), Some(&Some(part("9", "X"))));
}

#[test]
fn find_parts_has_no_key_for_a_query_without_result() {
    let request = BomProvider::match_request(mpns(&["A", "B"]));
    let answer = response(vec![result(vec![part("1", "A")])]);
    let found = provider().find_parts(&request, body(), Some(answer)).unwrap();
    assert_eq!(found.len(), 1);
    assert_eq!(found.get("A"), Some(&Some(part("1", "A"))));
    assert_eq!(found.get("B"), None);
}

#[test]
fn find_parts_of_no_results_is_empty() {
    let request = BomProvider::match_request(vec![]);
    let found = provider().find_parts(&request, body(), Some(response(vec![]))).unwrap();
    assert!(found.is_empty());
}

#[test]
fn find_parts_does_not_read_the_error_of_a_result() {
    let request = BomProvider::match_request(mpns(&["A"]));
    let mut failed = result(vec![]);
    failed.error = Some("bad query".to_string());
    let found = provider().find_parts(&request, body(), Some(response(vec![failed]))).unwrap();
    assert_eq!(found.get("A"), Some(&None));
}

#[test]
fn find_parts_hands_on_a_failed_exchange_and_files_nothing() {
    let request = BomProvider::match_request(mpns(&["A"]));
    let answer = response(vec![result(vec![part("1", "A")])]);
    assert_eq!(
        provider().find_parts(&request, Err(Error::Transport), Some(answer)).err(),
        Some(Error::Transport)
    );
    assert_eq!(
        provider().find_parts(&request, Err(Error::Transport), None).err(),
        Some(Error::Transport)
    );
}

#[test]
fn find_parts_without_a_response_document_fails_to_decode() {
    let request = BomProvider::match_request(mpns(&["A"]));
    assert_eq!(provider().find_parts(&request, body(), None).err(), Some(Error::Decode));
    assert_eq!(
        provider().find_parts(&request, Ok(b"{}".to_vec()), None).err(),
        Some(Error::Decode)
    );
}

#[test]
fn find_parts_of_a_body_that_is_not_utf8_fails_to_decode() {
    let request = BomProvider::match_request(mpns(&["A"]));
    let answer = response(vec![result(vec![part("1", "A")])]);
    assert_eq!(
        provider().find_parts(&request, Ok(vec![0xc0]), Some(answer)).err(),
        Some(Error::Decode)
    );
}

#[test]
fn response_without_error_messages_reports_no_failure() {
    assert_eq!(response(vec![]).reported_failure(), None);
    assert_eq!(response(vec![result(vec![]), result(vec![part("1", "A")])]).reported_failure(), None);
}

#[test]
fn response_with_an_error_message_reports_a_protocol_failure() {
    let mut failed = result(vec![part("1", "A")]);
    failed.error = Some("Invalid query".to_string());
    assert_eq!(
        response(vec![result(vec![]), failed, result(vec![])]).reported_failure(),
        Some(Error::Protocol)
    );
    let mut empty_message = result(vec![]);
    empty_message.error = Some(String::new());
    assert_eq!(response(vec![empty_message]).reported_failure(), Some(Error::Protocol));
}

#[test]
fn address_that_was_written_is_handed_on() {
    let written = url::Url::parse("http://example.net/a?b=c").map(String::from);
    assert_eq!(
        frunze_api::bom::web_address::address_or_failure(written),
        Ok("http://example.net/a?b=c".to_string())
    );
}

#[test]
fn address_that_was_not_written_is_a_transport_failure() {
    let refused = url::Url::parse("example").map(String::from);
    assert!(refused.is_err());
    assert_eq!(frunze_api::bom::web_address::address_or_failure(refused), Err(Error::Transport));
}

#[test]
fn key_of_a_result_is_the_part_number_of_its_query() {
    let request = BomProvider::match_request(mpns(&["A", "B"]));
    assert_eq!(BomProvider::key_of(&request, 0), "A");
    assert_eq!(BomProvider::key_of(&request, 1), "B");
}

#[test]
fn key_of_a_result_without_query_or_part_number_is_unknown() {
    let mut request = BomProvider::match_request(mpns(&["A", "B"]));
    request.queries[1].mpn = None;
    assert_eq!(BomProvider::key_of(&request, 1), "unknown");
    assert_eq!(BomProvider::key_of(&request, 2), "unknown");
    assert_eq!(BomProvider::key_of(&request, usize::MAX), "unknown");
}

#[test]
fn part_url_is_the_same_for_a_base_with_and_without_final_slash() {
    let with = BomProvider::new("http://octopart.com/api/v3/".to_string(), "KEY".to_string());
    assert_eq!(with.part_url("1234"), provider().part_url("1234"));
    let request = BomProvider::match_request(mpns(&["LM358"]));
    assert_eq!(with.match_url(&request), provider().match_url(&request));
}

#[test]
fn part_url_under_a_bare_host_has_one_slash() {
    let provider = BomProvider::new("http://localhost:9000/".to_string(), "K".to_string());
    assert_eq!(
        provider.part_url("7"),
        Ok("http://localhost:9000/parts/7?apikey=K&slice%5Boffers%5D=%5B0%3A1%5D".to_string())
    );
}

#[test]
fn address_within_the_reach_of_the_url_crate() {
    let params = vec![("apikey".to_string(), "KEY".to_string())];
    assert!(frunze_api::bom::web_address::is_within_reach("http://example.net/", &params));
    assert!(frunze_api::bom::web_address::is_within_reach("", &vec![]));
}

#[test]
fn written_address_is_what_the_url_crate_writes() {
    let params = vec![("a b".to_string(), "é&=".to_string()), ("c".to_string(), String::new())];
    let expected =
        url::Url::parse_with_params("http://example.net/p q?x=1#frag", &params).unwrap();
    assert_eq!(
        frunze_api::bom::web_address::write_address("http://example.net/p q?x=1#frag", &params),
        Ok(expected.as_str().to_string())
    );
    assert_eq!(expected.as_str(), "http://example.net/p%20q?x=1&a+b=%C3%A9%26%3D&c=#frag");
    assert_eq!(
        frunze_api::bom::web_address::write_address("no address", &params),
        Err(Error::Transport)
    );
}
