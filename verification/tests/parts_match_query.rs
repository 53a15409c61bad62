use frunze_api::bom::octopart::parts_match_query::PartsMatchQuery;

#[test]
fn new_query_filters_on_nothing() {
    let query = PartsMatchQuery::new();
    assert_eq!(query.q, None);
    assert_eq!(query.mpn, None);
    assert_eq!(query.brand, None);
    assert_eq!(query.sku, None);
    assert_eq!(query.seller, None);
    assert_eq!(query.mpn_or_sku, None);
    assert_eq!(query.start, 0);
    assert_eq!(query.limit, 10);
    assert_eq!(query.reference, None);
}

#[test]
fn with_mpn_sets_the_part_number_only() {
    let query = PartsMatchQuery::new().with_mpn("LM358".to_string());
    let expected = PartsMatchQuery { mpn: Some("LM358".to_string()), ..PartsMatchQuery::new() };
    assert_eq!(query, expected);
}

#[test]
fn with_limit_sets_the_limit_only() {
    let query = PartsMatchQuery::new().with_limit(3);
    let expected = PartsMatchQuery { limit: 3, ..PartsMatchQuery::new() };
    assert_eq!(query, expected);
}

#[test]
fn builders_chain() {
    let query = PartsMatchQuery::new().with_mpn("NE555".to_string()).with_limit(1);
    assert_eq!(query.mpn, Some("NE555".to_string()));
    assert_eq!(query.limit, 1);
    assert_eq!(query.start, 0);
}

#[test]
fn with_mpn_replaces_an_earlier_part_number() {
    let query = PartsMatchQuery::new().with_mpn("A".to_string()).with_mpn("B".to_string());
    assert_eq!(query.mpn, Some("B".to_string()));
}

#[test]
fn json_of_a_blank_query_holds_start_and_limit_only() {
    assert_eq!(PartsMatchQuery::new().to_json(), "{\"start\":0,\"limit\":10}");
}

#[test]
fn json_of_a_query_for_a_part_number() {
    let query = PartsMatchQuery::new().with_mpn("LM358".to_string()).with_limit(1);
    assert_eq!(query.to_json(), "{\"mpn\":\"LM358\",\"start\":0,\"limit\":1}");
}

#[test]
fn json_holds_every_set_field_in_order() {
    let query = PartsMatchQuery {
        q: Some("op amp".to_string()),
        mpn: Some("LM358".to_string()),
        brand: Some("TI".to_string()),
        sku: Some("296-1395-5-ND".to_string()),
        seller: Some("Digi-Key".to_string()),
        mpn_or_sku: Some("LM358N".to_string()),
        start: 20,
        limit: 5,
        reference: Some("line 7".to_string()),
    };
    assert_eq!(
        query.to_json(),
        "{\"q\":\"op amp\",\"mpn\":\"LM358\",\"brand\":\"TI\",\"sku\":\"296-1395-5-ND\",\
         \"seller\":\"Digi-Key\",\"mpn_or_sku\":\"LM358N\",\"start\":20,\"limit\":5,\
         \"reference\":\"line 7\"}"
    );
}

#[test]
fn json_leaves_out_each_unset_field() {
    let mut query = PartsMatchQuery::new();
    query.reference = Some("r".to_string());
    assert_eq!(query.to_json(), "{\"start\":0,\"limit\":10,\"reference\":\"r\"}");
    let mut query = PartsMatchQuery::new();
    query.brand = Some("b".to_string());
    assert_eq!(query.to_json(), "{\"brand\":\"b\",\"start\":0,\"limit\":10}");
    let mut query = PartsMatchQuery::new();
    query.q = Some("x".to_string());
    query.seller = Some("s".to_string());
    assert_eq!(query.to_json(), "{\"q\":\"x\",\"seller\":\"s\",\"start\":0,\"limit\":10}");
}

#[test]
fn json_keeps_a_set_field_that_is_empty() {
    let query = PartsMatchQuery::new().with_mpn(String::new());
    assert_eq!(query.to_json(), "{\"mpn\":\"\",\"start\":0,\"limit\":10}");
}

#[test]
fn json_escapes_what_strings_cannot_hold() {
    let query = PartsMatchQuery::new().with_mpn("a\"b\\c\nd\u{1}é".to_string());
    assert_eq!(
        query.to_json(),
        "{\"mpn\":\"a\\\"b\\\\c\\nd\\u0001é\",\"start\":0,\"limit\":10}"
    );
}

#[test]
fn json_reads_back_as_the_same_members() {
    let query = PartsMatchQuery {
        q: None,
        mpn: Some("LM\"358".to_string()),
        brand: None,
        sku: Some("s,k\\u".to_string()),
        seller: None,
        mpn_or_sku: None,
        start: 4,
        limit: 17,
        reference: Some("ref".to_string()),
    };
    let value: serde_json::Value = serde_json::from_str(&query.to_json()).unwrap();
    let object = value.as_object().unwrap();
    assert_eq!(object.len(), 5);
    assert_eq!(object["mpn"].as_str(), Some("LM\"358"));
    assert_eq!(object["sku"].as_str(), Some("s,k\\u"));
    assert_eq!(object["start"].as_u64(), Some(4));
    assert_eq!(object["limit"].as_u64(), Some(17));
    assert_eq!(object["reference"].as_str(), Some("ref"));
    assert!(!object.contains_key("q"));
    assert!(!object.contains_key("brand"));
    assert!(!object.contains_key("seller"));
    assert!(!object.contains_key("mpn_or_sku"));
}

#[test]
fn window_within_the_limits_of_the_catalog() {
    assert!(PartsMatchQuery::new().within_limits());
    assert!(PartsMatchQuery::new().with_limit(20).within_limits());
    assert!(PartsMatchQuery::new().with_limit(0).within_limits());
    let mut query = PartsMatchQuery::new().with_limit(20);
    query.start = 80;
    assert!(query.within_limits());
}

#[test]
fn window_beyond_the_limits_of_the_catalog() {
    assert!(!PartsMatchQuery::new().with_limit(21).within_limits());
    assert!(!PartsMatchQuery::new().with_limit(u32::MAX).within_limits());
    let mut query = PartsMatchQuery::new().with_limit(20);
    query.start = 81;
    assert!(!query.within_limits());
    let mut query = PartsMatchQuery::new().with_limit(1);
    query.start = u32::MAX;
    assert!(!query.within_limits());
    let mut query = PartsMatchQuery::new().with_limit(0);
    query.start = 101;
    assert!(!query.within_limits());
}

fn read_back(text: &str) -> PartsMatchQuery {
    let value: serde_json::Value = serde_json::from_str(text).unwrap();
    let object = value.as_object().unwrap();
    let filter = |key: &str| object.get(key).map(|member| member.as_str().unwrap().to_string());
    let number = |key: &str| object[key].as_u64().unwrap() as u32;
    PartsMatchQuery {
        q: filter("q"),
        mpn: filter("mpn"),
        brand: filter("brand"),
        sku: filter("sku"),
        seller: filter("seller"),
        mpn_or_sku: filter("mpn_or_sku"),
        start: number("start"),
        limit: number("limit"),
        reference: filter("reference"),
    }
}

#[test]
fn json_reads_back_as_the_query_for_every_choice_of_set_fields() {
    for choice in 0u32..128 {
        let set = |bit: u32, text: &str| {
            if choice & (1 << bit) != 0 {
                Some(text.to_string())
            } else {
                None
            }
        };
        let query = PartsMatchQuery {
            q: set(0, "free \"text\""),
            mpn: set(1, "LM358"),
            brand: set(2, "T\\I"),
            sku: set(3, ""),
            seller: set(4, "Digi-Key, Inc."),
            mpn_or_sku: set(5, "µA741\n"),
            start: choice,
            limit: 20 - choice % 21,
            reference: set(6, "{\"line\":7}"),
        };
        let text = query.to_json();
        assert_eq!(read_back(&text), query);
        let members = serde_json::from_str::<serde_json::Value>(&text).unwrap();
        assert_eq!(members.as_object().unwrap().len() as u32, 2 + choice.count_ones());
    }
}
