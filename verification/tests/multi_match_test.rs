use os_query_builder_rs::full_text::multi_match::MultiMatch;
use os_query_builder_rs::json::{Decimal, Json};
use os_query_builder_rs::misc::operator::Operator;
use os_query_builder_rs::misc::query_type::Type;
use os_query_builder_rs::misc::zero_terms_query::ZeroTermsQuery;

#[test]
fn multi_match_test_multi_match_test() {
    let multi_match = MultiMatch::new()
        .fields(vec!["brands".to_string(), "articles".to_string()])
        .value(Json::text("oc47"))
        .operator(Operator::And)
        .query_type(Type::BestFields)
        .boost(Decimal::new(2, 0, 1))
        .minimum_should_match("90%".to_string());
    let expected: serde_json::Value = serde_json::from_str(
        r#"{"boost":2.0,"fields":["brands","articles"],"minimum_should_match":"90%","operator":"and","query":"oc47","type":"best_fields"}"#,
    )
    .unwrap();
    let actual: serde_json::Value =
        serde_json::from_str(&multi_match.to_json().render()).unwrap();
    assert_eq!(expected, actual);
}

#[test]
fn multi_match_all_fields_test() {
    let multi_match = MultiMatch::new()
        .fields(vec!["brands".to_string(), "articles".to_string()])
        .value(Json::text("oc47"))
        .operator(Operator::And)
        .query_type(Type::BestFields)
        .boost(Decimal::new(2, 0, 1))
        .minimum_should_match("90%".to_string())
        .lenient(true)
        .zero_terms_query(ZeroTermsQuery::All)
        .fuzzy_transpositions(false)
        .auto_generate_synonyms_phrase_query(true);
    let expected: serde_json::Value = serde_json::from_str(
        r#"{
        "boost":2.0,
        "fields":["brands","articles"],
        "minimum_should_match":"90%",
        "operator":"and",
        "query":"oc47",
        "type":"best_fields",
        "lenient": true,
        "zero_terms_query": "all",
        "fuzzy_transpositions": false,
        "auto_generate_synonyms_phrase_query": true
    }"#,
    )
    .unwrap();
    let actual: serde_json::Value =
        serde_json::from_str(&multi_match.to_json().render()).unwrap();
    assert_eq!(expected, actual);
}
