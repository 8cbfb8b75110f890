use os_query_builder_rs::query::aggs::{AggregateTermsValues, Aggregates};

#[test]
fn test() {
    let terms = AggregateTermsValues { field: "brand.keyword".to_string(), size: Some(500) };
    let aggs = Aggregates::new()
        .field("brands".to_string())
        .value(terms.to_json());
    let json: serde_json::Value = serde_json::from_str(&aggs.to_json().render()).unwrap();
    println!("{}", json);
    let expected: serde_json::Value = serde_json::from_str(
        r#"{"brands":{"terms":{"field":"brand.keyword","size":500}}}"#,
    )
    .unwrap();
    assert_eq!(expected, json);
}
