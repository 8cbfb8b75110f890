use os_query_builder_rs::full_text::match_phrase_prefix::MatchPhrasePrefix;
use os_query_builder_rs::json::Json;
use os_query_builder_rs::misc::query_field::QueryField;
use os_query_builder_rs::model::Query;

#[test]
fn full_match_phrase_prefix_test() {
    let match_phrase_prefix = MatchPhrasePrefix::new()
        .field("brand".to_string())
        .query(Json::text("DPH"))
        .max_expansions(60u64)
        .analyzer("stop".to_string())
        .slop(3u64);
    let actual: serde_json::Value =
        serde_json::from_str(&match_phrase_prefix.to_json().render()).unwrap();
    let expected: serde_json::Value = serde_json::from_str(
        r#"{
        "brand": {
            "query": "DPH",
            "analyzer": "stop",
            "slop": 3,
            "max_expansions": 60
        }
    }"#,
    )
    .unwrap();

    assert_eq!(expected, actual);
}

#[test]
fn query_match_phrase_prefix_test() {
    let match_phrase_test_test = MatchPhrasePrefix::new()
        .field("brand".to_string())
        .query(Json::text("DPH"))
        .max_expansions(60u64)
        .analyzer("stop".to_string())
        .slop(3u64);

    let query = Query::new()
        .source(vec!["brand".to_string()])
        .query(QueryField::MatchPhrasePrefix(match_phrase_test_test));

    let rendered = query.to_json().render();
    let actual: serde_json::Value = serde_json::from_str(&rendered).unwrap();
    let expected: serde_json::Value = serde_json::from_str(
        r#"{
        "query":{
            "match_phrase_prefix":{
                "brand":{
                    "query": "DPH",
                    "analyzer": "stop",
                    "slop": 3,
                    "max_expansions": 60
                }
            }
        },
        "_source":["brand"]
    }"#,
    )
    .unwrap();
    println!("{rendered}");
    assert_eq!(expected, actual);
}
