use os_query_builder_rs::json::Decimal;
use os_query_builder_rs::misc::query_field::QueryField;
use os_query_builder_rs::misc::rewrite::Rewrite;
use os_query_builder_rs::model::Query;
use os_query_builder_rs::term::prefix::Prefix;

#[test]
fn prefix_example_from_docs() {
    let prefix = Prefix::new()
        .field("speaker".to_string())
        .value("KING H".to_string());
    let query = Query::new().query(QueryField::Prefix(prefix));

    let actual: serde_json::Value = serde_json::from_str(&query.to_json().render()).unwrap();
    let expected: serde_json::Value = serde_json::from_str(
        r#"{
      "query": {
        "prefix": {
          "speaker": {
            "value": "KING H"
          }
        }
      }
    }"#,
    )
    .unwrap();

    assert_eq!(actual, expected);
}

#[test]
fn prefix_with_main_field() {
    let prefix = Prefix::new()
        .field("catalogue_name".to_string())
        .value("\u{41a}\u{440}\u{44b}\u{43b}\u{43e} \u{437}\u{430}\u{434}\u{43d}\u{435}\u{435}".to_string())
        .boost(Decimal::new(2, 0, 1))
        .case_insensitive(true)
        .rewrite(Rewrite::ConstantScoreBoolean);
    let query = Query::new().query(QueryField::Prefix(prefix));

    let actual: serde_json::Value = serde_json::from_str(&query.to_json().render()).unwrap();
    let expected: serde_json::Value = serde_json::from_str(
        "{
      \"query\": {
        \"prefix\": {
          \"catalogue_name\": {
            \"value\": \"\u{41a}\u{440}\u{44b}\u{43b}\u{43e} \u{437}\u{430}\u{434}\u{43d}\u{435}\u{435}\",
            \"boost\": 2.0,
            \"case_insensitive\": true,
            \"rewrite\": \"constant_score_boolean\"
          }
        }
      }
    }",
    )
    .unwrap();

    assert_eq!(actual, expected);
}
