use os_query_builder_rs::compound_query::boolean::Bool;
use os_query_builder_rs::misc::query_field::QueryField;
use os_query_builder_rs::model::Query;
use os_query_builder_rs::term::exists_query::Exists;

#[test]
fn exists_test_example_from_docs_test() {
    let exists = Exists::new().field("description".to_string());
    let query = Query::new().query(QueryField::Exists(exists));

    let actual: serde_json::Value = serde_json::from_str(&query.to_json().render()).unwrap();
    let expected: serde_json::Value = serde_json::from_str(
        r#"{
      "query": {
        "exists": {
          "field": "description"
        }
      }
    }"#,
    )
    .unwrap();

    assert_eq!(actual, expected);
}

#[test]
fn example_from_docs_with_bool_compound_query_test() {
    let exists = Exists::new().field("description".to_string());
    let bool_query = Bool::new().must_not(vec![exists.into_query_field()]);

    let query = Query::new().query(QueryField::Bool(bool_query));

    let actual: serde_json::Value = serde_json::from_str(&query.to_json().render()).unwrap();
    let expected: serde_json::Value = serde_json::from_str(
        r#"{
      "query": {
        "bool": {
          "must_not": [
            {
              "exists": {
                "field": "description"
              }
            }
         ]
        }
      }
    }"#,
    )
    .unwrap();

    assert_eq!(actual, expected);
}

#[test]
fn test_index_test() {
    let exists = Exists::new().field("catalogue_id".to_string());
    let bool_query = Bool::new().must(vec![exists.into_query_field()]);

    let query = Query::new().query(QueryField::Bool(bool_query));

    let actual: serde_json::Value = serde_json::from_str(&query.to_json().render()).unwrap();
    let expected: serde_json::Value = serde_json::from_str(
        r#"{
      "query": {
        "bool": {
          "must": [
            {
              "exists": {
                "field": "catalogue_id"
              }
            }
         ]
        }
      }
    }"#,
    )
    .unwrap();

    assert_eq!(actual, expected);
}
