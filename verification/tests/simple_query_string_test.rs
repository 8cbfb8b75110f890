use os_query_builder_rs::full_text::simple_query_string::SimpleQueryString;
use os_query_builder_rs::misc::query_field::QueryField;
use os_query_builder_rs::model::Query;

#[test]
fn simple_query_string_test() {
    let simple_query_string = SimpleQueryString::new()
        .fields(vec!["catalogue_name".to_string()])
        .field("brand".to_string())
        .query("\u{421}\u{430}\u{43b}\u{44c}\u{43d}\u{438}\u{43a}\u{438}+".to_string())
        .analyze_wildcard(true)
        .fuzzy_max_expansions(60u64)
        .fuzzy_transpositions(true)
        .lenient(true)
        .minimum_should_match("2".to_string())
        .auto_generate_synonyms_phrase_query(false);

    let actual: serde_json::Value =
        serde_json::from_str(&simple_query_string.to_json().render()).unwrap();
    let expected: serde_json::Value = serde_json::from_str(
        "{
        \"analyze_wildcard\": true,
        \"auto_generate_synonyms_phrase_query\": false,
        \"fields\": [
            \"catalogue_name\",
            \"brand\"
        ],
        \"fuzzy_max_expansions\": 60,
        \"fuzzy_transpositions\": true,
        \"lenient\": true,
        \"minimum_should_match\": \"2\",
        \"query\": \"\u{421}\u{430}\u{43b}\u{44c}\u{43d}\u{438}\u{43a}\u{438}+\"
    }",
    )
    .unwrap();

    assert_eq!(actual, expected);
}

#[test]
fn query_simple_query_string_test() {
    let simple_query_string = SimpleQueryString::new()
        .fields(vec!["catalogue_name".to_string()])
        .field("brand".to_string())
        .query("\u{421}\u{430}\u{43b}\u{44c}\u{43d}\u{438}\u{43a}\u{438}+".to_string())
        .analyze_wildcard(true)
        .fuzzy_max_expansions(60u64)
        .fuzzy_transpositions(true)
        .lenient(true)
        .minimum_should_match("2".to_string())
        .auto_generate_synonyms_phrase_query(false);

    let query = Query::new()
        .query(QueryField::SimpleQueryString(simple_query_string))
        .size(20);

    let actual: serde_json::Value = serde_json::from_str(&query.to_json().render()).unwrap();
    let expected: serde_json::Value = serde_json::from_str(
        "{
        \"query\": {
            \"simple_query_string\": {
                \"analyze_wildcard\": true,
                \"auto_generate_synonyms_phrase_query\": false,
                \"fields\": [
                    \"catalogue_name\",
                    \"brand\"
                ],
                \"fuzzy_max_expansions\": 60,
                \"fuzzy_transpositions\": true,
                \"lenient\": true,
                \"minimum_should_match\": \"2\",
                \"query\": \"\u{421}\u{430}\u{43b}\u{44c}\u{43d}\u{438}\u{43a}\u{438}+\"
            }
        },
        \"size\": 20
    }",
    )
    .unwrap();

    assert_eq!(actual, expected);
}
