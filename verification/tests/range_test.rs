use os_query_builder_rs::json::Decimal;
use os_query_builder_rs::misc::relation::Relation;
use os_query_builder_rs::model::Query;
use os_query_builder_rs::term::range::Range;
use os_query_builder_rs::term::term_type::TermType;

#[test]
fn simple_example_from_docs_test() {
    let range = Range::new()
        .field("line_id".to_string())
        .gte(TermType::Int(10))
        .lte(TermType::Int(20));
    let query = Query::new().query(range.into_query_field());

    let actual_json = serde_json::from_str::<serde_json::Value>(&query.to_json().render()).unwrap();
    let excepted_json = serde_json::from_str::<serde_json::Value>(r#"{
        "query": {
            "range": {
                "line_id": {
                    "gte": 10,
                    "lte": 20
                }
            }
        }
    }"#).unwrap();

    assert_eq!(actual_json, excepted_json);
}


#[test]
fn with_date_example_from_docs_test() {
    let range = Range::new()
        .field("created".to_string())
        .gte(TermType::Text("2019/01/01".to_string()))
        .lte(TermType::Text("2019/12/31".to_string()));
    let query = Query::new().query(range.into_query_field());

    let actual_json = serde_json::from_str::<serde_json::Value>(&query.to_json().render()).unwrap();
    let excepted_json = serde_json::from_str::<serde_json::Value>(r#"{
        "query": {
            "range": {
                "created": {
                    "gte": "2019/01/01",
                    "lte": "2019/12/31"
                }
            }
        }
    }"#).unwrap();

    assert_eq!(actual_json, excepted_json);
}



#[test]
fn with_format_date_example_from_docs_test() {
    let range = Range::new()
        .field("created".to_string())
        .gte(TermType::Text("01/01/2022".to_string()))
        .lte(TermType::Text("31/12/2022".to_string()))
        .format("dd/MM/yyyy".to_string());
    let query = Query::new().query(range.into_query_field());

    let actual_json = serde_json::from_str::<serde_json::Value>(&query.to_json().render()).unwrap();
    let excepted_json = serde_json::from_str::<serde_json::Value>(r#"{
        "query": {
            "range": {
                "created": {
                    "gte": "01/01/2022",
                    "lte": "31/12/2022",
                     "format": "dd/MM/yyyy"
                }
            }
        }
    }"#).unwrap();

    assert_eq!(actual_json, excepted_json);
}



#[test]
fn with_missing_date_components_date_example_from_docs_test() {
    let range = Range::new()
        .field("created".to_string())
        .gte(TermType::Text("2022".to_string()))
        .lte(TermType::Text("2022-12-31".to_string()));
    let query = Query::new().query(range.into_query_field());

    let actual_json = serde_json::from_str::<serde_json::Value>(&query.to_json().render()).unwrap();
    let excepted_json = serde_json::from_str::<serde_json::Value>(r#"{
        "query": {
            "range": {
                "created": {
                    "gte": "2022",
                    "lte": "2022-12-31"
                }
            }
        }
    }"#).unwrap();

    assert_eq!(actual_json, excepted_json);
}


#[test]
fn first_with_relative_dates_example_from_docs_test() {
    let range = Range::new()
        .field("created".to_string())
        .gte(TermType::Text("2019/01/01||-1y-1d".to_string()));
    let query = Query::new().query(range.into_query_field());

    let actual_json = serde_json::from_str::<serde_json::Value>(&query.to_json().render()).unwrap();
    let excepted_json = serde_json::from_str::<serde_json::Value>(r#"{
        "query": {
            "range": {
                "created": {
                    "gte": "2019/01/01||-1y-1d"
                }
            }
        }
    }"#).unwrap();

    assert_eq!(actual_json, excepted_json);
}


#[test]
fn second_with_relative_dates_example_from_docs_test() {
    let range = Range::new()
        .field("created".to_string())
        .gte(TermType::Text("now-1y/M".to_string()));
    let query = Query::new().query(range.into_query_field());

    let actual_json = serde_json::from_str::<serde_json::Value>(&query.to_json().render()).unwrap();
    let excepted_json = serde_json::from_str::<serde_json::Value>(r#"{
        "query": {
            "range": {
                "created": {
                    "gte": "now-1y/M"
                }
            }
        }
    }"#).unwrap();

    assert_eq!(actual_json, excepted_json);
}


#[test]
fn with_time_zone_example_from_docs_test() {
    let range = Range::new()
        .field("created".to_string())
        .gte(TermType::Text("2022-04-17T06:00:00".to_string()))
        .time_zone("-04:00".to_string());
    let query = Query::new().query(range.into_query_field());

    let actual_json = serde_json::from_str::<serde_json::Value>(&query.to_json().render()).unwrap();
    let excepted_json = serde_json::from_str::<serde_json::Value>(r#"{
        "query": {
            "range": {
                "created": {
                    "time_zone": "-04:00",
                    "gte": "2022-04-17T06:00:00"
                }
            }
        }
    }"#).unwrap();

    assert_eq!(actual_json, excepted_json);
}

#[test]
fn all_fields_for_range_int_values_test() {
    let range = Range::new()
        .field("product_id".to_string())
        .gt(TermType::Int(46118215))
        .gte(TermType::Int(46118216))
        .lt(TermType::Int(46118456))
        .lte(TermType::Int(46118455))
        .boost(Decimal::new(10, 0, 1))
        .relation(Relation::Intersects);
    let query = Query::new().query(range.into_query_field());

    let actual_json = serde_json::from_str::<serde_json::Value>(&query.to_json().render()).unwrap();
    let excepted_json = serde_json::from_str::<serde_json::Value>(r#"{
        "query": {
           "range": {
                "product_id": {
                    "gt": 46118215,
                    "gte": 46118216,
                    "lt": 46118456,
                    "lte": 46118455,
                    "boost": 10.0,
                    "relation": "INTERSECTS"
                }
            }
        }
    }"#).unwrap();

    assert_eq!(actual_json, excepted_json);
}
