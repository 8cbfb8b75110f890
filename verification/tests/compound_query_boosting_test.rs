use os_query_builder_rs::compound_query::boolean::Bool;
use os_query_builder_rs::compound_query::boosting::Boosting;
use os_query_builder_rs::full_text::match_query::Match;
use os_query_builder_rs::json::{Decimal, Json};
use os_query_builder_rs::model::Query;

#[test]
fn compound_query_boosting_test_example_docs_test() {

    let match_positive = Match::new()
        .field("article_name".to_string())
        .value(Json::text("pitcher"));

    let match_negative = Match::new()
        .field("article_name".to_string())
        .value(Json::text("glass crystal water"));

    let boosting = Boosting::new(match_positive.into_query_field(), match_negative.into_query_field())
        .negative_boost(Decimal::new(0, 1, 1));

    let query = Query::new().query(boosting.into_query_field());
    let actual_json = serde_json::from_str::<serde_json::Value>(&query.to_json().render()).unwrap();
    let excepted_json = serde_json::from_str::<serde_json::Value>(r#"{
        "query": {
            "boosting": {
                "positive": {
                    "match": {
                        "article_name": {
                            "query": "pitcher"
                        }
                    }
                },
                "negative": {
                    "match": {
                        "article_name": {
                            "query": "glass crystal water"
                        }
                    }
                },
                "negative_boost": 0.1
            }
        }
    }"#).unwrap();
    assert_eq!(actual_json, excepted_json);
}

#[test]
fn compound_query_boosting_test_simple_test() {

    let match_positive = Match::new()
        .field("product_id".to_string())
        .value(Json::text("46118216"));

    let match_negative = Match::new()
        .field("name".to_string())
        .value(Json::text("Деталь"));

    let boosting = Boosting::new(match_positive.into_query_field(), match_negative.into_query_field())
        .negative_boost(Decimal::new(0, 1, 1));

    let query = Query::new().query(boosting.into_query_field());
    let actual_json = serde_json::from_str::<serde_json::Value>(&query.to_json().render()).unwrap();
    let excepted_json = serde_json::from_str::<serde_json::Value>(r#"{
        "query": {
            "boosting": {
                "positive": {
                    "match": {
                        "product_id": {
                            "query": "46118216"
                        }
                    }
                },
                "negative": {
                    "match": {
                        "name": {
                            "query": "Деталь"
                        }
                    }
                },
                "negative_boost": 0.1
            }
        }
    }"#).unwrap();

    assert_eq!(actual_json, excepted_json);
}


#[test]
fn with_nested_boolean_query() {

    let match_value = Match::new().field("brand".to_string()).value(Json::text("FIAT"));
    let boolean_positive = Bool::new().must(vec![match_value.into_query_field()]);

    let match_negative = Match::new()
        .field("name".to_string())
        .value(Json::text("Деталь"));

    let boosting = Boosting::new(boolean_positive.into_query_field(), match_negative.into_query_field())
        .negative_boost(Decimal::new(0, 1, 1));

    let query = Query::new().query(boosting.into_query_field());
    let actual_json = serde_json::from_str::<serde_json::Value>(&query.to_json().render()).unwrap();
    let excepted_json = serde_json::from_str::<serde_json::Value>(r#"{
        "query": {
            "boosting": {
                "positive": {
                    "bool": {
                        "must": [
                            {
                                "match": {
                                    "brand": {
                                        "query": "FIAT"
                                    }
                                }
                            }
                        ]
                    }
                },
                "negative": {
                    "match": {
                        "name": {
                            "query": "Деталь"
                        }
                    }
                },
                "negative_boost": 0.1
            }
        }
    }"#).unwrap();

    assert_eq!(actual_json, excepted_json);
}

#[test]
fn with_nested_with_negative_boolean_query_() {
    let match_value = Match::new().field("brand".to_string()).value(Json::text("FIAT"));
    let boolean_negative = Bool::new().must(vec![match_value.into_query_field()]);

    let match_positive = Match::new()
        .field("name".to_string())
        .value(Json::text("Деталь"));

    let boosting = Boosting::new(match_positive.into_query_field(), boolean_negative.into_query_field())
        .negative_boost(Decimal::new(0, 1, 1));

    let query = Query::new().query(boosting.into_query_field());
    let actual_json = serde_json::from_str::<serde_json::Value>(&query.to_json().render()).unwrap();
    let excepted_json = serde_json::from_str::<serde_json::Value>(r#"{
        "query": {
            "boosting": {
                "positive": {
                    "match": {
                        "name": {
                            "query": "Деталь"
                        }
                    }
                },
                "negative": {
                    "bool": {
                        "must": [
                            {
                                "match": {
                                    "brand": {
                                        "query": "FIAT"
                                    }
                                }
                            }
                        ]
                    }
                },
                "negative_boost": 0.1
            }
        }
    }"#).unwrap();

    assert_eq!(actual_json, excepted_json);
}
