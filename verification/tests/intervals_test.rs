use os_query_builder_rs::intervals::all_of::AllOfRule;
use os_query_builder_rs::intervals::any_of::AnyOfRule;
use os_query_builder_rs::intervals::filter::FilterRule;
use os_query_builder_rs::intervals::fuzzy::FuzzyRule;
use os_query_builder_rs::intervals::interval::Intervals;
use os_query_builder_rs::intervals::interval_rule::IntervalRule;
use os_query_builder_rs::intervals::match_rule::MatchRule;
use os_query_builder_rs::intervals::prefix::PrefixRule;
use os_query_builder_rs::intervals::wildcard::WildcardRule;
use os_query_builder_rs::misc::script::Script;
use os_query_builder_rs::model::Query;

#[test]
fn intervals_test_first_example_from_docs_test() {
    let match_any_of_1 = MatchRule::new().query("hash map".to_string());
    let match_any_of_2 = MatchRule::new().query("hash table".to_string());
    let any_of_rule = AnyOfRule::new().intervals(vec![match_any_of_2.into_interval_rule(), match_any_of_1.into_interval_rule()]);
    let match_all_of = MatchRule::new()
        .query("key-value pairs".to_string())
        .max_gaps(0)
        .ordered(true);
    let all_of_rule = AllOfRule::new()
        .ordered(true)
        .intervals(vec![IntervalRule::Match(match_all_of), IntervalRule::AnyOf(any_of_rule)]);

    let intervals = Intervals::new()
        .field("title".to_string())
        .intervals(all_of_rule.into_interval_rule());
    let query = Query::new().query(intervals.into_query_field());

    let actual_json = serde_json::from_str::<serde_json::Value>(&query.to_json().render()).unwrap();
    let excepted_json = serde_json::from_str::<serde_json::Value>(r#"{
      "query": {
        "intervals": {
          "title": {
            "all_of": {
              "ordered": true,
              "interval": [
                {
                  "match": {
                    "query": "key-value pairs",
                    "max_gaps": 0,
                    "ordered": true
                  }
                },
                {
                  "any_of": {
                    "interval": [
                      {
                        "match": {
                          "query": "hash table"
                        }
                      },
                      {
                        "match": {
                          "query": "hash map"
                        }
                      }
                    ]
                  }
                }
              ]
            }
          }
        }
      }
    }"#).unwrap();

    assert_eq! (actual_json, excepted_json);
}


#[test]
fn second_example_from_docs_test() {

    let filter_match_rule = MatchRule::new().query("efficiently".to_string());
    let interval_match_rule = MatchRule::new()
        .query("pairs hash".to_string())
        .max_gaps(5)
        .filter(FilterRule::NotContaining(IntervalRule::Match(filter_match_rule)));

    let intervals = Intervals::new()
        .field("title".to_string())
        .intervals(interval_match_rule.into_interval_rule());
    let query = Query::new().query(intervals.into_query_field());

    let actual_json = serde_json::from_str::<serde_json::Value>(&query.to_json().render()).unwrap();
    let excepted_json = serde_json::from_str::<serde_json::Value>(r#"{
      "query": {
        "intervals" : {
          "title" : {
            "match" : {
              "query" : "pairs hash",
              "max_gaps" : 5,
              "filter" : {
                "not_containing" : {
                  "match" : {
                    "query" : "efficiently"
                  }
                }
              }
            }
          }
        }
      }
    }"#).unwrap();

    assert_eq! (actual_json, excepted_json);
}


#[test]
fn example_with_script_from_docs_test() {

    let script_value = Script::new()
        .source("interval.start > 5 && interval.end < 8 && interval.gaps == 0".to_string());
    let interval_match_rule = MatchRule::new()
        .query("map hash".to_string())
        .filter(FilterRule::Script(script_value));

    let intervals = Intervals::new()
        .field("title".to_string())
        .intervals(interval_match_rule.into_interval_rule());
    let query = Query::new().query(intervals.into_query_field());

    let actual_json = serde_json::from_str::<serde_json::Value>(&query.to_json().render()).unwrap();
    let excepted_json = serde_json::from_str::<serde_json::Value>(r#"{
      "query": {
        "intervals" : {
          "title" : {
            "match" : {
              "query" : "map hash",
              "filter" : {
                "script" : {
                  "source" : "interval.start > 5 && interval.end < 8 && interval.gaps == 0"
                }
              }
            }
          }
        }
      }
    }"#).unwrap();

    assert_eq! (actual_json, excepted_json);
}


#[test]
fn example_minimization_from_docs_test() {

    let interval_match_rule = MatchRule::new()
        .query("a c".to_string());
    let interval_match_rule = MatchRule::new()
        .query("d".to_string())
        .filter(FilterRule::ContainedBy(IntervalRule::Match(interval_match_rule)));

    let intervals = Intervals::new()
        .field("my_text".to_string())
        .intervals(interval_match_rule.into_interval_rule());
    let query = Query::new().query(intervals.into_query_field());

    let actual_json = serde_json::from_str::<serde_json::Value>(&query.to_json().render()).unwrap();
    let excepted_json = serde_json::from_str::<serde_json::Value>(r#"{
      "query": {
        "intervals" : {
          "my_text" : {
            "match" : {
              "query" : "d",
              "filter" : {
                "contained_by" : {
                  "match" : {
                    "query" : "a c"
                  }
                }
              }
            }
          }
        }
      }
    }"#).unwrap();

    assert_eq! (actual_json, excepted_json);
}


#[test]
fn interval_with_all_of_and_nested_any_of_with_other_rules_docs_test() {

    let prefix_rule = PrefixRule::new().prefix("a c".to_string());
    let match_rule = MatchRule::new().query("d".to_string());
    let fuzzy_rule = FuzzyRule::new().term("term".to_string());
    let wildcard_rule = WildcardRule::new().pattern("d".to_string());


    let a = vec![IntervalRule::Match(match_rule), prefix_rule.into_interval_rule(), fuzzy_rule.into_interval_rule(), wildcard_rule.into_interval_rule()];
    let any_of_rule = AnyOfRule::new().intervals(a);

    let all_of_rule = AllOfRule::new().intervals(vec![any_of_rule.into_interval_rule()]);
    let intervals = Intervals::new()
        .field("my_text".to_string())
        .intervals(all_of_rule.into_interval_rule());
    let query = Query::new().query(intervals.into_query_field());

    let actual_json = serde_json::from_str::<serde_json::Value>(&query.to_json().render()).unwrap();
    let excepted_json = serde_json::from_str::<serde_json::Value>(r#"{
      "query": {
        "intervals" : {
          "my_text" : {
            "all_of" : {
              "interval": [
                {
                  "any_of": {
                    "interval": [
                      {
                        "match": {
                          "query": "d"
                        }
                      },
                      {
                        "prefix": {
                          "prefix": "a c"
                        }
                      },
                      {
                        "fuzzy": {
                          "term": "term"
                        }
                      },
                      {
                        "wildcard": {
                          "pattern":"d"
                        }
                      }
                    ]
                  }
                }

              ]
            }
          }
        }
      }
    }"#).unwrap();


    assert_eq! (actual_json, excepted_json);
}
