//! Exact wire-text checks: these compare the rendered string itself, so
//! key order, casing and number formatting are all pinned.
use os_query_builder_rs::compound_query::boolean::Bool;
use os_query_builder_rs::compound_query::boosting::Boosting;
use os_query_builder_rs::compound_query::disjunction_max::DisMax;
use os_query_builder_rs::full_text::match_query::Match;
use os_query_builder_rs::json::{Decimal, Json};
use os_query_builder_rs::misc::rewrite::Rewrite;
use os_query_builder_rs::model::Query;
use os_query_builder_rs::term::term::Term;
use os_query_builder_rs::term::term_type::TermType;
use os_query_builder_rs::term::terms::{Terms, TermsLookup};

#[test]
fn match_in_bool_in_envelope_exact_text() {
    let m = Match::new()
        .field("brand".to_string())
        .value(Json::text("FIAT"));
    let b = Bool::new().must(vec![m.into_query_field()]);
    let q = Query::new().size(20).query(b.into_query_field());
    assert_eq!(
        q.to_wire(),
        r#"{"size":20,"query":{"bool":{"must":[{"match":{"brand":{"query":"FIAT"}}}]}}}"#
    );
}

#[test]
fn term_with_boost_exact_text() {
    let t = Term::new("brand_name".to_string(), TermType::Text("FIAT".to_string()))
        .boost(Decimal::new(0, 65, 2));
    assert_eq!(
        t.to_json().render(),
        r#"{"brand_name":{"value":"FIAT","boost":0.65}}"#
    );
}

#[test]
fn rewrite_tokens_exact_text() {
    assert_eq!(Rewrite::TopTerms(1).token_string(), "top_terms_1");
    assert_eq!(Rewrite::TopTerms(40000000).token_string(), "top_terms_40000000");
}

#[test]
fn boosting_in_dis_max_in_bool_keeps_sibling_order() {
    let positive = Match::new()
        .field("a".to_string())
        .value(Json::text("x"));
    let negative = Match::new()
        .field("b".to_string())
        .value(Json::text("y"));
    let boosting = Boosting::new(positive.into_query_field(), negative.into_query_field())
        .negative_boost(Decimal::new(0, 1, 1));
    let dis_max = DisMax::new(vec![boosting.into_query_field()]);
    let boolean = Bool::new().should(vec![dis_max.into_query_field()]);
    let wire = boolean.to_json().render();
    let expected = r#"{"should":[{"dis_max":{"queries":[{"boosting":{"positive":{"match":{"a":{"query":"x"}}},"negative":{"match":{"b":{"query":"y"}}},"negative_boost":0.1}}]}}]}"#;
    assert_eq!(wire, expected);
}

#[test]
fn bool_nested_three_levels_keeps_shape() {
    let leaf = Match::new()
        .field("brand".to_string())
        .value(Json::text("FIAT"));
    let level_one = Bool::new().must(vec![leaf.into_query_field()]);
    let level_two = Bool::new().must(vec![level_one.into_query_field()]);
    let level_three = Bool::new().must(vec![level_two.into_query_field()]);
    let expected = r#"{"must":[{"bool":{"must":[{"bool":{"must":[{"match":{"brand":{"query":"FIAT"}}}]}}]}}]}"#;
    assert_eq!(level_three.to_json().render(), expected);
}

#[test]
fn builder_order_does_not_change_the_wire_text() {
    let one = Match::new()
        .field("brand".to_string())
        .value(Json::text("FIAT"))
        .boost(Decimal::new(2, 0, 1))
        .lenient(true);
    let two = Match::new()
        .lenient(true)
        .boost(Decimal::new(2, 0, 1))
        .value(Json::text("FIAT"))
        .field("brand".to_string());
    assert_eq!(one.to_json().render(), two.to_json().render());
}

#[test]
fn unset_attributes_stay_off_the_wire() {
    let m = Match::new()
        .field("brand".to_string())
        .value(Json::text("FIAT"));
    let wire = m.to_json().render();
    assert!(!wire.contains("boost"));
    assert!(!wire.contains("fuzziness"));
    assert!(!wire.contains("analyzer"));
    assert_eq!(wire, r#"{"brand":{"query":"FIAT"}}"#);
}

#[test]
fn unset_field_serializes_under_empty_key() {
    let m = Match::new().value(Json::text("FIAT"));
    assert_eq!(m.to_json().render(), r#"{"":{"query":"FIAT"}}"#);
}

#[test]
fn unset_query_value_serializes_as_null() {
    let m = Match::new().field("brand".to_string());
    assert_eq!(m.to_json().render(), r#"{"brand":{"query":null}}"#);
}

#[test]
fn string_escaping_matches_the_wire_rules() {
    let m = Json::text("a\"b\\c\nd\te\u{1}f");
    assert_eq!(m.render(), r#""a\"b\\c\nd\te\u0001f""#);
}

#[test]
fn numbers_render_exactly() {
    assert_eq!(Json::uint(0).render(), "0");
    assert_eq!(Json::UInt(340282366920938463463374607431768211455).render(),
        "340282366920938463463374607431768211455");
    assert_eq!(Json::Int(-170141183460469231731687303715884105728).render(),
        "-170141183460469231731687303715884105728");
    assert_eq!(Json::Num(Decimal::new(10, 1, 2)).render(), "10.01");
    assert_eq!(Json::Num(Decimal::new(0, 5, 3)).render(), "0.005");
    assert_eq!(Json::Num(Decimal::new(7, 0, 1).negated()).render(), "-7.0");
}

#[test]
fn terms_duality_exact_text() {
    let q = Terms::new_with_terms_query(
        "product_id".to_string(),
        vec![
            TermType::Text("a".to_string()),
            TermType::Text("b".to_string()),
        ],
    );
    assert_eq!(q.to_json().render(), r#"{"product_id":["a","b"]}"#);

    let l = Terms::new_with_terms_lookup(
        "product_id".to_string(),
        TermsLookup::new("idx".to_string(), "1".to_string(), "p".to_string()),
    )
    .boost(Decimal::new(0, 9, 1));
    assert_eq!(
        l.to_json().render(),
        r#"{"product_id":{"index":"idx","id":"1","path":"p"},"boost":0.9}"#
    );
}
