use openfoodfacts::search::{SearchParams, SearchQueryV0, SearchQueryV2, SortBy};

#[test]
fn search_to_string() {
    assert_eq!(
        SortBy::Popularity.to_string(),
        String::from("unique_scans_n")
    );
    assert_eq!(
        SortBy::ProductName.to_string(),
        String::from("product_name")
    );
    assert_eq!(SortBy::CreatedDate.to_string(), String::from("created_t"));
    assert_eq!(
        SortBy::LastModifiedDate.to_string(),
        String::from("last_modified_t")
    );
}

fn pair(name: &str, value: &str) -> (String, String) {
    (String::from(name), String::from(value))
}

#[test]
fn search_params() {
    let search = SearchQueryV0::new()
        .criteria("brands", "contains", "Nestlé")
        .criteria("categories", "does_not_contain", "cheese")
        .ingredient("additives", "without")
        .ingredient("ingredients_that_may_be_from_palm_oil", "indifferent")
        .nutrient("fiber", "lt", 500)
        .nutrient("salt", "gt", 100);

    let params = search.params();
    assert_eq!(
        params,
        vec![
            pair("tagtype_1", "brands"),
            pair("tag_contains_1", "contains"),
            pair("tag_1", "Nestlé"),
            pair("tagtype_2", "categories"),
            pair("tag_contains_2", "does_not_contain"),
            pair("tag_2", "cheese"),
            pair("additives", "without_additives"),
            pair("ingredients_that_may_be_from_palm_oil", "indifferent"),
            pair("nutriment_1", "fiber"),
            pair("nutriment_compare_1", "lt"),
            pair("nutriment_value_1", "500"),
            pair("nutriment_2", "salt"),
            pair("nutriment_compare_2", "gt"),
            pair("nutriment_value_2", "100"),
            pair("action", "process"),
            pair("json", "true")
        ]
    );
}

#[test]
fn search_search_params() {
    let search = SearchQueryV2::new()
        .criteria("brands", "Nestlé", Some("fr"))
        .criteria("categories", "-cheese", None)
        .nutrient_100g("fiber", "<", 500)
        .nutrient_serving("salt", "=", 100);

    let params = search.params();
    assert_eq!(
        params,
        vec![
            pair("brands_tags_fr", "Nestlé"),
            pair("categories_tags", "-cheese"),
            pair("fiber_100g<500", ""),
            pair("salt_serving", "100"),
        ]
    );
}

#[test]
fn scheme_a_key_census_example() {
    // Three indexed insertions: 3 * 3 keys plus the two trailers, the
    // criteria indices running 1..=2 and the nutrient index 1..=1.
    let search = SearchQueryV0::new()
        .criteria("brands", "contains", "a")
        .nutrient("salt", "lt", 1)
        .criteria("labels", "contains", "b");

    let params = search.params();
    assert_eq!(params.len(), 3 * 3 + 2);
    let keys: Vec<&str> = params.iter().map(|p| p.0.as_str()).collect();
    assert_eq!(
        keys,
        vec![
            "tagtype_1",
            "tag_contains_1",
            "tag_1",
            "nutriment_1",
            "nutriment_compare_1",
            "nutriment_value_1",
            "tagtype_2",
            "tag_contains_2",
            "tag_2",
            "action",
            "json"
        ]
    );
}

#[test]
fn scheme_b_inequality_embeds_operator() {
    let search = SearchQueryV2::new().nutrient("sugars", "serving", "<=", 10);

    let params = search.params();
    assert_eq!(params, vec![pair("sugars_serving<=10", "")]);
}

#[test]
fn scheme_b_equality_keeps_value() {
    let search = SearchQueryV2::new().nutrient("sugars", "100g", "=", 4294967295);

    let params = search.params();
    assert_eq!(params, vec![pair("sugars_100g", "4294967295")]);
}

#[test]
fn additives_value_rewritten() {
    let search = SearchQueryV0::new().ingredient("additives", "without");

    let params = search.params();
    assert_eq!(
        params,
        vec![
            pair("additives", "without_additives"),
            pair("action", "process"),
            pair("json", "true")
        ]
    );
}

#[test]
fn sort_by_before_trailers() {
    let search = SearchQueryV0::new()
        .ingredient("additives", "with")
        .sort_by(Some(SortBy::EcoScore));

    let params = search.params();
    assert_eq!(
        params,
        vec![
            pair("additives", "with_additives"),
            pair("sort_by", "ecoscore_score"),
            pair("action", "process"),
            pair("json", "true")
        ]
    );
}

#[test]
fn sort_by_v2_no_trailers() {
    let search = SearchQueryV2::new().sort_by(Some(SortBy::Popularity));

    let params = search.params();
    assert_eq!(params, vec![pair("sort_by", "unique_scans_n")]);
}
