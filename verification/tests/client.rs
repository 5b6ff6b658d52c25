use openfoodfacts::types::{Version, V0, V2};
use openfoodfacts::{Locale, OffApi, Output};

fn pair(name: &str, value: &str) -> (String, String) {
    (String::from(name), String::from(value))
}

#[test]
fn version() {
    assert_eq!(V0.version(), "v0");
    assert_eq!(V2.version(), "v2");
}

#[test]
fn client_taxonomy() {
    let api = OffApi::new(V0, Locale::default());
    let req = api.taxonomy("nova_groups").unwrap();
    assert_eq!(
        req.url,
        "https://world.openfoodfacts.org/data/taxonomies/nova_groups.json"
    );
    assert!(req.params.is_empty());
}

#[test]
fn client_taxonomy_not_found() {
    let api = OffApi::new(V0, Locale::default());
    let req = api.taxonomy("not_found").unwrap();
    assert_eq!(
        req.url,
        "https://world.openfoodfacts.org/data/taxonomies/not_found.json"
    );
}

#[test]
fn taxonomy_world_regardless_of_locale() {
    // A client configured with another locale still requests taxonomies
    // from the "world" subdomain.
    let api = OffApi::new(V0, Locale::new("fr", None));
    let req = api.taxonomy("additives").unwrap();
    assert_eq!(
        req.url,
        "https://world.openfoodfacts.org/data/taxonomies/additives.json"
    );
}

#[test]
fn client_facet() {
    let api = OffApi::new(V0, Locale::default());
    let req = api.facet("brands", None).unwrap();
    assert_eq!(req.url, "https://world.openfoodfacts.org/brands.json");
    assert!(req.params.is_empty());
}

#[test]
fn facet_params() {
    let api = OffApi::new(V0, Locale::default());
    let output = Output {
        locale: Some(Locale::new("fr", None)),
        page: Some(22),
        fields: Some("url"),
        nocache: Some(true),
        ..Output::new()
    };
    let req = api.facet("brands", Some(output)).unwrap();
    assert_eq!(req.url, "https://fr.openfoodfacts.org/brands.json");
    assert_eq!(
        req.params,
        vec![pair("page", "22"), pair("fields", "url"), pair("nocache", "true")]
    );
}

#[test]
fn client_categories() {
    let api = OffApi::new(V0, Locale::default());
    let req = api.categories(None).unwrap();
    assert_eq!(req.url, "https://world.openfoodfacts.org/categories.json");
    assert!(req.params.is_empty());
}

#[test]
fn categories_params() {
    // Category listings are pinned to the "world" subdomain: a
    // caller-supplied locale does not change the emitted URL.
    let api = OffApi::new(V0, Locale::default());
    let output = Output {
        locale: Some(Locale::new("fr", None)),
        page: Some(22),
        ..Output::new()
    };
    let req = api.categories(Some(output)).unwrap();
    assert_eq!(req.url, "https://world.openfoodfacts.org/categories.json");
    assert!(req.params.is_empty());
}

#[test]
fn nutrients() {
    let api = OffApi::new(V0, Locale::default());
    let req = api.nutrients(None).unwrap();
    assert_eq!(req.url, "https://world.openfoodfacts.org/cgi/nutrients.pl");
    assert!(req.params.is_empty());
}

#[test]
fn nutrients_params() {
    let api = OffApi::new(V0, Locale::default());
    let output = Output {
        locale: Some(Locale::new("fr", None)),
        page: Some(22),
        ..Output::new()
    };
    let req = api.nutrients(Some(output)).unwrap();
    assert_eq!(req.url, "https://fr.openfoodfacts.org/cgi/nutrients.pl");
    assert!(req.params.is_empty());
}

#[test]
fn products_by_facet() {
    let api = OffApi::new(V0, Locale::default());
    let req = api.products_by("additive", "e322-lecithins", None).unwrap();
    assert_eq!(
        req.url,
        "https://world.openfoodfacts.org/additive/e322-lecithins.json"
    );
    assert!(req.params.is_empty());
}

#[test]
fn products_by_facet_params() {
    let api = OffApi::new(V0, Locale::default());
    let output = Output {
        locale: Some(Locale::new("fr", None)),
        page: Some(22),
        page_size: Some(20),
        fields: Some("url"),
        ..Output::new()
    };
    let req = api.products_by("additif", "e322-lecithines", Some(output)).unwrap();
    assert_eq!(
        req.url,
        "https://fr.openfoodfacts.org/additif/e322-lecithines.json"
    );
    assert_eq!(
        req.params,
        vec![pair("page", "22"), pair("page_size", "20"), pair("fields", "url")]
    );
}

#[test]
fn client_products_by_category() {
    let api = OffApi::new(V0, Locale::default());
    let req = api.products_by("category", "cheeses", None).unwrap();
    assert_eq!(
        req.url,
        "https://world.openfoodfacts.org/category/cheeses.json"
    );
}

#[test]
fn products_by_category_params() {
    let api = OffApi::new(V0, Locale::default());
    let output = Output {
        locale: Some(Locale::new("fr", None)),
        page: Some(22),
        page_size: Some(20),
        fields: Some("url"),
        ..Output::new()
    };
    let req = api.products_by("categorie", "fromages", Some(output)).unwrap();
    assert_eq!(
        req.url,
        "https://fr.openfoodfacts.org/categorie/fromages.json"
    );
    assert_eq!(
        req.params,
        vec![pair("page", "22"), pair("page_size", "20"), pair("fields", "url")]
    );
}

#[test]
fn product() {
    let api = OffApi::new(V0, Locale::default());
    let req = api.product("069000019832", None).unwrap();
    assert_eq!(
        req.url,
        "https://world.openfoodfacts.org/api/v0/product/069000019832"
    );
    assert!(req.params.is_empty());
}

#[test]
fn product_params() {
    let api = OffApi::new(V0, Locale::default());
    let output = Output {
        locale: Some(Locale::new("fr", None)),
        page: Some(22),
        page_size: Some(20),
        fields: Some("url"),
        ..Output::new()
    };
    let req = api.product("069000019832", Some(output)).unwrap();
    assert_eq!(
        req.url,
        "https://fr.openfoodfacts.org/api/v0/product/069000019832"
    );
    assert_eq!(req.params, vec![pair("fields", "url")]);
}

#[test]
fn search_v0() {
    let api = OffApi::new(V0, Locale::default());
    let query = api
        .query()
        .criteria("brands", "contains", "Nestlé")
        .criteria("categories", "does_not_contain", "cheese")
        .ingredient("additives", "without")
        .ingredient("ingredients_that_may_be_from_palm_oil", "indifferent")
        .nutrient("fiber", "lt", 500)
        .nutrient("salt", "gt", 100);

    let req = api.search(&query, None).unwrap();
    assert_eq!(req.url, "https://world.openfoodfacts.org/cgi/search.pl");
    assert_eq!(
        req.params,
        vec![
            pair("tagtype_1", "brands"),
            pair("tag_contains_1", "contains"),
            pair("tag_1", "Nestlé"),
            pair("tagtype_2", "categories"),
            pair("tag_contains_2", "does_not_contain"),
            pair("tag_2", "cheese"),
            pair("additives", "without_additives"),
            pair("ingredients_that_may_be_from_palm_oil", "indifferent"),
            pair("nutriment_1", "fiber"),
            pair("nutriment_compare_1", "lt"),
            pair("nutriment_value_1", "500"),
            pair("nutriment_2", "salt"),
            pair("nutriment_compare_2", "gt"),
            pair("nutriment_value_2", "100"),
            pair("action", "process"),
            pair("json", "true")
        ]
    );
}

#[test]
fn search_v2() {
    let api = OffApi::new(V2, Locale::default());
    let query = api
        .query()
        .criteria("brands", "Nestlé", Some("fr"))
        .criteria("categories", "-cheese", None)
        .nutrient_100g("fiber", "<", 500)
        .nutrient_serving("salt", "=", 100);

    let req = api.search(&query, None).unwrap();
    assert_eq!(req.url, "https://world.openfoodfacts.org/api/v2/search");
    assert_eq!(
        req.params,
        vec![
            pair("brands_tags_fr", "Nestlé"),
            pair("categories_tags", "-cheese"),
            pair("fiber_100g<500", ""),
            pair("salt_serving", "100"),
        ]
    );
}

#[test]
fn search_by_barcode() {
    let api = OffApi::new(V2, Locale::default());
    let output = Output {
        fields: Some("code,product_name"),
        ..Output::new()
    };
    let req = api.search_by_barcode("069000019832,3175680011480", Some(output)).unwrap();
    assert_eq!(req.url, "https://world.openfoodfacts.org/api/v2/search");
    assert_eq!(
        req.params,
        vec![
            pair("code", "069000019832,3175680011480"),
            pair("fields", "code,product_name")
        ]
    );
}

#[test]
fn malformed_locale_is_a_url_error() {
    let api = OffApi::new(V0, Locale::new("not a host", None));
    assert!(api.facet("brands", None).is_err());
}
