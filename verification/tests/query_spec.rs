//! The query-specification builder and the URL it is serialized into.

use rustemon::MAX_PAGE_SIZE;
use rustemon::ParameterNames;
use rustemon::Requester;
use rustemon::SearchOptions;

#[test]
fn default_specification() {
    let options = SearchOptions::new();
    assert_eq!(options.q, "");
    assert_eq!(options.page, 1);
    assert_eq!(options.page_size, MAX_PAGE_SIZE);
    assert_eq!(options.order_by, "");
    assert_eq!(options.select, "");
}

#[test]
fn builder_chains_and_keeps_fields() {
    let options = SearchOptions::new()
        .query("series:base")
        .page(3)
        .page_size(100)
        .order_by("name")
        .select("id,name");
    assert_eq!(options.q, "series:base");
    assert_eq!(options.page, 3);
    assert_eq!(options.page_size, 100);
    assert_eq!(options.order_by, "name");
    assert_eq!(options.select, "id,name");
}

#[test]
fn page_zero_is_clamped_to_first_page() {
    let options = SearchOptions::new().page(0);
    assert_eq!(options.page, 1);
}

#[test]
fn page_size_is_clamped_into_service_bounds() {
    assert_eq!(SearchOptions::new().page_size(0).page_size, 1);
    assert_eq!(SearchOptions::new().page_size(255).page_size, MAX_PAGE_SIZE);
    assert_eq!(SearchOptions::new().page_size(MAX_PAGE_SIZE).page_size, MAX_PAGE_SIZE);
    assert_eq!(SearchOptions::new().page_size(17).page_size, 17);
}

#[test]
fn url_holds_every_parameter_once() {
    let mut requester = Requester::new("cards");
    requester.parse_options(
        SearchOptions::new().query("name:charizard").page(2).page_size(100).order_by("number"),
    );
    assert_eq!(
        requester.build_url(),
        "cards?query=name:charizard&page=2&pageSize=100&orderBy=number&select="
    );
}

#[test]
fn url_emits_empty_parameters_too() {
    let requester = Requester::new("sets");
    assert_eq!(requester.build_url(), "sets?query=&page=1&pageSize=250&orderBy=&select=");
}

#[test]
fn full_url_prefixes_the_base() {
    let requester = Requester::new("sets");
    assert_eq!(
        requester.full_url(),
        "https://api.pokemontcg.io/v2/sets?query=&page=1&pageSize=250&orderBy=&select="
    );
}

#[test]
fn requester_page_moves_only_the_page() {
    let mut requester = Requester::new("cards");
    requester.parse_options(SearchOptions::new().query("supertype:pokemon"));
    requester.page(7);
    assert_eq!(requester.options.page, 7);
    assert_eq!(requester.options.q, "supertype:pokemon");
    requester.page(0);
    assert_eq!(requester.options.page, 1);
}

#[test]
fn renamed_parameters_follow_the_configured_mapping() {
    let mut requester = Requester::new("cards");
    requester.parse_options(SearchOptions::new().query("name:pikachu").page(2));
    let names = ParameterNames {
        q: "q".to_string(),
        page: "p".to_string(),
        page_size: "limit".to_string(),
        order_by: "sort".to_string(),
        select: "fields".to_string(),
    };
    assert_eq!(
        requester.build_url_named(&names),
        "cards?q=name:pikachu&p=2&limit=250&sort=&fields="
    );
}

#[test]
fn default_mapping_matches_the_fixed_form() {
    let requester = Requester::new("sets");
    assert_eq!(
        requester.build_url_named(&ParameterNames::service_default()),
        requester.build_url()
    );
}

#[test]
fn identical_specifications_build_identical_urls() {
    let a = Requester::new("cards");
    let b = Requester::new("cards");
    assert_eq!(a.full_url(), b.full_url());
    assert_eq!(a.build_url(), a.build_url());
}
