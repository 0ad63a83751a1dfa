use stregsystemet_tui::models::Product;
use stregsystemet_tui::money::Money;
use stregsystemet_tui::search::{rank_products, search_products};

fn product(id: &str, name: &str) -> Product {
    Product { id: id.to_string(), name: name.to_string(), price: Money::new(1000) }
}

fn ids(v: &[Product]) -> Vec<String> {
    v.iter().map(|p| p.id.clone()).collect()
}

#[test]
fn empty_query_gives_nothing() {
    let items = vec![product("1", "Cola")];
    assert!(search_products("", &items, &vec![]).is_empty());
    assert!(search_products("   ", &items, &vec![]).is_empty());
}

#[test]
fn exact_id_comes_first() {
    let items = vec![product("120", "Beer 12"), product("5", "Water"), product("12", "Cola 12")];
    let aliases = vec![("12pack".to_string(), 5)];
    let r = search_products("12", &items, &aliases);
    assert_eq!(ids(&r), vec!["12", "5", "120"]);
}

#[test]
fn exact_id_found_through_integer_reading() {
    let items = vec![product("7", "Tea"), product("70", "Coffee")];
    let r = search_products("007", &items, &vec![]);
    assert_eq!(ids(&r)[0], "7");
}

#[test]
fn numeric_prefix_lists_ids_in_catalog_order() {
    let items = vec![product("31", "A"), product("3", "B"), product("300", "C"), product("43", "D")];
    let r = search_products("30", &items, &vec![]);
    assert_eq!(ids(&r), vec!["300"]);
    let r = search_products("4", &items, &vec![]);
    assert_eq!(ids(&r), vec!["43"]);
}

#[test]
fn alias_exact_then_prefix_then_partial_then_names() {
    let items = vec![
        product("1", "One"),
        product("2", "Two"),
        product("3", "Three"),
        product("4", "Cola Light"),
    ];
    let aliases = vec![
        ("x-cola".to_string(), 3),
        ("colaz".to_string(), 2),
        ("Cola".to_string(), 1),
    ];
    let r = search_products("COLA", &items, &aliases);
    assert_eq!(ids(&r), vec!["1", "2", "3", "4"]);
}

#[test]
fn name_scores_prefer_prefix_then_close_length() {
    let items = vec![
        product("1", "Big cola bottle"),
        product("2", "A cola"),
        product("3", "Cola"),
    ];
    let r = search_products("cola", &items, &vec![]);
    assert_eq!(ids(&r), vec!["3", "2", "1"]);
}

#[test]
fn at_most_ten_distinct_results() {
    let items: Vec<Product> = (1..=15).map(|i| product(&i.to_string(), "Soda")).collect();
    let aliases: Vec<(String, i32)> = (1..=15).map(|i| ("soda".to_string(), i)).collect();
    let r = search_products("soda", &items, &aliases);
    assert_eq!(r.len(), 10);
    let mut seen = ids(&r);
    seen.sort();
    seen.dedup();
    assert_eq!(seen.len(), 10);
}

#[test]
fn many_prefix_matches_are_cut_to_ten() {
    let items: Vec<Product> = (100..130).map(|i| product(&i.to_string(), "X")).collect();
    let q: Vec<char> = "1".chars().collect();
    let r = rank_products(&q, &items, &vec![]);
    assert_eq!(r.len(), 10);
}

#[test]
fn aliases_for_missing_products_are_ignored() {
    let items = vec![product("1", "Cola")];
    let aliases = vec![("cola".to_string(), 99)];
    assert_eq!(ids(&search_products("cola", &items, &aliases)), vec!["1"]);
}

#[test]
fn white_space_query_gives_nothing() {
    let items = vec![product("1", " ")];
    assert!(search_products(" \t\n", &items, &vec![(" ".to_string(), 1)]).is_empty());
}
