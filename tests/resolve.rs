use gh_alfred::alfred::AlfredItem;
use gh_alfred::crate_client::CrateSearchItem;
use gh_alfred::gh_client::GHApiRepoSearchItem;
use gh_alfred::resolver::{resolve_from_cache, resolve_from_live, Lookup, RESULT_LIMIT};

fn titles(rows: &[AlfredItem]) -> Vec<String> {
    rows.iter().map(|r| r.title.clone()).collect()
}

fn strings(v: &[&str]) -> Vec<String> {
    v.iter().map(|s| s.to_string()).collect()
}

/// The store's lookup: keys that hold the filter, case-sensitive.
fn store_query(keys: &[&str], filter: &str) -> Vec<String> {
    keys.iter().filter(|k| k.contains(filter)).take(RESULT_LIMIT).map(|k| k.to_string()).collect()
}

#[test]
fn empty_cache_falls_back_to_live_search() {
    let hits = store_query(&[], "octo");
    assert!(matches!(resolve_from_cache(hits), Lookup::SearchLive));
    let rows = resolve_from_live(strings(&["octocat/Hello-World"]));
    assert_eq!(titles(&rows), strings(&["octocat/Hello-World"]));
}

#[test]
fn cache_match_answers_without_live_search() {
    let hits = store_query(&["rust-lang/rust", "serde-rs/serde"], "serde");
    match resolve_from_cache(hits) {
        Lookup::Answer(rows) => assert_eq!(titles(&rows), strings(&["serde-rs/serde"])),
        Lookup::SearchLive => panic!("live search asked for despite a cache match"),
    }
}

#[test]
fn cache_answer_is_capped_in_store_order() {
    let hits = strings(&["a", "b", "c", "d", "e", "f", "g"]);
    match resolve_from_cache(hits) {
        Lookup::Answer(rows) => assert_eq!(titles(&rows), strings(&["a", "b", "c", "d", "e"])),
        Lookup::SearchLive => panic!("live search asked for despite a cache match"),
    }
}

#[test]
fn live_answer_keeps_ranking_and_is_capped() {
    let live = strings(&["z/3", "a/1", "m/2"]);
    assert_eq!(titles(&resolve_from_live(live.clone())), live);
    let many = strings(&["1", "2", "3", "4", "5", "6"]);
    assert_eq!(titles(&resolve_from_live(many)), strings(&["1", "2", "3", "4", "5"]));
    assert!(resolve_from_live(vec![]).is_empty());
}

#[test]
fn items_convert_to_rows() {
    assert_eq!(AlfredItem::from("plain".to_string()).title, "plain");
    let repo = GHApiRepoSearchItem { full_name: "octocat/Hello-World".to_string() };
    assert_eq!(AlfredItem::from(repo).title, "octocat/Hello-World");
    let krate = CrateSearchItem { name: "serde".to_string() };
    assert_eq!(AlfredItem::from(krate).title, "serde");
}
