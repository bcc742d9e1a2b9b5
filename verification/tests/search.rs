use proxswap::configuration::Configuration;
use proxswap::search::visible_indices;
use proxswap::store::Store;

fn store_with(list: &[&str]) -> Store {
    let mut store = Store::new();
    for name in list {
        store.add(Configuration::new(name.to_string(), vec![], vec![])).unwrap();
    }
    store
}

#[test]
fn empty_query_shows_everything_in_store_order() {
    let store = store_with(&["Work", "home", "Work-VPN", "lab"]);
    assert_eq!(visible_indices(&store, ""), vec![0, 1, 2, 3]);
}

#[test]
fn empty_store_shows_nothing() {
    let store = Store::new();
    assert_eq!(visible_indices(&store, ""), Vec::<usize>::new());
    assert_eq!(visible_indices(&store, "x"), Vec::<usize>::new());
}

#[test]
fn query_selects_exactly_the_matching_names() {
    let store = store_with(&["Work", "home", "Work-VPN", "lab", "netWORK"]);
    assert_eq!(visible_indices(&store, "work"), vec![0, 2, 4]);
    assert_eq!(visible_indices(&store, "WORK-"), vec![2]);
    assert_eq!(visible_indices(&store, "o"), vec![0, 1, 2, 4]);
    assert_eq!(visible_indices(&store, "zzz"), Vec::<usize>::new());
}

#[test]
fn query_longer_than_any_name_matches_nothing() {
    let store = store_with(&["a", "ab"]);
    assert_eq!(visible_indices(&store, "abc"), Vec::<usize>::new());
    assert_eq!(visible_indices(&store, "ab"), vec![1]);
}
