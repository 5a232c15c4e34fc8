use app_activation::latch::{take_pending_deep_link, DeepLinkStore};

#[test]
fn fresh_store_is_empty() {
    let mut store = DeepLinkStore::new();
    assert_eq!(store.take(), None);
}

#[test]
fn last_write_wins() {
    let mut store = DeepLinkStore::new();
    store.write("app://first".to_string());
    store.write("app://second".to_string());
    assert_eq!(store.take(), Some("app://second".to_string()));
    assert_eq!(store.take(), None);
}

#[test]
fn take_once() {
    let mut store = DeepLinkStore::new();
    store.write("app://only".to_string());
    let first = store.take();
    let second = store.take();
    assert_eq!(first, Some("app://only".to_string()));
    assert_eq!(second, None);
}

#[test]
fn write_then_take_observes_value() {
    let mut store = DeepLinkStore::new();
    store.write("app://kept".to_string());
    assert_eq!(store.take(), Some("app://kept".to_string()));
}

#[test]
fn pull_query_clears_the_slot() {
    let mut store = DeepLinkStore::new();
    store.write("app://pull".to_string());
    assert_eq!(take_pending_deep_link(&mut store), Some("app://pull".to_string()));
    assert_eq!(take_pending_deep_link(&mut store), None);
}
