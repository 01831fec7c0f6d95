use price_service::decimal::u64_to_decimal;
use price_service::handlers::get_price;
use price_service::handlers::handle;
use price_service::handlers::set_null_price;
use price_service::handlers::set_price;
use price_service::handlers::Request;
use price_service::store::PriceStore;

#[test]
fn get_price_test() {
    let mut store = PriceStore::new();
    store.set(100);
    let response = get_price(&store);
    assert_eq!(response.status, 200);
    assert_eq!(response.body, "100");
}

#[test]
fn get_not_found_price_test() {
    let store = PriceStore::new();
    let response = get_price(&store);
    assert_eq!(response.status, 404);
    assert_eq!(response.body, "");
}

#[test]
fn patch_price_test() {
    let mut store = PriceStore::new();
    let response = set_price(&mut store, 355);
    assert_eq!(response.status, 200);

    let response = get_price(&store);
    assert_eq!(response.status, 200);
    assert_eq!(response.body, "355");
}

#[test]
fn delete_price_test() {
    let mut store = PriceStore::new();
    store.set(5);
    let response = set_null_price(&mut store);
    assert_eq!(response.status, 200);

    let response = get_price(&store);
    assert_eq!(response.status, 404);
    assert_eq!(response.body, "");
}

#[test]
fn patch_then_get_returns_the_value() {
    for v in [0u64, 1, 9, 10, 42, 1000, u64::MAX] {
        let mut store = PriceStore::new();
        let response = set_price(&mut store, v);
        assert_eq!(response.status, 200);
        assert_eq!(response.body, "");
        let response = get_price(&store);
        assert_eq!(response.status, 200);
        assert_eq!(response.body, v.to_string());
    }
}

#[test]
fn delete_on_absent_is_idempotent() {
    let mut store = PriceStore::new();
    let response = set_null_price(&mut store);
    assert_eq!(response.status, 200);
    assert_eq!(response.body, "");
    let response = set_null_price(&mut store);
    assert_eq!(response.status, 200);
    let response = get_price(&store);
    assert_eq!(response.status, 404);
    assert_eq!(response.body, "");
}

#[test]
fn patch_delete_get_ends_absent() {
    let mut store = PriceStore::new();
    set_price(&mut store, 987654321);
    set_null_price(&mut store);
    let response = get_price(&store);
    assert_eq!(response.status, 404);
    assert_eq!(response.body, "");
}

#[test]
fn last_write_wins() {
    let mut store = PriceStore::new();
    set_price(&mut store, 7);
    set_price(&mut store, 8);
    let response = get_price(&store);
    assert_eq!(response.status, 200);
    assert_eq!(response.body, "8");
}

#[test]
fn handle_dispatches_all_three_requests() {
    let mut store = PriceStore::new();
    let response = handle(&mut store, Request::Get);
    assert_eq!(response.status, 404);
    assert_eq!(response.body, "");

    let response = handle(&mut store, Request::Patch(100));
    assert_eq!(response.status, 200);
    assert_eq!(response.body, "");

    let response = handle(&mut store, Request::Get);
    assert_eq!(response.status, 200);
    assert_eq!(response.body, "100");

    let response = handle(&mut store, Request::Delete);
    assert_eq!(response.status, 200);
    assert_eq!(response.body, "");

    let response = handle(&mut store, Request::Get);
    assert_eq!(response.status, 404);
    assert_eq!(response.body, "");
}

#[test]
fn store_read_set_clear() {
    let mut store = PriceStore::new();
    assert_eq!(store.read(), None);
    store.set(3);
    assert_eq!(store.read(), Some(3));
    store.set(4);
    assert_eq!(store.read(), Some(4));
    store.clear();
    assert_eq!(store.read(), None);
}

#[test]
fn decimal_text_exact_values() {
    assert_eq!(u64_to_decimal(0), "0");
    assert_eq!(u64_to_decimal(5), "5");
    assert_eq!(u64_to_decimal(10), "10");
    assert_eq!(u64_to_decimal(100), "100");
    assert_eq!(u64_to_decimal(355), "355");
    assert_eq!(u64_to_decimal(90210), "90210");
    assert_eq!(u64_to_decimal(u64::MAX), "18446744073709551615");
}
