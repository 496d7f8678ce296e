use interledger_relay::routes::{Route, RoutingTable};

#[test]
fn test_resolve() {
    let table = RoutingTable::new(vec![
        Route::new(b"test.one".to_vec(), 123),
        Route::new(b"test.two".to_vec(), 456),
        Route::new(b"test.".to_vec(), 789),
    ]);
    let routes = &table.0;
    // Exact match.
    assert_eq!(table.resolve(b"test.one"), Some(&routes[0]));
    // Prefix match.
    assert_eq!(table.resolve(b"test.one.alice"), Some(&routes[0]));
    assert_eq!(table.resolve(b"test.two.bob"), Some(&routes[1]));
    assert_eq!(table.resolve(b"test.three"), Some(&routes[2]));
    // Dot separator isn't necessary.
    assert_eq!(table.resolve(b"test.two__"), Some(&routes[1]));
    // No matching prefix.
    assert_eq!(table.resolve(b"example.test.one"), None);
    assert_eq!(table.resolve(b""), None);
}

#[test]
fn test_resolve_catch_all() {
    let table = RoutingTable::new(vec![
        Route::new(b"test.one".to_vec(), 123),
        Route::new(b"test.two".to_vec(), 456),
        Route::new(b"".to_vec(), 789),
    ]);
    assert_eq!(table.resolve(b"example.test.one"), Some(&table.0[2]));
}

#[test]
fn test_resolve_insertion_order_wins() {
    // Order is authoritative: a catch-all placed first shadows everything.
    let table = RoutingTable::new(vec![
        Route::new(b"".to_vec(), 1),
        Route::new(b"test.".to_vec(), 2),
    ]);
    assert_eq!(table.resolve(b"test.alice"), Some(&table.0[0]));
}

#[test]
fn test_resolve_empty_table() {
    let table: RoutingTable<u32> = RoutingTable::new(Vec::new());
    assert_eq!(table.resolve(b"test.alice"), None);
}
