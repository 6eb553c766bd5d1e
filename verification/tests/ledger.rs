use storefront::amount::Decimal;
use storefront::checkout::{OpResult, Operation};
use storefront::ledger::{Ledger, OrderRow, StockRow};

fn d(thousandths: i64) -> Decimal {
    Decimal { thousandths }
}

fn report(changes: u64, rows: u64, last_row_id: i64) -> OpResult {
    OpResult { changes, rows, last_row_id }
}

fn insert(name: &str) -> Operation {
    Operation::InsertOrder {
        customer_name: name.to_string(),
        customer_phone: "8700".to_string(),
        address: "Abay 1".to_string(),
        comment: "c".to_string(),
        items_json: "[]".to_string(),
        total: d(1000),
    }
}

fn decrement(id: &str, quantity: i64) -> Operation {
    Operation::Decrement { product_id: id.to_string(), quantity: d(quantity) }
}

fn restore(id: &str, quantity: i64) -> Operation {
    Operation::Restore { product_id: id.to_string(), quantity: d(quantity) }
}

#[test]
fn new_ledger_is_empty() {
    let ledger = Ledger::new();
    assert!(ledger.products.is_empty());
    assert!(ledger.orders.is_empty());
    assert_eq!(ledger.next_order_id, 1);
    assert_eq!(ledger.stock("1"), None);
}

#[test]
fn products_are_added_once_and_with_stock_that_is_not_negative() {
    let mut ledger = Ledger::new();
    assert!(ledger.add_product("1", d(5000)));
    assert!(!ledger.add_product("1", d(7000)));
    assert!(!ledger.add_product("2", d(-1)));
    assert!(ledger.add_product("2", d(0)));
    assert_eq!(
        ledger.products,
        vec![
            StockRow { id: "1".to_string(), stock: d(5000) },
            StockRow { id: "2".to_string(), stock: d(0) },
        ]
    );
    assert_eq!(ledger.find(&"2".to_string()), Some(1));
    assert_eq!(ledger.find(&"3".to_string()), None);
    assert_eq!(ledger.stock("1"), Some(d(5000)));
}

#[test]
fn decrement_takes_effect_only_where_the_stock_covers_it() {
    let mut ledger = Ledger::new();
    assert!(ledger.add_product("1", d(5000)));
    assert_eq!(ledger.apply(&decrement("1", 5001)), report(0, 0, 0));
    assert_eq!(ledger.stock("1"), Some(d(5000)));
    assert_eq!(ledger.apply(&decrement("1", 2000)), report(1, 0, 0));
    assert_eq!(ledger.stock("1"), Some(d(3000)));
    assert_eq!(ledger.apply(&decrement("1", 3000)), report(1, 0, 0));
    assert_eq!(ledger.stock("1"), Some(d(0)));
    assert_eq!(ledger.apply(&decrement("1", 1)), report(0, 0, 0));
    assert_eq!(ledger.apply(&decrement("1", 0)), report(1, 0, 0));
    assert_eq!(ledger.stock("1"), Some(d(0)));
    assert_eq!(ledger.apply(&decrement("2", 0)), report(0, 0, 0));
}

#[test]
fn probe_reports_whether_the_product_exists() {
    let mut ledger = Ledger::new();
    assert!(ledger.add_product("1", d(0)));
    assert_eq!(ledger.apply(&Operation::Probe { product_id: "1".to_string() }), report(0, 1, 0));
    assert_eq!(ledger.apply(&Operation::Probe { product_id: "2".to_string() }), report(0, 0, 0));
}

#[test]
fn restore_gives_back_and_never_leaves_the_range() {
    let mut ledger = Ledger::new();
    assert!(ledger.add_product("1", d(5000)));
    assert_eq!(ledger.apply(&restore("1", 2000)), report(1, 0, 0));
    assert_eq!(ledger.stock("1"), Some(d(7000)));
    assert_eq!(ledger.apply(&restore("1", i64::MAX)), report(0, 0, 0));
    assert_eq!(ledger.apply(&restore("1", -7001)), report(0, 0, 0));
    assert_eq!(ledger.stock("1"), Some(d(7000)));
    assert_eq!(ledger.apply(&restore("2", 1)), report(0, 0, 0));
}

#[test]
fn insert_records_a_new_order_and_delete_removes_it() {
    let mut ledger = Ledger::new();
    assert_eq!(ledger.apply(&insert("a")), report(1, 0, 1));
    assert_eq!(ledger.apply(&insert("b")), report(1, 0, 2));
    assert_eq!(ledger.apply(&insert("c")), report(1, 0, 3));
    assert_eq!(
        ledger.orders[1],
        OrderRow {
            id: 2,
            customer_name: "b".to_string(),
            customer_phone: "8700".to_string(),
            address: "Abay 1".to_string(),
            comment: "c".to_string(),
            items_json: "[]".to_string(),
            total: d(1000),
            status: "new".to_string(),
        }
    );
    assert_eq!(ledger.apply(&Operation::DeleteOrder { order_id: 2 }), report(1, 0, 0));
    let names: Vec<&str> = ledger.orders.iter().map(|o| o.customer_name.as_str()).collect();
    assert_eq!(names, vec!["a", "c"]);
    assert_eq!(ledger.apply(&Operation::DeleteOrder { order_id: 2 }), report(0, 0, 0));
    assert_eq!(ledger.orders.len(), 2);
    assert_eq!(ledger.next_order_id, 4);
}

#[test]
fn run_applies_operations_in_order() {
    let mut ledger = Ledger::new();
    assert!(ledger.add_product("1", d(5000)));
    let reports = ledger.run(&vec![
        insert("a"),
        decrement("1", 3000),
        decrement("1", 3000),
        restore("1", 1000),
        decrement("1", 3000),
        Operation::Probe { product_id: "1".to_string() },
    ]);
    assert_eq!(
        reports,
        vec![
            report(1, 0, 1),
            report(1, 0, 0),
            report(0, 0, 0),
            report(1, 0, 0),
            report(1, 0, 0),
            report(0, 1, 0),
        ]
    );
    assert_eq!(ledger.stock("1"), Some(d(0)));
    assert!(ledger.run(&vec![]).is_empty());
}

#[test]
fn stock_stays_at_zero_or_above_whatever_runs() {
    let mut ledger = Ledger::new();
    assert!(ledger.add_product("a", d(5000)));
    assert!(ledger.add_product("b", d(0)));
    assert!(ledger.add_product("c", d(i64::MAX)));
    let ids = ["a", "b", "c", "missing"];
    let mut seed: u64 = 0x9E37_79B9_7F4A_7C15;
    for _ in 0..500 {
        seed = seed.wrapping_mul(6364136223846793005).wrapping_add(1442695040888963407);
        let id = ids[(seed >> 60) as usize % ids.len()];
        let quantity = ((seed >> 20) % 9000) as i64 - 1500;
        let op = if (seed >> 8) % 3 == 0 { restore(id, quantity) } else { decrement(id, quantity) };
        let before: i128 = ledger.products.iter().map(|p| p.stock.thousandths as i128).sum();
        let outcome = ledger.apply(&op);
        let after: i128 = ledger.products.iter().map(|p| p.stock.thousandths as i128).sum();
        for product in ledger.products.iter() {
            assert!(product.stock.thousandths >= 0);
        }
        if outcome.changes == 0 {
            assert_eq!(before, after);
        }
    }
}
