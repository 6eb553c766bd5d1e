use storefront::amount::{Decimal, QuantityKind};
use storefront::checkout::{
    draft_order, CartItem, LineOutcome, LineResult, OpResult, Operation, OrderPayload,
};
use storefront::flow::{Action, Event, OrderFlow, Outcome, Phase, REPORT_MISMATCH};
use storefront::ledger::Ledger;
use storefront::placement::place_order;

fn units(n: i64) -> Decimal {
    Decimal { thousandths: n * 1000 }
}

fn item(id: &str, quantity: i64) -> CartItem {
    CartItem { id: Some(id.to_string()), quantity: Some(units(quantity)) }
}

fn payload(items: Vec<CartItem>, items_json: &str) -> OrderPayload {
    OrderPayload {
        name: Some("Aigerim".to_string()),
        phone: Some("+7 700 000 00 00".to_string()),
        address: Some("Abay 1".to_string()),
        comment: None,
        items: Some(items),
        items_json: items_json.to_string(),
        total: Some(Decimal { thousandths: 1_500_000 }),
    }
}

fn ledger_with(products: &[(&str, i64)]) -> Ledger {
    let mut ledger = Ledger::new();
    for (id, stock) in products {
        assert!(ledger.add_product(id, units(*stock)));
    }
    ledger
}

fn place(ledger: &mut Ledger, items: Vec<CartItem>, items_json: &str) -> Outcome {
    let draft = draft_order(&payload(items, items_json), QuantityKind::Fractional).unwrap();
    place_order(ledger, draft)
}

fn rejected(id: &str, quantity: i64, outcome: LineOutcome) -> LineResult {
    LineResult { product_id: id.to_string(), requested: units(quantity), outcome }
}

#[test]
fn order_within_stock_is_placed() {
    let mut ledger = ledger_with(&[("7", 5)]);
    let snapshot = "[{\"id\":\"7\",\"quantity\":2}]";
    let outcome = place(&mut ledger, vec![item("7", 2)], snapshot);
    assert_eq!(outcome, Outcome::Placed { order_id: 1 });
    assert_eq!(ledger.stock("7"), Some(units(3)));
    assert_eq!(ledger.orders.len(), 1);
    let order = &ledger.orders[0];
    assert_eq!(order.id, 1);
    assert_eq!(order.status, "new");
    assert_eq!(order.items_json, snapshot);
    assert_eq!(order.customer_name, "Aigerim");
    assert_eq!(order.customer_phone, "+7 700 000 00 00");
    assert_eq!(order.address, "Abay 1");
    assert_eq!(order.comment, "");
    assert_eq!(order.total, Decimal { thousandths: 1_500_000 });
}

#[test]
fn order_beyond_stock_is_rejected_and_changes_nothing() {
    let mut ledger = ledger_with(&[("7", 5)]);
    let outcome = place(&mut ledger, vec![item("7", 10)], "[{\"id\":\"7\",\"quantity\":10}]");
    assert_eq!(
        outcome,
        Outcome::Rejected(vec![rejected("7", 10, LineOutcome::InsufficientStock)])
    );
    assert_eq!(ledger.stock("7"), Some(units(5)));
    assert!(ledger.orders.is_empty());
}

#[test]
fn two_orders_for_the_last_unit_do_not_oversell() {
    let mut ledger = ledger_with(&[("9", 1)]);
    let first = place(&mut ledger, vec![item("9", 1)], "[1]");
    let second = place(&mut ledger, vec![item("9", 1)], "[2]");
    assert_eq!(first, Outcome::Placed { order_id: 1 });
    assert_eq!(
        second,
        Outcome::Rejected(vec![rejected("9", 1, LineOutcome::InsufficientStock)])
    );
    assert_eq!(ledger.stock("9"), Some(units(0)));
    assert_eq!(ledger.orders.len(), 1);
    assert_eq!(ledger.orders[0].items_json, "[1]");
}

#[test]
fn one_failing_line_takes_the_whole_order_back() {
    let mut ledger = ledger_with(&[("1", 4), ("2", 1), ("3", 8)]);
    let outcome = place(&mut ledger, vec![item("1", 3), item("2", 2), item("3", 8)], "[]");
    assert_eq!(
        outcome,
        Outcome::Rejected(vec![
            rejected("1", 3, LineOutcome::Decremented),
            rejected("2", 2, LineOutcome::InsufficientStock),
            rejected("3", 8, LineOutcome::Decremented),
        ])
    );
    assert_eq!(ledger.stock("1"), Some(units(4)));
    assert_eq!(ledger.stock("2"), Some(units(1)));
    assert_eq!(ledger.stock("3"), Some(units(8)));
    assert!(ledger.orders.is_empty());
}

#[test]
fn unknown_product_is_reported_as_not_found() {
    let mut ledger = ledger_with(&[("1", 4)]);
    let outcome = place(&mut ledger, vec![item("1", 1), item("404", 1)], "[]");
    assert_eq!(
        outcome,
        Outcome::Rejected(vec![
            rejected("1", 1, LineOutcome::Decremented),
            rejected("404", 1, LineOutcome::NotFound),
        ])
    );
    assert_eq!(ledger.stock("1"), Some(units(4)));
    assert!(ledger.orders.is_empty());
}


#[test]
fn lines_for_the_same_product_are_taken_in_turn() {
    let mut ledger = ledger_with(&[("5", 5)]);
    let outcome = place(&mut ledger, vec![item("5", 3), item("5", 3)], "[]");
    assert_eq!(
        outcome,
        Outcome::Rejected(vec![
            rejected("5", 3, LineOutcome::Decremented),
            rejected("5", 3, LineOutcome::InsufficientStock),
        ])
    );
    assert_eq!(ledger.stock("5"), Some(units(5)));

    let outcome = place(&mut ledger, vec![item("5", 3), item("5", 2)], "[]");
    assert_eq!(outcome, Outcome::Placed { order_id: 2 });
    assert_eq!(ledger.stock("5"), Some(units(0)));
}

#[test]
fn zero_quantity_line_is_a_decrement_that_takes_nothing() {
    let mut ledger = ledger_with(&[("1", 0), ("2", 3)]);
    let items = vec![
        CartItem { id: Some("1".to_string()), quantity: Some(units(-4)) },
        CartItem { id: Some("2".to_string()), quantity: None },
    ];
    let outcome = place(&mut ledger, items, "[]");
    assert_eq!(outcome, Outcome::Placed { order_id: 1 });
    assert_eq!(ledger.stock("1"), Some(units(0)));
    assert_eq!(ledger.stock("2"), Some(units(3)));
}

#[test]
fn rejected_order_uses_up_its_identity() {
    let mut ledger = ledger_with(&[("7", 5)]);
    let _ = place(&mut ledger, vec![item("7", 10)], "[]");
    let outcome = place(&mut ledger, vec![item("7", 5)], "[]");
    assert_eq!(outcome, Outcome::Placed { order_id: 2 });
    assert_eq!(ledger.next_order_id, 3);
}

#[test]
fn fractional_quantities_are_decremented_exactly() {
    let mut ledger = Ledger::new();
    assert!(ledger.add_product("rice", Decimal { thousandths: 2500 }));
    let items = vec![CartItem {
        id: Some("rice".to_string()),
        quantity: Some(Decimal { thousandths: 750 }),
    }];
    let outcome = place(&mut ledger, items, "[]");
    assert_eq!(outcome, Outcome::Placed { order_id: 1 });
    assert_eq!(ledger.stock("rice"), Some(Decimal { thousandths: 1750 }));
}

fn started(items: Vec<CartItem>) -> (OrderFlow, Vec<Operation>) {
    let draft = draft_order(&payload(items, "[]"), QuantityKind::Fractional).unwrap();
    let (flow, action) = OrderFlow::start(draft);
    match action {
        Action::Submit(ops) => (flow, ops),
        other => panic!("expected a submit, got {:?}", other),
    }
}

fn report(changes: u64, rows: u64, last_row_id: i64) -> OpResult {
    OpResult { changes, rows, last_row_id }
}

#[test]
fn flow_starts_by_submitting_the_batch() {
    let (flow, ops) = started(vec![item("1", 2), item("2", 3)]);
    assert_eq!(flow.phase, Phase::Submitted);
    assert_eq!(ops.len(), 5);
    assert!(matches!(ops[0], Operation::InsertOrder { .. }));
    assert_eq!(
        ops[1],
        Operation::Decrement { product_id: "1".to_string(), quantity: units(2) }
    );
    assert_eq!(
        ops[2],
        Operation::Decrement { product_id: "2".to_string(), quantity: units(3) }
    );
    assert_eq!(ops[3], Operation::Probe { product_id: "1".to_string() });
    assert_eq!(ops[4], Operation::Probe { product_id: "2".to_string() });
}

#[test]
fn flow_places_when_every_line_changed_a_row() {
    let (flow, _) = started(vec![item("1", 2), item("2", 3)]);
    let reports =
        vec![report(1, 0, 41), report(1, 0, 0), report(1, 0, 0), report(0, 1, 0), report(0, 1, 0)];
    let (flow, action) = flow.step(Event::Executed(reports));
    assert_eq!(flow.phase, Phase::Closed);
    assert_eq!(action, Action::Finish(Outcome::Placed { order_id: 41 }));
}

#[test]
fn flow_reverts_when_a_line_changed_no_row() {
    let (flow, _) = started(vec![item("1", 2), item("2", 3), item("3", 1)]);
    let reports = vec![
        report(1, 0, 41),
        report(1, 0, 0),
        report(0, 0, 0),
        report(1, 0, 0),
        report(0, 1, 0),
        report(0, 1, 0),
        report(0, 1, 0),
    ];
    let (flow, action) = flow.step(Event::Executed(reports));
    assert_eq!(flow.phase, Phase::Reverting);
    assert_eq!(
        action,
        Action::Revert(vec![
            Operation::DeleteOrder { order_id: 41 },
            Operation::Restore { product_id: "3".to_string(), quantity: units(1) },
            Operation::Restore { product_id: "1".to_string(), quantity: units(2) },
        ])
    );
    let (flow, action) = flow.step(Event::Reverted);
    assert_eq!(flow.phase, Phase::Closed);
    assert_eq!(
        action,
        Action::Finish(Outcome::Rejected(vec![
            rejected("1", 2, LineOutcome::Decremented),
            rejected("2", 3, LineOutcome::InsufficientStock),
            rejected("3", 1, LineOutcome::Decremented),
        ]))
    );
}

#[test]
fn flow_tells_a_missing_product_from_a_short_stock() {
    let (flow, _) = started(vec![item("1", 2), item("2", 3)]);
    let reports =
        vec![report(1, 0, 7), report(0, 0, 0), report(0, 0, 0), report(0, 1, 0), report(0, 0, 0)];
    let (flow, _) = flow.step(Event::Executed(reports));
    let (_, action) = flow.step(Event::Reverted);
    assert_eq!(
        action,
        Action::Finish(Outcome::Rejected(vec![
            rejected("1", 2, LineOutcome::InsufficientStock),
            rejected("2", 3, LineOutcome::NotFound),
        ]))
    );
}

#[test]
fn flow_ends_in_storage_failure_when_the_store_fails() {
    let (flow, _) = started(vec![item("1", 2)]);
    let (flow, action) = flow.step(Event::Failed("connection lost".to_string()));
    assert_eq!(flow.phase, Phase::Closed);
    assert_eq!(action, Action::Finish(Outcome::StorageFailure("connection lost".to_string())));
}

#[test]
fn flow_names_what_stands_when_the_reversal_fails() {
    let (flow, _) = started(vec![item("1", 2)]);
    let (flow, _) =
        flow.step(Event::Executed(vec![report(1, 0, 7), report(0, 0, 0), report(0, 1, 0)]));
    assert_eq!(flow.phase, Phase::Reverting);
    assert_eq!(flow.order_id, 7);
    let (flow, action) = flow.step(Event::Failed("busy".to_string()));
    assert_eq!(flow.phase, Phase::Closed);
    assert_eq!(
        action,
        Action::Finish(Outcome::Unreverted {
            order_id: 7,
            lines: vec![rejected("1", 2, LineOutcome::InsufficientStock)],
            cause: "busy".to_string(),
        })
    );
}

#[test]
fn flow_refuses_a_report_of_the_wrong_length() {
    let (flow, _) = started(vec![item("1", 2)]);
    let (flow, action) = flow.step(Event::Executed(vec![report(1, 0, 7), report(1, 0, 0)]));
    assert_eq!(flow.phase, Phase::Closed);
    assert_eq!(action, Action::Finish(Outcome::StorageFailure(REPORT_MISMATCH.to_string())));
}

#[test]
fn flow_halts_on_an_event_out_of_turn() {
    let (flow, _) = started(vec![item("1", 2)]);
    let (flow, action) = flow.step(Event::Reverted);
    assert_eq!(flow.phase, Phase::Submitted);
    assert_eq!(action, Action::Halt);
    let (flow, _) = flow.step(Event::Failed("x".to_string()));
    assert_eq!(flow.phase, Phase::Closed);
    let (flow, action) = flow.step(Event::Executed(vec![]));
    assert_eq!(flow.phase, Phase::Closed);
    assert_eq!(action, Action::Halt);
}

#[test]
fn orders_in_either_order_never_take_more_than_the_stock() {
    for (first, second) in [(3, 4), (4, 3), (5, 1), (1, 5), (5, 5)] {
        let mut ledger = ledger_with(&[("7", 5)]);
        let one = place(&mut ledger, vec![item("7", first)], "[]");
        let two = place(&mut ledger, vec![item("7", second)], "[]");
        assert_eq!(one, Outcome::Placed { order_id: 1 });
        assert_eq!(
            two,
            Outcome::Rejected(vec![rejected("7", second, LineOutcome::InsufficientStock)])
        );
        assert_eq!(ledger.stock("7"), Some(units(5 - first)));
        assert_eq!(ledger.orders.len(), 1);
    }
}
