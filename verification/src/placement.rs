//! Whole placements against the reference ledger: what an order does to
//! stock and to the order table, and the proof that it is all or nothing.

use vstd::prelude::*;
use vstd::pervasive::unreached;
use crate::checkout::{
    all_decremented, batch_of, decrements_of, insert_of, probes_of, restores_of, reversal_of,
    verdict_of, DraftView, LineOutcome, LineResultView, LineView, OpResult, OperationView,
    OrderDraft,
};
use crate::flow::{Action, Event, OrderFlow, Outcome, OutcomeView};
use crate::ledger::{
    apply_all, decrement, flag, lemma_apply_all_concat, lemma_apply_all_keeps_form,
    lemma_apply_all_single, lemma_position, lemma_position_with_stock, lemma_without_order,
    lemma_rows_keep_ids, position, restore, stock_of, stocks_in_range, with_stock, distinct_ids,
    Ledger, LedgerView, OrderRowView, StockRowView, STATUS_NEW,
};

verus! {

/// The product rows after the conditional decrements of the lines, taken
/// in cart order.
pub open spec fn after_decrements(products: Seq<StockRowView>, lines: Seq<LineView>) -> Seq<
    StockRowView,
>
    decreases lines.len(),
{
    if lines.len() == 0 {
        products
    } else {
        decrement(
            after_decrements(products, lines.drop_last()),
            lines.last().product_id,
            lines.last().quantity,
        ).0
    }
}

/// Whether the decrement of line `i` takes effect, the earlier lines
/// having had their turn.
pub open spec fn line_decremented(
    products: Seq<StockRowView>,
    lines: Seq<LineView>,
    i: int,
) -> bool {
    decrement(after_decrements(products, lines.take(i)), lines[i].product_id, lines[i].quantity).1
}

/// How line `i` fares.
pub open spec fn line_outcome(
    products: Seq<StockRowView>,
    lines: Seq<LineView>,
    i: int,
) -> LineOutcome {
    if line_decremented(products, lines, i) {
        LineOutcome::Decremented
    } else if position(products, lines[i].product_id) >= 0 {
        LineOutcome::InsufficientStock
    } else {
        LineOutcome::NotFound
    }
}

/// The verdict on a cart, line by line.
pub open spec fn verdict_on(products: Seq<StockRowView>, lines: Seq<LineView>) -> Seq<
    LineResultView,
> {
    Seq::new(
        lines.len(),
        |i: int|
            LineResultView {
                product_id: lines[i].product_id,
                requested: lines[i].quantity,
                outcome: line_outcome(products, lines, i),
            },
    )
}

/// The row that records a draft under an identity.
pub open spec fn order_row(id: int, draft: DraftView) -> OrderRowView {
    OrderRowView {
        id,
        customer_name: draft.customer_name,
        customer_phone: draft.customer_phone,
        address: draft.address,
        comment: draft.comment,
        items_json: draft.items_json,
        total: draft.total,
        status: STATUS_NEW@,
    }
}

/// What placing a draft does, all or nothing.
///
/// Where every line can be decremented in turn, the stock is lowered line
/// by line and one order row is added, with status `new` and the cart
/// snapshot of the draft. Where a line cannot, products and orders stay as
/// they were and the order is rejected with the per-line verdict. Either
/// way the order identity is used up.
pub open spec fn placed(ledger: LedgerView, draft: DraftView) -> (LedgerView, OutcomeView) {
    let verdict = verdict_on(ledger.products, draft.lines);
    if all_decremented(verdict) {
        (
            LedgerView {
                products: after_decrements(ledger.products, draft.lines),
                orders: ledger.orders.push(order_row(ledger.next_order_id, draft)),
                next_order_id: ledger.next_order_id + 1,
            },
            OutcomeView::Placed { order_id: ledger.next_order_id },
        )
    } else {
        (
            LedgerView {
                products: ledger.products,
                orders: ledger.orders,
                next_order_id: ledger.next_order_id + 1,
            },
            OutcomeView::Rejected(verdict),
        )
    }
}

proof fn lemma_decrement_facts(products: Seq<StockRowView>, id: Seq<char>, quantity: int)
    requires
        stocks_in_range(products),
    ensures
        stocks_in_range(decrement(products, id, quantity).0),
        decrement(products, id, quantity).0.len() == products.len(),
        distinct_ids(products) ==> distinct_ids(decrement(products, id, quantity).0),
        forall|other: Seq<char>|
            position(decrement(products, id, quantity).0, other) == position(products, other),
{
    lemma_position(products, id);
    lemma_rows_keep_ids(products, id, quantity);
    let k = position(products, id);
    let after = decrement(products, id, quantity).0;
    if decrement(products, id, quantity).1 {
        assert(0 <= products[k].stock);
        assert forall|i: int| 0 <= i < after.len() implies 0 <= (#[trigger] after[i]).stock
            <= i64::MAX by {
            assert(0 <= products[i].stock <= i64::MAX);
        }
        assert forall|other: Seq<char>| position(after, other) == position(products, other) by {
            lemma_position_with_stock(products, k, products[k].stock - quantity, other);
        }
    }
}

proof fn lemma_after_decrements_facts(products: Seq<StockRowView>, lines: Seq<LineView>)
    requires
        stocks_in_range(products),
    ensures
        stocks_in_range(after_decrements(products, lines)),
        after_decrements(products, lines).len() == products.len(),
        distinct_ids(products) ==> distinct_ids(after_decrements(products, lines)),
        forall|other: Seq<char>|
            position(after_decrements(products, lines), other) == position(products, other),
    decreases lines.len(),
{
    if lines.len() > 0 {
        lemma_after_decrements_facts(products, lines.drop_last());
        lemma_decrement_facts(
            after_decrements(products, lines.drop_last()),
            lines.last().product_id,
            lines.last().quantity,
        );
    }
}

/// A restore gives back exactly what a decrement that took effect took.
proof fn lemma_restore_undoes_decrement(products: Seq<StockRowView>, id: Seq<char>, quantity: int)
    requires
        stocks_in_range(products),
        decrement(products, id, quantity).1,
    ensures
        restore(decrement(products, id, quantity).0, id, quantity) == (products, true),
{
    lemma_position(products, id);
    let k = position(products, id);
    let lowered = with_stock(products, k, products[k].stock - quantity);
    lemma_position_with_stock(products, k, products[k].stock - quantity, id);
    assert(0 <= products[k].stock <= i64::MAX);
    assert(with_stock(lowered, k, products[k].stock) =~= products);
}

/// The decrements of a cart lower the stock line by line and report, for
/// each line, whether it took effect. They touch nothing else.
proof fn lemma_decrements_effect(ledger: LedgerView, lines: Seq<LineView>)
    ensures
        apply_all(ledger, decrements_of(lines)).0 == (LedgerView {
            products: after_decrements(ledger.products, lines),
            orders: ledger.orders,
            next_order_id: ledger.next_order_id,
        }),
        apply_all(ledger, decrements_of(lines)).1.len() == lines.len(),
        forall|i: int|
            0 <= i < lines.len() ==> #[trigger] apply_all(ledger, decrements_of(lines)).1[i]
                == (OpResult {
                changes: flag(line_decremented(ledger.products, lines, i)),
                rows: 0,
                last_row_id: 0,
            }),
    decreases lines.len(),
{
    let ops = decrements_of(lines);
    if lines.len() > 0 {
        let shorter = lines.drop_last();
        lemma_decrements_effect(ledger, shorter);
        assert(ops.drop_last() =~= decrements_of(shorter));
        assert(lines.take(lines.len() - 1) =~= shorter);
        assert forall|i: int| 0 <= i < lines.len() implies #[trigger] apply_all(ledger, ops).1[i]
            == (OpResult {
            changes: flag(line_decremented(ledger.products, lines, i)),
            rows: 0,
            last_row_id: 0,
        }) by {
            if i < shorter.len() {
                assert(shorter.take(i) =~= lines.take(i));
                assert(apply_all(ledger, ops).1[i] == apply_all(ledger, decrements_of(shorter)).1[i]);
            }
        }
    }
}

/// The probes of a cart change nothing and report, for each line, whether
/// the product exists.
proof fn lemma_probes_effect(ledger: LedgerView, lines: Seq<LineView>)
    ensures
        apply_all(ledger, probes_of(lines)).0 == ledger,
        apply_all(ledger, probes_of(lines)).1.len() == lines.len(),
        forall|i: int|
            0 <= i < lines.len() ==> #[trigger] apply_all(ledger, probes_of(lines)).1[i]
                == (OpResult {
                changes: 0,
                rows: flag(position(ledger.products, lines[i].product_id) >= 0),
                last_row_id: 0,
            }),
    decreases lines.len(),
{
    let ops = probes_of(lines);
    if lines.len() > 0 {
        let shorter = lines.drop_last();
        lemma_probes_effect(ledger, shorter);
        assert(ops.drop_last() =~= probes_of(shorter));
        assert forall|i: int| 0 <= i < lines.len() implies #[trigger] apply_all(ledger, ops).1[i]
            == (OpResult {
            changes: 0,
            rows: flag(position(ledger.products, lines[i].product_id) >= 0),
            last_row_id: 0,
        }) by {
            if i < shorter.len() {
                assert(apply_all(ledger, ops).1[i] == apply_all(ledger, probes_of(shorter)).1[i]);
            }
        }
    }
}

/// What the batch of a draft does to a ledger, and the verdict that its
/// report carries.
pub proof fn lemma_batch_effect(ledger: LedgerView, draft: DraftView)
    requires
        ledger.well_formed(),
        ledger.next_order_id < i64::MAX,
    ensures
        apply_all(ledger, batch_of(draft)).0 == (LedgerView {
            products: after_decrements(ledger.products, draft.lines),
            orders: ledger.orders.push(order_row(ledger.next_order_id, draft)),
            next_order_id: ledger.next_order_id + 1,
        }),
        apply_all(ledger, batch_of(draft)).1.len() == 1 + 2 * draft.lines.len(),
        apply_all(ledger, batch_of(draft)).1[0].last_row_id == ledger.next_order_id,
        verdict_of(draft, apply_all(ledger, batch_of(draft)).1) == verdict_on(
            ledger.products,
            draft.lines,
        ),
{
    let lines = draft.lines;
    let n = lines.len() as int;
    let first = seq![insert_of(draft)];
    let decs = decrements_of(lines);
    let probes = probes_of(lines);
    lemma_apply_all_single(ledger, insert_of(draft));
    let l1 = apply_all(ledger, first).0;
    lemma_apply_all_concat(ledger, first, decs);
    lemma_decrements_effect(l1, lines);
    let l2 = apply_all(ledger, first + decs).0;
    lemma_apply_all_concat(ledger, first + decs, probes);
    lemma_probes_effect(l2, lines);
    let report = apply_all(ledger, batch_of(draft)).1;
    assert(stocks_in_range(ledger.products));
    lemma_after_decrements_facts(ledger.products, lines);
    assert forall|i: int| 0 <= i < n implies (#[trigger] verdict_of(draft, report)[i])
        == verdict_on(ledger.products, lines)[i] by {
        let dec = apply_all(l1, decs).1[i];
        let probe = apply_all(l2, probes).1[i];
        assert(report[1 + i] == dec);
        assert(report[1 + n + i] == probe);
    }
    assert(verdict_of(draft, report) =~= verdict_on(ledger.products, lines));
}

/// Restoring the decremented lines, last line first, gives the product
/// rows back as they were before the decrements.
proof fn lemma_restores_undo(
    ledger: LedgerView,
    products: Seq<StockRowView>,
    lines: Seq<LineView>,
    verdict: Seq<LineResultView>,
)
    requires
        stocks_in_range(products),
        ledger.products == after_decrements(products, lines),
        verdict.len() == lines.len(),
        forall|i: int|
            0 <= i < lines.len() ==> {
                &&& (#[trigger] verdict[i]).product_id == lines[i].product_id
                &&& verdict[i].requested == lines[i].quantity
                &&& (verdict[i].outcome == LineOutcome::Decremented) == line_decremented(
                    products,
                    lines,
                    i,
                )
            },
    ensures
        apply_all(ledger, restores_of(verdict)).0 == (LedgerView {
            products,
            orders: ledger.orders,
            next_order_id: ledger.next_order_id,
        }),
    decreases lines.len(),
{
    if lines.len() > 0 {
        let n = lines.len() as int;
        let shorter = lines.drop_last();
        let last = lines.last();
        let earlier = verdict.drop_last();
        let judged = verdict.last();
        let mid = after_decrements(products, shorter);
        lemma_after_decrements_facts(products, shorter);
        assert(lines.take(n - 1) =~= shorter);
        assert(verdict[n - 1] == judged);
        let head = if judged.outcome == LineOutcome::Decremented {
            seq![OperationView::Restore { product_id: judged.product_id, quantity: judged.requested }]
        } else {
            Seq::<OperationView>::empty()
        };
        lemma_apply_all_concat(ledger, head, restores_of(earlier));
        let stepped = apply_all(ledger, head).0;
        if judged.outcome == LineOutcome::Decremented {
            lemma_apply_all_single(ledger, head[0]);
            lemma_restore_undoes_decrement(mid, last.product_id, last.quantity);
        }
        assert(stepped.products == mid);
        assert(stepped.orders == ledger.orders);
        assert(stepped.next_order_id == ledger.next_order_id);
        assert forall|i: int| 0 <= i < shorter.len() implies {
            &&& (#[trigger] earlier[i]).product_id == shorter[i].product_id
            &&& earlier[i].requested == shorter[i].quantity
            &&& (earlier[i].outcome == LineOutcome::Decremented) == line_decremented(
                products,
                shorter,
                i,
            )
        } by {
            assert(earlier[i] == verdict[i]);
            assert(shorter.take(i) =~= lines.take(i));
        }
        lemma_restores_undo(stepped, products, shorter, earlier);
    }
}

/// Taking a batch back leaves products and orders as they were before the
/// batch.
pub proof fn lemma_reversal_undoes_batch(ledger: LedgerView, draft: DraftView)
    requires
        ledger.well_formed(),
        ledger.next_order_id < i64::MAX,
    ensures
        apply_all(
            apply_all(ledger, batch_of(draft)).0,
            reversal_of(ledger.next_order_id, verdict_on(ledger.products, draft.lines)),
        ).0 == (LedgerView {
            products: ledger.products,
            orders: ledger.orders,
            next_order_id: ledger.next_order_id + 1,
        }),
{
    let lines = draft.lines;
    let verdict = verdict_on(ledger.products, lines);
    let after = apply_all(ledger, batch_of(draft)).0;
    lemma_batch_effect(ledger, draft);
    let removal = seq![OperationView::DeleteOrder { order_id: ledger.next_order_id }];
    lemma_apply_all_concat(after, removal, restores_of(verdict));
    lemma_apply_all_single(after, removal[0]);
    let cleared = apply_all(after, removal).0;
    assert(cleared.orders == ledger.orders) by {
        let row = order_row(ledger.next_order_id, draft);
        let all = ledger.orders.push(row);
        assert(all.drop_last() =~= ledger.orders);
        assert(all.last() == row);
        lemma_without_order(ledger.orders, ledger.next_order_id);
    }
    lemma_restores_undo(cleared, ledger.products, lines, verdict);
}

proof fn lemma_restores_len(verdict: Seq<LineResultView>)
    ensures
        restores_of(verdict).len() <= verdict.len(),
    decreases verdict.len(),
{
    if verdict.len() > 0 {
        lemma_restores_len(verdict.drop_last());
    }
}

/// Places a draft on the ledger by running the placement protocol to its
/// end: the batch goes in, and where a line failed it is taken back.
///
/// The result is all or nothing: see [`placed`].
pub fn place_order(ledger: &mut Ledger, draft: OrderDraft) -> (r: Outcome)
    requires
        old(ledger)@.well_formed(),
        old(ledger)@.next_order_id + 2 * draft@.lines.len() + 2 <= i64::MAX,
    ensures
        (final(ledger)@, r@) == placed(old(ledger)@, draft@),
        final(ledger)@.well_formed(),
{
    let ghost before = ledger@;
    let ghost plan = draft@;
    proof {
        lemma_batch_effect(before, plan);
        lemma_reversal_undoes_batch(before, plan);
        lemma_apply_all_keeps_form(before, batch_of(plan));
    }
    let (flow, action) = OrderFlow::start(draft);
    let batch = match action {
        Action::Submit(ops) => ops,
        _ => unreached(),
    };
    let report = ledger.run(&batch);
    let (flow, action) = flow.step(Event::Executed(report));
    match action {
        Action::Finish(outcome) => outcome,
        Action::Revert(undo) => {
            proof {
                lemma_restores_len(verdict_on(before.products, plan.lines));
            }
            let _ = ledger.run(&undo);
            let (_, action) = flow.step(Event::Reverted);
            match action {
                Action::Finish(outcome) => outcome,
                _ => unreached(),
            }
        },
        _ => unreached(),
    }
}

/// Placing an order on a well-formed ledger leaves a well-formed ledger,
/// whether the order stands or not: no stock is negative afterwards.
pub proof fn law_placement_keeps_form(ledger: LedgerView, draft: DraftView)
    requires
        ledger.well_formed(),
        ledger.next_order_id < i64::MAX,
    ensures
        placed(ledger, draft).0.well_formed(),
        stocks_in_range(placed(ledger, draft).0.products),
{
    lemma_after_decrements_facts(ledger.products, draft.lines);
    let after = placed(ledger, draft).0;
    assert forall|i: int| 0 <= i < after.orders.len() implies i64::MIN <= (
    #[trigger] after.orders[i]).id < after.next_order_id by {
        if i < ledger.orders.len() {
            assert(after.orders[i] == ledger.orders[i]);
        }
    }
}

/// All or nothing: where the decrement of any line would touch no row, no
/// order row is recorded and no stock is lowered, that of the other lines
/// included, and the order is rejected.
pub proof fn law_all_or_nothing(ledger: LedgerView, draft: DraftView, failing: int)
    requires
        0 <= failing < draft.lines.len(),
        !line_decremented(ledger.products, draft.lines, failing),
    ensures
        placed(ledger, draft).0.products == ledger.products,
        placed(ledger, draft).0.orders == ledger.orders,
        placed(ledger, draft).1 == OutcomeView::Rejected(
            verdict_on(ledger.products, draft.lines),
        ),
        verdict_on(ledger.products, draft.lines)[failing].outcome != LineOutcome::Decremented,
{
    let verdict = verdict_on(ledger.products, draft.lines);
    assert(verdict[failing].outcome != LineOutcome::Decremented);
}

/// An order of one line.
pub open spec fn single_line(draft: DraftView, product_id: Seq<char>, quantity: int) -> bool {
    draft.lines == seq![LineView { product_id, quantity }]
}

/// No overselling: of two orders for the same product that each fit the
/// stock alone but not together, the one that the store takes first is
/// placed and lowers the stock; the other is rejected for insufficient
/// stock and changes nothing. The stock ends at what the first one left,
/// which is not negative.
pub proof fn law_no_oversell(
    ledger: LedgerView,
    first: DraftView,
    second: DraftView,
    product_id: Seq<char>,
    first_quantity: int,
    second_quantity: int,
)
    requires
        ledger.well_formed(),
        stock_of(ledger.products, product_id) is Some,
        single_line(first, product_id, first_quantity),
        single_line(second, product_id, second_quantity),
        0 < first_quantity <= stock_of(ledger.products, product_id).unwrap(),
        0 < second_quantity <= stock_of(ledger.products, product_id).unwrap(),
        first_quantity + second_quantity > stock_of(ledger.products, product_id).unwrap(),
    ensures
        placed(ledger, first).1 == (OutcomeView::Placed { order_id: ledger.next_order_id }),
        placed(placed(ledger, first).0, second).1 == OutcomeView::Rejected(
            seq![
                LineResultView {
                    product_id,
                    requested: second_quantity,
                    outcome: LineOutcome::InsufficientStock,
                },
            ],
        ),
        placed(placed(ledger, first).0, second).0.products == placed(ledger, first).0.products,
        placed(placed(ledger, first).0, second).0.orders == placed(ledger, first).0.orders,
        stock_of(placed(placed(ledger, first).0, second).0.products, product_id) == Some(
            stock_of(ledger.products, product_id).unwrap() - first_quantity,
        ),
        stock_of(ledger.products, product_id).unwrap() - first_quantity >= 0,
{
    let products = ledger.products;
    let have = stock_of(products, product_id).unwrap();
    let k = position(products, product_id);
    lemma_position(products, product_id);
    assert(0 <= products[k].stock <= i64::MAX);
    // The first order: its one line is covered.
    assert(first.lines.take(0) =~= Seq::<LineView>::empty());
    assert(first.lines.drop_last() =~= Seq::<LineView>::empty());
    assert(line_decremented(products, first.lines, 0));
    let v1 = verdict_on(products, first.lines);
    assert(all_decremented(v1));
    let lowered = after_decrements(products, first.lines);
    assert(lowered == with_stock(products, k, have - first_quantity));
    lemma_position_with_stock(products, k, have - first_quantity, product_id);
    // The second order: what is left does not cover it.
    assert(second.lines.take(0) =~= Seq::<LineView>::empty());
    assert(!line_decremented(lowered, second.lines, 0));
    let v2 = verdict_on(lowered, second.lines);
    assert(v2[0].outcome == LineOutcome::InsufficientStock);
    assert(!all_decremented(v2));
    assert(v2 =~= seq![
        LineResultView {
            product_id,
            requested: second_quantity,
            outcome: LineOutcome::InsufficientStock,
        },
    ]);
}

} // verus!
