//! Order placement: from a checkout request to the operations that reserve
//! stock and record the order, and from the store's report back to a verdict.
//!
//! One order is one batch: a single order insert and, for every cart line,
//! a decrement that only takes effect where the stock covers the quantity.
//! A decrement that touches no row fails the whole order.

use vstd::prelude::*;
use vstd::string::*;
use crate::amount::{normalize_quantity, requested_quantity, Decimal, QuantityKind};
use crate::sql::{SqlValue, SqlValueView, Statement, StatementView};
use crate::text::{i64_of_text, owned_or_empty, parse_i64, text_or_empty};

verus! {

/// One entry of the cart as the request carries it.
#[derive(Debug, PartialEq, Eq)]
pub struct CartItem {
    /// The product identifier, where the entry holds one as text.
    pub id: Option<String>,
    /// The quantity, where the entry holds a number.
    pub quantity: Option<Decimal>,
}

/// A checkout request, field by field as the request body carries it.
#[derive(Debug, PartialEq, Eq)]
pub struct OrderPayload {
    pub name: Option<String>,
    pub phone: Option<String>,
    pub address: Option<String>,
    pub comment: Option<String>,
    /// The cart, or `None` where the body holds no list of items.
    pub items: Option<Vec<CartItem>>,
    /// The cart as serialised text, kept with the order as its snapshot.
    pub items_json: String,
    /// The total as the client computed it. It is recorded, never recomputed.
    pub total: Option<Decimal>,
}

/// Why a checkout request is turned down before the store is touched.
#[derive(Clone, Copy, Debug, PartialEq, Eq, Structural)]
pub enum OrderError {
    /// The request holds no list of items.
    MissingItems,
    /// The list of items is empty.
    EmptyCart,
    /// An item names no product: its identifier is missing, empty or zero.
    MissingProduct,
}

/// A cart line after normalisation.
#[derive(Debug, PartialEq, Eq)]
pub struct LineItem {
    pub product_id: String,
    /// In thousandths; never negative in a draft made by [`draft_order`].
    pub quantity: Decimal,
}

pub struct LineView {
    pub product_id: Seq<char>,
    pub quantity: int,
}

impl View for LineItem {
    type V = LineView;

    open spec fn view(&self) -> LineView {
        LineView { product_id: self.product_id@, quantity: self.quantity.thousandths as int }
    }
}

/// A validated order that has not reached the store yet.
#[derive(Debug, PartialEq, Eq)]
pub struct OrderDraft {
    pub customer_name: String,
    pub customer_phone: String,
    pub address: String,
    pub comment: String,
    pub items_json: String,
    pub total: Decimal,
    pub lines: Vec<LineItem>,
}

pub struct DraftView {
    pub customer_name: Seq<char>,
    pub customer_phone: Seq<char>,
    pub address: Seq<char>,
    pub comment: Seq<char>,
    pub items_json: Seq<char>,
    pub total: int,
    pub lines: Seq<LineView>,
}

pub open spec fn lines_view(lines: Seq<LineItem>) -> Seq<LineView> {
    Seq::new(lines.len(), |i: int| lines[i]@)
}

impl View for OrderDraft {
    type V = DraftView;

    open spec fn view(&self) -> DraftView {
        DraftView {
            customer_name: self.customer_name@,
            customer_phone: self.customer_phone@,
            address: self.address@,
            comment: self.comment@,
            items_json: self.items_json@,
            total: self.total.thousandths as int,
            lines: lines_view(self.lines@),
        }
    }
}

impl DraftView {
    /// A draft has at least one line and no negative quantity.
    pub open spec fn well_formed(self) -> bool {
        &&& self.lines.len() > 0
        &&& forall|i: int| 0 <= i < self.lines.len() ==> (#[trigger] self.lines[i]).quantity >= 0
    }
}

/// Whether an identifier names no product: it is missing, empty, or
/// writes the number zero.
pub open spec fn names_no_product(id: Option<String>) -> bool {
    match id {
        None => true,
        Some(s) => s@.len() == 0 || i64_of_text(s@) == Some(0i64),
    }
}

/// Whether some item of a cart names no product.
pub open spec fn lacks_product(items: Seq<CartItem>) -> bool {
    exists|i: int| 0 <= i < items.len() && names_no_product((#[trigger] items[i]).id)
}

/// The line that a cart entry asks for.
pub open spec fn line_of(item: CartItem, kind: QuantityKind) -> LineView {
    LineView {
        product_id: text_or_empty(item.id),
        quantity: requested_quantity(item.quantity, kind),
    }
}

/// The draft that a request with a cart describes.
pub open spec fn draft_of(payload: OrderPayload, kind: QuantityKind) -> DraftView
    recommends
        payload.items is Some,
{
    let items = payload.items.unwrap()@;
    DraftView {
        customer_name: text_or_empty(payload.name),
        customer_phone: text_or_empty(payload.phone),
        address: text_or_empty(payload.address),
        comment: text_or_empty(payload.comment),
        items_json: payload.items_json@,
        total: match payload.total {
            Some(t) => t.thousandths as int,
            None => 0,
        },
        lines: Seq::new(items.len(), |i: int| line_of(items[i], kind)),
    }
}

fn is_zero(number: Option<i64>) -> (r: bool)
    ensures
        r == (number == Some(0i64)),
{
    match number {
        Some(n) => n == 0,
        None => false,
    }
}

/// Validates a checkout request and normalises its cart.
///
/// A request without a list of items, with an empty one, or with an item
/// that names no product is refused. Every other request gives the draft
/// that [`draft_of`] describes.
pub fn draft_order(payload: &OrderPayload, kind: QuantityKind) -> (r: Result<
    OrderDraft,
    OrderError,
>)
    ensures
        match payload.items {
            None => r == Err::<OrderDraft, OrderError>(OrderError::MissingItems),
            Some(items) => if items@.len() == 0 {
                r == Err::<OrderDraft, OrderError>(OrderError::EmptyCart)
            } else if lacks_product(items@) {
                r == Err::<OrderDraft, OrderError>(OrderError::MissingProduct)
            } else {
                &&& r is Ok
                &&& r.unwrap()@ == draft_of(*payload, kind)
                &&& r.unwrap()@.well_formed()
            },
        },
{
    let items = match &payload.items {
        Some(items) => items,
        None => {
            return Err(OrderError::MissingItems);
        },
    };
    if items.len() == 0 {
        return Err(OrderError::EmptyCart);
    }
    let mut lines: Vec<LineItem> = Vec::new();
    let mut i: usize = 0;
    while i < items.len()
        invariant
            i <= items@.len(),
            lines@.len() == i,
            forall|j: int| 0 <= j < i ==> (#[trigger] lines@[j])@ == line_of(items@[j], kind),
            forall|j: int| 0 <= j < i ==> !names_no_product((#[trigger] items@[j]).id),
            payload.items == Some(*items),
            items@.len() > 0,
        decreases items.len() - i,
    {
        let item = &items[i];
        let product_id = match &item.id {
            Some(s) => {
                if s.as_str().unicode_len() == 0 || is_zero(parse_i64(s.as_str())) {
                    assert(names_no_product(items@[i as int].id));
                    return Err(OrderError::MissingProduct);
                }
                s.clone()
            },
            None => {
                assert(names_no_product(items@[i as int].id));
                return Err(OrderError::MissingProduct);
            },
        };
        let quantity = normalize_quantity(item.quantity, kind);
        lines.push(LineItem { product_id, quantity });
        i = i + 1;
    }
    let draft = OrderDraft {
        customer_name: owned_or_empty(&payload.name),
        customer_phone: owned_or_empty(&payload.phone),
        address: owned_or_empty(&payload.address),
        comment: owned_or_empty(&payload.comment),
        items_json: payload.items_json.clone(),
        total: match payload.total {
            Some(t) => t,
            None => Decimal::zero(),
        },
        lines,
    };
    assert(draft@.lines =~= draft_of(*payload, kind).lines);
    Ok(draft)
}

/// The statement that records an order. The store sets the status to
/// `new` and stamps the time itself.
pub const INSERT_ORDER_SQL: &'static str =
    "INSERT INTO orders (customer_name, customer_phone, address, comment, items_json, total_price, status, created_at) VALUES (?, ?, ?, ?, ?, ?, 'new', datetime('now'))";

/// The conditional decrement: it touches the product's row only where the
/// stock covers the quantity.
pub const DECREMENT_SQL: &'static str =
    "UPDATE products SET stock = stock - ? WHERE id = ? AND stock >= ?";

/// Reads the product's row, to tell a missing product from a short stock.
pub const PROBE_SQL: &'static str = "SELECT id FROM products WHERE id = ?";

/// Gives back what a decrement took.
pub const RESTORE_SQL: &'static str = "UPDATE products SET stock = stock + ? WHERE id = ?";

/// Removes an order row.
pub const DELETE_ORDER_SQL: &'static str = "DELETE FROM orders WHERE id = ?";

/// One typed operation of a batch.
#[derive(Debug, PartialEq, Eq)]
pub enum Operation {
    InsertOrder {
        customer_name: String,
        customer_phone: String,
        address: String,
        comment: String,
        items_json: String,
        total: Decimal,
    },
    Decrement { product_id: String, quantity: Decimal },
    Probe { product_id: String },
    Restore { product_id: String, quantity: Decimal },
    DeleteOrder { order_id: i64 },
}

pub enum OperationView {
    InsertOrder {
        customer_name: Seq<char>,
        customer_phone: Seq<char>,
        address: Seq<char>,
        comment: Seq<char>,
        items_json: Seq<char>,
        total: int,
    },
    Decrement { product_id: Seq<char>, quantity: int },
    Probe { product_id: Seq<char> },
    Restore { product_id: Seq<char>, quantity: int },
    DeleteOrder { order_id: int },
}

impl View for Operation {
    type V = OperationView;

    open spec fn view(&self) -> OperationView {
        match self {
            Operation::InsertOrder {
                customer_name,
                customer_phone,
                address,
                comment,
                items_json,
                total,
            } => OperationView::InsertOrder {
                customer_name: customer_name@,
                customer_phone: customer_phone@,
                address: address@,
                comment: comment@,
                items_json: items_json@,
                total: total.thousandths as int,
            },
            Operation::Decrement { product_id, quantity } => OperationView::Decrement {
                product_id: product_id@,
                quantity: quantity.thousandths as int,
            },
            Operation::Probe { product_id } => OperationView::Probe { product_id: product_id@ },
            Operation::Restore { product_id, quantity } => OperationView::Restore {
                product_id: product_id@,
                quantity: quantity.thousandths as int,
            },
            Operation::DeleteOrder { order_id } => OperationView::DeleteOrder {
                order_id: *order_id as int,
            },
        }
    }
}

pub open spec fn operations_view(ops: Seq<Operation>) -> Seq<OperationView> {
    Seq::new(ops.len(), |i: int| ops[i]@)
}

pub proof fn lemma_operations_view_push(ops: Seq<Operation>, op: Operation)
    ensures
        operations_view(ops.push(op)) == operations_view(ops).push(op@),
{
    assert(operations_view(ops.push(op)) =~= operations_view(ops).push(op@));
}

/// The statement that carries out an operation. Every value of the
/// operation is a bound parameter; the text is one of five fixed texts.
pub open spec fn statement_of(op: OperationView) -> StatementView {
    match op {
        OperationView::InsertOrder {
            customer_name,
            customer_phone,
            address,
            comment,
            items_json,
            total,
        } => StatementView {
            sql: INSERT_ORDER_SQL@,
            params: seq![
                SqlValueView::Text(customer_name),
                SqlValueView::Text(customer_phone),
                SqlValueView::Text(address),
                SqlValueView::Text(comment),
                SqlValueView::Text(items_json),
                SqlValueView::Real(total),
            ],
        },
        OperationView::Decrement { product_id, quantity } => StatementView {
            sql: DECREMENT_SQL@,
            params: seq![
                SqlValueView::Real(quantity),
                SqlValueView::Text(product_id),
                SqlValueView::Real(quantity),
            ],
        },
        OperationView::Probe { product_id } => StatementView {
            sql: PROBE_SQL@,
            params: seq![SqlValueView::Text(product_id)],
        },
        OperationView::Restore { product_id, quantity } => StatementView {
            sql: RESTORE_SQL@,
            params: seq![SqlValueView::Real(quantity), SqlValueView::Text(product_id)],
        },
        OperationView::DeleteOrder { order_id } => StatementView {
            sql: DELETE_ORDER_SQL@,
            params: seq![SqlValueView::Integer(order_id)],
        },
    }
}

impl Operation {
    /// Renders the operation as a parameterised statement.
    pub fn statement(&self) -> (r: Statement)
        ensures
            r@ == statement_of(self@),
    {
        let mut params: Vec<SqlValue> = Vec::new();
        let sql = match self {
            Operation::InsertOrder {
                customer_name,
                customer_phone,
                address,
                comment,
                items_json,
                total,
            } => {
                params.push(SqlValue::Text(customer_name.clone()));
                params.push(SqlValue::Text(customer_phone.clone()));
                params.push(SqlValue::Text(address.clone()));
                params.push(SqlValue::Text(comment.clone()));
                params.push(SqlValue::Text(items_json.clone()));
                params.push(SqlValue::Real(*total));
                INSERT_ORDER_SQL
            },
            Operation::Decrement { product_id, quantity } => {
                params.push(SqlValue::Real(*quantity));
                params.push(SqlValue::Text(product_id.clone()));
                params.push(SqlValue::Real(*quantity));
                DECREMENT_SQL
            },
            Operation::Probe { product_id } => {
                params.push(SqlValue::Text(product_id.clone()));
                PROBE_SQL
            },
            Operation::Restore { product_id, quantity } => {
                params.push(SqlValue::Real(*quantity));
                params.push(SqlValue::Text(product_id.clone()));
                RESTORE_SQL
            },
            Operation::DeleteOrder { order_id } => {
                params.push(SqlValue::Integer(*order_id));
                DELETE_ORDER_SQL
            },
        };
        let r = Statement { sql: String::from_str(sql), params };
        assert(r@.params =~= statement_of(self@).params);
        r
    }
}

/// What the store reports of one operation.
#[derive(Clone, Copy, Debug, PartialEq, Eq, Structural)]
pub struct OpResult {
    /// Rows that the operation changed.
    pub changes: u64,
    /// Rows that the operation returned.
    pub rows: u64,
    /// The identity of the row that an insert made.
    pub last_row_id: i64,
}

/// How one cart line fared.
#[derive(Clone, Copy, Debug, PartialEq, Eq, Structural)]
pub enum LineOutcome {
    /// The stock covered the quantity and was lowered by it.
    Decremented,
    /// The product exists, its stock is below the quantity.
    InsufficientStock,
    /// The store holds no such product.
    NotFound,
}

#[derive(Debug, PartialEq, Eq)]
pub struct LineResult {
    pub product_id: String,
    pub requested: Decimal,
    pub outcome: LineOutcome,
}

pub struct LineResultView {
    pub product_id: Seq<char>,
    pub requested: int,
    pub outcome: LineOutcome,
}

impl View for LineResult {
    type V = LineResultView;

    open spec fn view(&self) -> LineResultView {
        LineResultView {
            product_id: self.product_id@,
            requested: self.requested.thousandths as int,
            outcome: self.outcome,
        }
    }
}

pub open spec fn results_view(results: Seq<LineResult>) -> Seq<LineResultView> {
    Seq::new(results.len(), |i: int| results[i]@)
}

/// The insert that records a draft.
pub open spec fn insert_of(draft: DraftView) -> OperationView {
    OperationView::InsertOrder {
        customer_name: draft.customer_name,
        customer_phone: draft.customer_phone,
        address: draft.address,
        comment: draft.comment,
        items_json: draft.items_json,
        total: draft.total,
    }
}

/// One conditional decrement per line, in cart order.
pub open spec fn decrements_of(lines: Seq<LineView>) -> Seq<OperationView> {
    Seq::new(
        lines.len(),
        |i: int|
            OperationView::Decrement {
                product_id: lines[i].product_id,
                quantity: lines[i].quantity,
            },
    )
}

/// One probe per line, in cart order.
pub open spec fn probes_of(lines: Seq<LineView>) -> Seq<OperationView> {
    Seq::new(lines.len(), |i: int| OperationView::Probe { product_id: lines[i].product_id })
}

/// The batch of a draft: the order insert, then the decrements, then the
/// probes.
pub open spec fn batch_of(draft: DraftView) -> Seq<OperationView> {
    seq![insert_of(draft)] + decrements_of(draft.lines) + probes_of(draft.lines)
}

/// How a line fared, from the reports of its decrement and of its probe.
pub open spec fn outcome_of(decrement: OpResult, probe: OpResult) -> LineOutcome {
    if decrement.changes >= 1 {
        LineOutcome::Decremented
    } else if probe.rows >= 1 {
        LineOutcome::InsufficientStock
    } else {
        LineOutcome::NotFound
    }
}

/// The per-line verdict on a batch, from the store's report of it.
pub open spec fn verdict_of(draft: DraftView, report: Seq<OpResult>) -> Seq<LineResultView>
    recommends
        report.len() == 1 + 2 * draft.lines.len(),
{
    Seq::new(
        draft.lines.len(),
        |i: int|
            LineResultView {
                product_id: draft.lines[i].product_id,
                requested: draft.lines[i].quantity,
                outcome: outcome_of(report[1 + i], report[1 + draft.lines.len() + i]),
            },
    )
}

/// An order stands only where every line was decremented.
pub open spec fn all_decremented(verdict: Seq<LineResultView>) -> bool {
    forall|i: int|
        0 <= i < verdict.len() ==> (#[trigger] verdict[i]).outcome == LineOutcome::Decremented
}

/// The restores that give back what the decremented lines took, last line
/// first.
pub open spec fn restores_of(verdict: Seq<LineResultView>) -> Seq<OperationView>
    decreases verdict.len(),
{
    if verdict.len() == 0 {
        Seq::empty()
    } else {
        let last = verdict.last();
        let head = if last.outcome == LineOutcome::Decremented {
            seq![OperationView::Restore { product_id: last.product_id, quantity: last.requested }]
        } else {
            Seq::empty()
        };
        head + restores_of(verdict.drop_last())
    }
}

/// The operations that take a batch back: the order row goes, and every
/// decremented line gets its quantity back.
pub open spec fn reversal_of(order_id: int, verdict: Seq<LineResultView>) -> Seq<OperationView> {
    seq![OperationView::DeleteOrder { order_id }] + restores_of(verdict)
}

impl OrderDraft {
    /// The operations that place this order: see [`batch_of`].
    pub fn batch(&self) -> (r: Vec<Operation>)
        ensures
            operations_view(r@) == batch_of(self@),
    {
        let n = self.lines.len();
        let mut ops: Vec<Operation> = Vec::new();
        ops.push(
            Operation::InsertOrder {
                customer_name: self.customer_name.clone(),
                customer_phone: self.customer_phone.clone(),
                address: self.address.clone(),
                comment: self.comment.clone(),
                items_json: self.items_json.clone(),
                total: self.total,
            },
        );
        let mut i: usize = 0;
        while i < n
            invariant
                i <= n,
                n == self.lines@.len(),
                ops@.len() == 1 + i,
                ops@[0]@ == batch_of(self@)[0],
                forall|j: int| 0 <= j < i ==> (#[trigger] ops@[1 + j])@ == batch_of(self@)[1 + j],
            decreases n - i,
        {
            let line = &self.lines[i];
            ops.push(
                Operation::Decrement {
                    product_id: line.product_id.clone(),
                    quantity: line.quantity,
                },
            );
            i = i + 1;
        }
        assert forall|j: int| 0 <= j < 1 + n implies (#[trigger] ops@[j])@ == batch_of(self@)[j] by {
            if j > 0 {
                assert(ops@[1 + (j - 1)]@ == batch_of(self@)[1 + (j - 1)]);
            }
        }
        let mut k: usize = 0;
        while k < n
            invariant
                k <= n,
                n == self.lines@.len(),
                ops@.len() == 1 + n + k,
                forall|j: int| 0 <= j < 1 + n + k ==> (#[trigger] ops@[j])@ == batch_of(self@)[j],
            decreases n - k,
        {
            let line = &self.lines[k];
            ops.push(Operation::Probe { product_id: line.product_id.clone() });
            k = k + 1;
        }
        assert(operations_view(ops@) =~= batch_of(self@));
        ops
    }

    /// Reads the store's report of the batch line by line.
    ///
    /// The report must hold one entry per operation of the batch; any other
    /// report gives `None`.
    pub fn verdict(&self, report: &Vec<OpResult>) -> (r: Option<Vec<LineResult>>)
        ensures
            r is Some <==> report@.len() == 1 + 2 * self@.lines.len(),
            r is Some ==> results_view(r.unwrap()@) == verdict_of(self@, report@),
    {
        let n = self.lines.len();
        if report.len() < 1 || (report.len() - 1) % 2 != 0 || (report.len() - 1) / 2 != n {
            return None;
        }
        let mut out: Vec<LineResult> = Vec::new();
        let mut i: usize = 0;
        while i < n
            invariant
                i <= n,
                n == self.lines@.len(),
                report.len() == 1 + 2 * n,
                out@.len() == i,
                forall|j: int| 0 <= j < i ==> (#[trigger] out@[j])@ == verdict_of(self@, report@)[j],
            decreases n - i,
        {
            let line = &self.lines[i];
            let decrement = report[1 + i];
            let probe = report[1 + n + i];
            let outcome = if decrement.changes >= 1 {
                LineOutcome::Decremented
            } else if probe.rows >= 1 {
                LineOutcome::InsufficientStock
            } else {
                LineOutcome::NotFound
            };
            out.push(
                LineResult {
                    product_id: line.product_id.clone(),
                    requested: line.quantity,
                    outcome,
                },
            );
            i = i + 1;
        }
        assert(results_view(out@) =~= verdict_of(self@, report@));
        Some(out)
    }
}

/// Whether every line of a verdict was decremented.
pub fn accepted(verdict: &Vec<LineResult>) -> (r: bool)
    ensures
        r == all_decremented(results_view(verdict@)),
{
    let mut i: usize = 0;
    while i < verdict.len()
        invariant
            i <= verdict@.len(),
            forall|j: int|
                0 <= j < i ==> (#[trigger] results_view(verdict@)[j]).outcome
                    == LineOutcome::Decremented,
        decreases verdict.len() - i,
    {
        match verdict[i].outcome {
            LineOutcome::Decremented => {},
            _ => {
                assert(results_view(verdict@)[i as int].outcome != LineOutcome::Decremented);
                return false;
            },
        }
        i = i + 1;
    }
    true
}

/// The operations that take a batch back: see [`reversal_of`].
pub fn reversal(order_id: i64, verdict: &Vec<LineResult>) -> (r: Vec<Operation>)
    ensures
        operations_view(r@) == reversal_of(order_id as int, results_view(verdict@)),
{
    let ghost whole = results_view(verdict@);
    let mut ops: Vec<Operation> = Vec::new();
    ops.push(Operation::DeleteOrder { order_id });
    let mut i: usize = verdict.len();
    assert(whole.take(i as int) == whole);
    assert(operations_view(ops@) =~= seq![OperationView::DeleteOrder { order_id: order_id as int }]);
    while i > 0
        invariant
            i <= verdict@.len(),
            whole == results_view(verdict@),
            reversal_of(order_id as int, whole) == operations_view(ops@) + restores_of(
                whole.take(i as int),
            ),
        decreases i,
    {
        i = i - 1;
        let line = &verdict[i];
        let ghost before = operations_view(ops@);
        let ghost prefix = whole.take(i + 1);
        assert(prefix.drop_last() == whole.take(i as int));
        assert(prefix.last() == line@);
        match line.outcome {
            LineOutcome::Decremented => {
                let op = Operation::Restore {
                    product_id: line.product_id.clone(),
                    quantity: line.requested,
                };
                proof {
                    lemma_operations_view_push(ops@, op);
                    assert(before + (seq![op@] + restores_of(whole.take(i as int))) =~= before.push(
                        op@,
                    ) + restores_of(whole.take(i as int)));
                }
                ops.push(op);
            },
            _ => {
                assert(Seq::<OperationView>::empty() + restores_of(whole.take(i as int))
                    =~= restores_of(whole.take(i as int)));
            },
        }
    }
    assert(whole.take(0) =~= Seq::<LineResultView>::empty());
    assert(operations_view(ops@) + Seq::<OperationView>::empty() =~= operations_view(ops@));
    ops
}

} // verus!
