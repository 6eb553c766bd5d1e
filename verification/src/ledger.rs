//! A store held in memory.
//!
//! It gives every [`Operation`] the meaning that the relational store gives
//! its statement, so that whole placements can be run and reasoned about
//! without a database. Stock is kept in thousandths and never goes negative.

use vstd::prelude::*;
use vstd::string::*;
use crate::amount::Decimal;
use crate::catalog::Visibility;
use crate::checkout::{operations_view, OpResult, Operation, OperationView};

verus! {

/// A product's identifier and stock.
#[derive(Debug, PartialEq, Eq)]
pub struct StockRow {
    pub id: String,
    pub stock: Decimal,
}

pub struct StockRowView {
    pub id: Seq<char>,
    pub stock: int,
}

impl View for StockRow {
    type V = StockRowView;

    open spec fn view(&self) -> StockRowView {
        StockRowView { id: self.id@, stock: self.stock.thousandths as int }
    }
}

/// A recorded order. The time stamp is the store's own and is not modelled.
#[derive(Debug, PartialEq, Eq)]
pub struct OrderRow {
    pub id: i64,
    pub customer_name: String,
    pub customer_phone: String,
    pub address: String,
    pub comment: String,
    pub items_json: String,
    pub total: Decimal,
    pub status: String,
}

pub struct OrderRowView {
    pub id: int,
    pub customer_name: Seq<char>,
    pub customer_phone: Seq<char>,
    pub address: Seq<char>,
    pub comment: Seq<char>,
    pub items_json: Seq<char>,
    pub total: int,
    pub status: Seq<char>,
}

impl View for OrderRow {
    type V = OrderRowView;

    open spec fn view(&self) -> OrderRowView {
        OrderRowView {
            id: self.id as int,
            customer_name: self.customer_name@,
            customer_phone: self.customer_phone@,
            address: self.address@,
            comment: self.comment@,
            items_json: self.items_json@,
            total: self.total.thousandths as int,
            status: self.status@,
        }
    }
}

/// The status of an order that has just been recorded.
pub const STATUS_NEW: &'static str = "new";

/// Products and orders, with the identity that the next order gets.
#[derive(Debug, PartialEq, Eq)]
pub struct Ledger {
    pub products: Vec<StockRow>,
    pub orders: Vec<OrderRow>,
    pub next_order_id: i64,
}

pub struct LedgerView {
    pub products: Seq<StockRowView>,
    pub orders: Seq<OrderRowView>,
    pub next_order_id: int,
}

pub open spec fn stock_view(rows: Seq<StockRow>) -> Seq<StockRowView> {
    Seq::new(rows.len(), |i: int| rows[i]@)
}

pub open spec fn orders_view(rows: Seq<OrderRow>) -> Seq<OrderRowView> {
    Seq::new(rows.len(), |i: int| rows[i]@)
}

impl View for Ledger {
    type V = LedgerView;

    open spec fn view(&self) -> LedgerView {
        LedgerView {
            products: stock_view(self.products@),
            orders: orders_view(self.orders@),
            next_order_id: self.next_order_id as int,
        }
    }
}

/// Every stock is at least zero and fits the machine.
pub open spec fn stocks_in_range(products: Seq<StockRowView>) -> bool {
    forall|i: int| 0 <= i < products.len() ==> 0 <= (#[trigger] products[i]).stock <= i64::MAX
}

/// No two rows have the same identifier.
pub open spec fn distinct_ids(products: Seq<StockRowView>) -> bool {
    forall|i: int, j: int|
        0 <= i < j < products.len() ==> (#[trigger] products[i]).id != (#[trigger] products[j]).id
}

impl LedgerView {
    /// Every product has its own identifier, no stock is negative, every
    /// number fits the machine, and every recorded order has an identity
    /// below the next one.
    pub open spec fn well_formed(self) -> bool {
        &&& distinct_ids(self.products)
        &&& stocks_in_range(self.products)
        &&& forall|i: int|
            0 <= i < self.orders.len() ==> i64::MIN <= (#[trigger] self.orders[i]).id
                < self.next_order_id
        &&& i64::MIN <= self.next_order_id <= i64::MAX
    }
}

/// The place of the first row with this identifier, or -1.
pub open spec fn position(products: Seq<StockRowView>, id: Seq<char>) -> int
    decreases products.len(),
{
    if products.len() == 0 {
        -1
    } else {
        let earlier = position(products.drop_last(), id);
        if earlier >= 0 {
            earlier
        } else if products.last().id == id {
            products.len() - 1
        } else {
            -1
        }
    }
}

/// The stock of a product, where the ledger holds it.
pub open spec fn stock_of(products: Seq<StockRowView>, id: Seq<char>) -> Option<int> {
    let k = position(products, id);
    if k >= 0 {
        Some(products[k].stock)
    } else {
        None
    }
}

/// The rows with the stock of row `k` set to `stock`.
pub open spec fn with_stock(products: Seq<StockRowView>, k: int, stock: int) -> Seq<
    StockRowView,
> {
    products.update(k, StockRowView { id: products[k].id, stock })
}

/// The conditional decrement on the product rows, and whether it took
/// effect: only a product that exists and whose stock covers the quantity
/// is touched.
pub open spec fn decrement(products: Seq<StockRowView>, id: Seq<char>, quantity: int) -> (
    Seq<StockRowView>,
    bool,
) {
    let k = position(products, id);
    if k >= 0 && products[k].stock >= quantity && products[k].stock - quantity <= i64::MAX {
        (with_stock(products, k, products[k].stock - quantity), true)
    } else {
        (products, false)
    }
}

/// The restore on the product rows, and whether it took effect. It leaves
/// the rows alone where the result would be negative or not fit.
pub open spec fn restore(products: Seq<StockRowView>, id: Seq<char>, quantity: int) -> (
    Seq<StockRowView>,
    bool,
) {
    let k = position(products, id);
    if k >= 0 && 0 <= products[k].stock + quantity <= i64::MAX {
        (with_stock(products, k, products[k].stock + quantity), true)
    } else {
        (products, false)
    }
}

/// The orders without those of the given identity.
pub open spec fn without_order(orders: Seq<OrderRowView>, id: int) -> Seq<OrderRowView>
    decreases orders.len(),
{
    if orders.len() == 0 {
        orders
    } else if orders.last().id == id {
        without_order(orders.drop_last(), id)
    } else {
        without_order(orders.drop_last(), id).push(orders.last())
    }
}

pub open spec fn flag(b: bool) -> u64 {
    if b {
        1
    } else {
        0
    }
}

/// What one operation does to the ledger, and what the store reports of it.
pub open spec fn apply(ledger: LedgerView, op: OperationView) -> (LedgerView, OpResult) {
    match op {
        OperationView::InsertOrder {
            customer_name,
            customer_phone,
            address,
            comment,
            items_json,
            total,
        } => (
            LedgerView {
                products: ledger.products,
                orders: ledger.orders.push(
                    OrderRowView {
                        id: ledger.next_order_id,
                        customer_name,
                        customer_phone,
                        address,
                        comment,
                        items_json,
                        total,
                        status: STATUS_NEW@,
                    },
                ),
                next_order_id: ledger.next_order_id + 1,
            },
            OpResult { changes: 1, rows: 0, last_row_id: ledger.next_order_id as i64 },
        ),
        OperationView::Decrement { product_id, quantity } => {
            let (products, done) = decrement(ledger.products, product_id, quantity);
            (
                LedgerView {
                    products,
                    orders: ledger.orders,
                    next_order_id: ledger.next_order_id,
                },
                OpResult { changes: flag(done), rows: 0, last_row_id: 0 },
            )
        },
        OperationView::Probe { product_id } => (
            ledger,
            OpResult {
                changes: 0,
                rows: flag(position(ledger.products, product_id) >= 0),
                last_row_id: 0,
            },
        ),
        OperationView::Restore { product_id, quantity } => {
            let (products, done) = restore(ledger.products, product_id, quantity);
            (
                LedgerView {
                    products,
                    orders: ledger.orders,
                    next_order_id: ledger.next_order_id,
                },
                OpResult { changes: flag(done), rows: 0, last_row_id: 0 },
            )
        },
        OperationView::DeleteOrder { order_id } => {
            let orders = without_order(ledger.orders, order_id);
            (
                LedgerView {
                    products: ledger.products,
                    orders,
                    next_order_id: ledger.next_order_id,
                },
                OpResult {
                    changes: (ledger.orders.len() - orders.len()) as u64,
                    rows: 0,
                    last_row_id: 0,
                },
            )
        },
    }
}

/// What a run of operations does, one after the other, and the report of
/// each.
pub open spec fn apply_all(ledger: LedgerView, ops: Seq<OperationView>) -> (
    LedgerView,
    Seq<OpResult>,
)
    decreases ops.len(),
{
    if ops.len() == 0 {
        (ledger, Seq::empty())
    } else {
        let (before, reports) = apply_all(ledger, ops.drop_last());
        let (after, report) = apply(before, ops.last());
        (after, reports.push(report))
    }
}

pub proof fn lemma_position(products: Seq<StockRowView>, id: Seq<char>)
    ensures
        -1 <= position(products, id) < products.len(),
        position(products, id) >= 0 ==> products[position(products, id)].id == id,
        forall|j: int|
            0 <= j < products.len() && (j < position(products, id) || position(products, id) < 0)
                ==> (#[trigger] products[j]).id != id,
    decreases products.len(),
{
    if products.len() > 0 {
        let shorter = products.drop_last();
        lemma_position(shorter, id);
        assert forall|j: int|
            0 <= j < products.len() && (j < position(products, id) || position(products, id)
                < 0) implies (#[trigger] products[j]).id != id by {
            if j < shorter.len() {
                assert(shorter[j] == products[j]);
            }
        }
    }
}

/// The first row with an identifier is where [`position`] points.
pub proof fn lemma_position_is(products: Seq<StockRowView>, id: Seq<char>, k: int)
    requires
        0 <= k < products.len(),
        products[k].id == id,
        forall|j: int| 0 <= j < k ==> (#[trigger] products[j]).id != id,
    ensures
        position(products, id) == k,
{
    lemma_position(products, id);
    let p = position(products, id);
    if p < 0 {
        assert(products[k].id != id);
    } else if p < k {
        assert(products[p].id != id);
    } else if k < p {
        assert(products[k].id != id);
    }
}

/// Setting a stock moves no row.
pub proof fn lemma_position_with_stock(
    products: Seq<StockRowView>,
    k: int,
    stock: int,
    id: Seq<char>,
)
    requires
        0 <= k < products.len(),
    ensures
        position(with_stock(products, k, stock), id) == position(products, id),
{
    let changed = with_stock(products, k, stock);
    lemma_position(products, id);
    lemma_position(changed, id);
    let p = position(products, id);
    let q = position(changed, id);
    assert forall|j: int| 0 <= j < products.len() implies (#[trigger] changed[j]).id
        == products[j].id by {}
    if p >= 0 {
        assert(changed[p].id == id);
        assert forall|j: int| 0 <= j < p implies (#[trigger] changed[j]).id != id by {
            assert(products[j].id != id);
        }
        lemma_position_is(changed, id, p);
    } else if q >= 0 {
        assert(products[q].id != id);
    }
}

proof fn lemma_stock_view_push(rows: Seq<StockRow>, row: StockRow)
    ensures
        stock_view(rows.push(row)) == stock_view(rows).push(row@),
{
    assert(stock_view(rows.push(row)) =~= stock_view(rows).push(row@));
}

proof fn lemma_orders_view_push(rows: Seq<OrderRow>, row: OrderRow)
    ensures
        orders_view(rows.push(row)) == orders_view(rows).push(row@),
{
    assert(orders_view(rows.push(row)) =~= orders_view(rows).push(row@));
}

impl Ledger {
    /// A ledger without products or orders; the first order gets identity 1.
    pub fn new() -> (r: Ledger)
        ensures
            r@.products.len() == 0,
            r@.orders.len() == 0,
            r@.next_order_id == 1,
            r@.well_formed(),
    {
        Ledger { products: Vec::new(), orders: Vec::new(), next_order_id: 1 }
    }

    /// The place of a product's row, if the ledger holds the product.
    pub fn find(&self, id: &String) -> (r: Option<usize>)
        ensures
            match r {
                Some(k) => k < self@.products.len() && k == position(self@.products, id@),
                None => position(self@.products, id@) == -1,
            },
    {
        let mut i: usize = 0;
        while i < self.products.len()
            invariant
                i <= self.products@.len(),
                forall|j: int| 0 <= j < i ==> (#[trigger] self@.products[j]).id != id@,
            decreases self.products.len() - i,
        {
            if self.products[i].id == *id {
                proof {
                    lemma_position_is(self@.products, id@, i as int);
                }
                return Some(i);
            }
            i = i + 1;
        }
        proof {
            lemma_position(self@.products, id@);
            let p = position(self@.products, id@);
            if p >= 0 {
                assert(self@.products[p].id != id@);
            }
        }
        None
    }

    /// The stock of a product, where the ledger holds it.
    pub fn stock(&self, id: &str) -> (r: Option<Decimal>)
        ensures
            r is Some <==> stock_of(self@.products, id@) is Some,
            r is Some ==> r.unwrap().thousandths == stock_of(self@.products, id@).unwrap(),
    {
        let key = String::from_str(id);
        match self.find(&key) {
            Some(k) => Some(self.products[k].stock),
            None => None,
        }
    }

    /// Adds a product. A negative stock and an identifier that the ledger
    /// holds already are refused, and the ledger stays as it is.
    pub fn add_product(&mut self, id: &str, stock: Decimal) -> (added: bool)
        requires
            old(self)@.well_formed(),
        ensures
            final(self)@.well_formed(),
            added <==> stock.thousandths >= 0 && position(old(self)@.products, id@) == -1,
            added ==> final(self)@ == (LedgerView {
                products: old(self)@.products.push(
                    StockRowView { id: id@, stock: stock.thousandths as int },
                ),
                orders: old(self)@.orders,
                next_order_id: old(self)@.next_order_id,
            }),
            !added ==> final(self)@ == old(self)@,
    {
        let key = String::from_str(id);
        if stock.thousandths < 0 {
            return false;
        }
        match self.find(&key) {
            Some(_) => false,
            None => {
                let row = StockRow { id: key, stock };
                proof {
                    lemma_stock_view_push(self.products@, row);
                    lemma_position(self@.products, id@);
                }
                self.products.push(row);
                true
            },
        }
    }

    fn set_stock(&mut self, k: usize, stock: i64)
        requires
            k < old(self)@.products.len(),
        ensures
            final(self)@ == (LedgerView {
                products: with_stock(old(self)@.products, k as int, stock as int),
                orders: old(self)@.orders,
                next_order_id: old(self)@.next_order_id,
            }),
    {
        let id = self.products[k].id.clone();
        self.products.set(k, StockRow { id, stock: Decimal { thousandths: stock } });
        assert(self@.products =~= with_stock(old(self)@.products, k as int, stock as int));
    }

    fn remove_order(&mut self, order_id: i64) -> (removed: u64)
        ensures
            final(self)@ == (LedgerView {
                products: old(self)@.products,
                orders: without_order(old(self)@.orders, order_id as int),
                next_order_id: old(self)@.next_order_id,
            }),
            removed == old(self)@.orders.len() - final(self)@.orders.len(),
    {
        let mut kept: Vec<OrderRow> = Vec::new();
        let mut rest: Vec<OrderRow> = Vec::new();
        std::mem::swap(&mut rest, &mut self.orders);
        let ghost all = orders_view(rest@);
        let n = rest.len();
        let mut removed: u64 = 0;
        let mut i: usize = n;
        proof {
            assert(all.take(n as int) =~= all);
            assert(orders_view(kept@).reverse() =~= Seq::<OrderRowView>::empty());
            assert(without_order(all, order_id as int) + Seq::<OrderRowView>::empty()
                =~= without_order(all, order_id as int));
        }
        // Walk from the back so that rows can be moved out without copies;
        // `kept` holds the survivors in reverse.
        while i > 0
            invariant
                i <= n,
                rest@.len() == i,
                n == all.len(),
                orders_view(rest@) == all.take(i as int),
                removed + kept@.len() == n - i,
                without_order(all, order_id as int) == without_order(
                    all.take(i as int),
                    order_id as int,
                ) + orders_view(kept@).reverse(),
            decreases i,
        {
            let ghost full = orders_view(rest@);
            let row = rest.pop().unwrap();
            let ghost prefix = all.take(i as int);
            assert(prefix.drop_last() == all.take(i - 1));
            assert(prefix.last() == row@) by {
                assert(full[i - 1] == row@);
            }
            assert(orders_view(rest@) =~= all.take(i - 1));
            if row.id == order_id {
                removed = removed + 1;
            } else {
                proof {
                    lemma_orders_view_push(kept@, row);
                    let shorter = without_order(all.take(i - 1), order_id as int);
                    let tail = orders_view(kept@).reverse();
                    assert(shorter.push(row@) + tail =~= shorter + orders_view(kept@).push(
                        row@,
                    ).reverse());
                }
                kept.push(row);
            }
            i = i - 1;
        }
        assert(all.take(0) =~= Seq::<OrderRowView>::empty());
        let ghost survivors = orders_view(kept@).reverse();
        assert(without_order(all, order_id as int) =~= survivors);
        let m = kept.len();
        let mut j: usize = m;
        while j > 0
            invariant
                j <= m,
                kept@.len() == j,
                m == survivors.len(),
                orders_view(kept@).reverse() == survivors.skip(m - j),
                orders_view(self.orders@) == survivors.take(m - j),
                self.products == old(self).products,
                self.next_order_id == old(self).next_order_id,
            decreases j,
        {
            let ghost before = orders_view(kept@);
            let row = kept.pop().unwrap();
            proof {
                lemma_orders_view_push(self.orders@, row);
                assert(before.reverse()[0] == before[j - 1]);
                assert(before[j - 1] == row@);
                assert(survivors.skip(m - j)[0] == row@);
                assert(survivors.take(m - j).push(row@) =~= survivors.take(m - j + 1));
                assert(orders_view(kept@) =~= before.drop_last());
                assert(before.drop_last().reverse() =~= before.reverse().skip(1));
                assert(survivors.skip(m - j).skip(1) =~= survivors.skip(m - j + 1));
            }
            self.orders.push(row);
            j = j - 1;
        }
        assert(survivors.take(m as int) =~= survivors);
        removed
    }

    /// Carries out one operation: see [`apply`].
    pub fn apply(&mut self, op: &Operation) -> (r: OpResult)
        requires
            old(self)@.well_formed(),
            old(self)@.next_order_id < i64::MAX,
        ensures
            (final(self)@, r) == apply(old(self)@, op@),
    {
        match op {
            Operation::InsertOrder {
                customer_name,
                customer_phone,
                address,
                comment,
                items_json,
                total,
            } => {
                let id = self.next_order_id;
                let row = OrderRow {
                    id,
                    customer_name: customer_name.clone(),
                    customer_phone: customer_phone.clone(),
                    address: address.clone(),
                    comment: comment.clone(),
                    items_json: items_json.clone(),
                    total: *total,
                    status: String::from_str(STATUS_NEW),
                };
                proof {
                    lemma_orders_view_push(self.orders@, row);
                }
                self.orders.push(row);
                self.next_order_id = id + 1;
                OpResult { changes: 1, rows: 0, last_row_id: id }
            },
            Operation::Decrement { product_id, quantity } => {
                let q = quantity.thousandths;
                match self.find(product_id) {
                    Some(k) => {
                        let have = self.products[k].stock.thousandths;
                        assert(have == self@.products[k as int].stock);
                        if have >= q {
                            match have.checked_sub(q) {
                                Some(left) => {
                                    self.set_stock(k, left);
                                    OpResult { changes: 1, rows: 0, last_row_id: 0 }
                                },
                                None => OpResult { changes: 0, rows: 0, last_row_id: 0 },
                            }
                        } else {
                            OpResult { changes: 0, rows: 0, last_row_id: 0 }
                        }
                    },
                    None => OpResult { changes: 0, rows: 0, last_row_id: 0 },
                }
            },
            Operation::Probe { product_id } => {
                match self.find(product_id) {
                    Some(_) => OpResult { changes: 0, rows: 1, last_row_id: 0 },
                    None => OpResult { changes: 0, rows: 0, last_row_id: 0 },
                }
            },
            Operation::Restore { product_id, quantity } => {
                let q = quantity.thousandths;
                match self.find(product_id) {
                    Some(k) => {
                        let have = self.products[k].stock.thousandths;
                        assert(have == self@.products[k as int].stock);
                        match have.checked_add(q) {
                            Some(sum) => {
                                if sum >= 0 {
                                    self.set_stock(k, sum);
                                    OpResult { changes: 1, rows: 0, last_row_id: 0 }
                                } else {
                                    OpResult { changes: 0, rows: 0, last_row_id: 0 }
                                }
                            },
                            None => OpResult { changes: 0, rows: 0, last_row_id: 0 },
                        }
                    },
                    None => OpResult { changes: 0, rows: 0, last_row_id: 0 },
                }
            },
            Operation::DeleteOrder { order_id } => {
                let removed = self.remove_order(*order_id);
                OpResult { changes: removed, rows: 0, last_row_id: 0 }
            },
        }
    }
}

/// Removing an identity keeps the other orders, in order, and nothing else.
pub proof fn lemma_without_order(orders: Seq<OrderRowView>, id: int)
    ensures
        without_order(orders, id).len() <= orders.len(),
        forall|i: int|
            0 <= i < without_order(orders, id).len() ==> orders.contains(
                #[trigger] without_order(orders, id)[i],
            ),
        (forall|j: int| 0 <= j < orders.len() ==> (#[trigger] orders[j]).id != id)
            ==> without_order(orders, id) == orders,
    decreases orders.len(),
{
    if orders.len() > 0 {
        let shorter = orders.drop_last();
        lemma_without_order(shorter, id);
        let kept = without_order(shorter, id);
        assert forall|i: int| 0 <= i < without_order(orders, id).len() implies orders.contains(
            #[trigger] without_order(orders, id)[i],
        ) by {
            if i < kept.len() {
                let j = choose|j: int| 0 <= j < shorter.len() && shorter[j] == kept[i];
                assert(orders[j] == kept[i]);
            } else {
                assert(orders[orders.len() - 1] == orders.last());
            }
        }
        if forall|j: int| 0 <= j < orders.len() ==> (#[trigger] orders[j]).id != id {
            assert forall|j: int| 0 <= j < shorter.len() implies (#[trigger] shorter[j]).id
                != id by {
                assert(orders[j].id != id);
            }
            assert(orders[orders.len() - 1].id != id);
            assert(kept.push(orders.last()) =~= orders);
        }
    }
}

/// A decrement and a restore keep every row in its place and under its
/// identifier.
pub proof fn lemma_rows_keep_ids(products: Seq<StockRowView>, id: Seq<char>, quantity: int)
    ensures
        decrement(products, id, quantity).0.len() == products.len(),
        restore(products, id, quantity).0.len() == products.len(),
        forall|i: int|
            0 <= i < products.len() ==> (#[trigger] decrement(products, id, quantity).0[i]).id
                == products[i].id,
        forall|i: int|
            0 <= i < products.len() ==> (#[trigger] restore(products, id, quantity).0[i]).id
                == products[i].id,
        distinct_ids(products) ==> distinct_ids(decrement(products, id, quantity).0)
            && distinct_ids(restore(products, id, quantity).0),
{
    lemma_position(products, id);
    let lowered = decrement(products, id, quantity).0;
    let raised = restore(products, id, quantity).0;
    assert forall|i: int| 0 <= i < products.len() implies (#[trigger] lowered[i]).id
        == products[i].id by {}
    assert forall|i: int| 0 <= i < products.len() implies (#[trigger] raised[i]).id
        == products[i].id by {}
    if distinct_ids(products) {
        assert forall|i: int, j: int| 0 <= i < j < lowered.len() implies (#[trigger] lowered[i]).id
            != (#[trigger] lowered[j]).id by {
            assert(products[i].id != products[j].id);
        }
        assert forall|i: int, j: int| 0 <= i < j < raised.len() implies (#[trigger] raised[i]).id
            != (#[trigger] raised[j]).id by {
            assert(products[i].id != products[j].id);
        }
    }
}

/// Stock never goes negative: whatever runs on the ledger, in whatever
/// order and from however many placements at once, every stock stays at
/// least zero.
pub proof fn law_stock_never_negative(ledger: LedgerView, ops: Seq<OperationView>)
    requires
        stocks_in_range(ledger.products),
    ensures
        stocks_in_range(apply_all(ledger, ops).0.products),
    decreases ops.len(),
{
    if ops.len() > 0 {
        law_stock_never_negative(ledger, ops.drop_last());
        let before = apply_all(ledger, ops.drop_last()).0;
        let after = apply(before, ops.last()).0;
        match ops.last() {
            OperationView::Decrement { product_id, quantity } => {
                lemma_position(before.products, product_id);
                let k = position(before.products, product_id);
                assert forall|i: int| 0 <= i < after.products.len() implies 0 <= (
                #[trigger] after.products[i]).stock <= i64::MAX by {
                    assert(0 <= before.products[i].stock <= i64::MAX);
                    if k >= 0 {
                        assert(0 <= before.products[k].stock);
                    }
                }
            },
            OperationView::Restore { product_id, quantity } => {
                lemma_position(before.products, product_id);
                assert forall|i: int| 0 <= i < after.products.len() implies 0 <= (
                #[trigger] after.products[i]).stock <= i64::MAX by {
                    assert(0 <= before.products[i].stock <= i64::MAX);
                }
            },
            _ => {},
        }
    }
}

/// One operation keeps the ledger well formed and moves the next order
/// identity by at most one.
pub proof fn lemma_apply_keeps_form(ledger: LedgerView, op: OperationView)
    requires
        ledger.well_formed(),
        ledger.next_order_id < i64::MAX,
    ensures
        apply(ledger, op).0.well_formed(),
        ledger.next_order_id <= apply(ledger, op).0.next_order_id <= ledger.next_order_id + 1,
        !(op is InsertOrder) ==> apply(ledger, op).0.next_order_id == ledger.next_order_id,
{
    let after = apply(ledger, op).0;
    match op {
        OperationView::InsertOrder { .. } => {
            assert forall|i: int| 0 <= i < after.orders.len() implies i64::MIN <= (
            #[trigger] after.orders[i]).id < after.next_order_id by {
                if i < ledger.orders.len() {
                    assert(after.orders[i] == ledger.orders[i]);
                }
            }
        },
        OperationView::Decrement { product_id, quantity }
        | OperationView::Restore { product_id, quantity } => {
            lemma_apply_all_single(ledger, op);
            law_stock_never_negative(ledger, seq![op]);
            lemma_rows_keep_ids(ledger.products, product_id, quantity);
        },
        OperationView::Probe { .. } => {},
        OperationView::DeleteOrder { order_id } => {
            lemma_without_order(ledger.orders, order_id);
            assert forall|i: int| 0 <= i < after.orders.len() implies i64::MIN <= (
            #[trigger] after.orders[i]).id < after.next_order_id by {
                let row = after.orders[i];
                assert(ledger.orders.contains(row));
                let j = choose|j: int| 0 <= j < ledger.orders.len() && ledger.orders[j] == row;
                assert(i64::MIN <= ledger.orders[j].id < ledger.next_order_id);
            }
        },
    }
}

/// A run of operations yields one report each, keeps the ledger well
/// formed, and moves the next order identity by at most its length.
pub proof fn lemma_apply_all_keeps_form(ledger: LedgerView, ops: Seq<OperationView>)
    requires
        ledger.well_formed(),
        ledger.next_order_id + ops.len() <= i64::MAX,
    ensures
        apply_all(ledger, ops).1.len() == ops.len(),
        apply_all(ledger, ops).0.well_formed(),
        ledger.next_order_id <= apply_all(ledger, ops).0.next_order_id <= ledger.next_order_id
            + ops.len(),
    decreases ops.len(),
{
    if ops.len() > 0 {
        lemma_apply_all_keeps_form(ledger, ops.drop_last());
        lemma_apply_keeps_form(apply_all(ledger, ops.drop_last()).0, ops.last());
    }
}

/// Running `a` and then `b` is running `a + b`.
pub proof fn lemma_apply_all_concat(
    ledger: LedgerView,
    a: Seq<OperationView>,
    b: Seq<OperationView>,
)
    ensures
        apply_all(ledger, a + b).0 == apply_all(apply_all(ledger, a).0, b).0,
        apply_all(ledger, a + b).1 == apply_all(ledger, a).1 + apply_all(
            apply_all(ledger, a).0,
            b,
        ).1,
    decreases b.len(),
{
    if b.len() == 0 {
        assert(a + b =~= a);
        assert(apply_all(ledger, a).1 + Seq::<OpResult>::empty() =~= apply_all(ledger, a).1);
    } else {
        lemma_apply_all_concat(ledger, a, b.drop_last());
        assert((a + b).drop_last() =~= a + b.drop_last());
        assert((a + b).last() == b.last());
        let mid = apply_all(ledger, a).0;
        let (before, reports) = apply_all(mid, b.drop_last());
        let report = apply(before, b.last()).1;
        assert((apply_all(ledger, a).1 + reports).push(report) =~= apply_all(ledger, a).1
            + reports.push(report));
    }
}

/// Running a single operation is applying it.
pub proof fn lemma_apply_all_single(ledger: LedgerView, op: OperationView)
    ensures
        apply_all(ledger, seq![op]).0 == apply(ledger, op).0,
        apply_all(ledger, seq![op]).1 == seq![apply(ledger, op).1],
{
    let ops = seq![op];
    assert(ops.drop_last() =~= Seq::<OperationView>::empty());
    assert(ops.last() == op);
    assert(apply_all(ledger, ops.drop_last()).0 == ledger);
    assert(Seq::<OpResult>::empty().push(apply(ledger, op).1) =~= seq![apply(ledger, op).1]);
}

impl Ledger {
    /// Carries out a run of operations in order: see [`apply_all`].
    pub fn run(&mut self, ops: &Vec<Operation>) -> (r: Vec<OpResult>)
        requires
            old(self)@.well_formed(),
            old(self)@.next_order_id + ops@.len() <= i64::MAX,
        ensures
            (final(self)@, r@) == apply_all(old(self)@, operations_view(ops@)),
            final(self)@.well_formed(),
    {
        let ghost start = self@;
        let ghost all = operations_view(ops@);
        let mut reports: Vec<OpResult> = Vec::new();
        let mut i: usize = 0;
        assert(all.take(0) =~= Seq::<OperationView>::empty());
        while i < ops.len()
            invariant
                i <= ops@.len(),
                all == operations_view(ops@),
                start.well_formed(),
                start.next_order_id + ops@.len() <= i64::MAX,
                (self@, reports@) == apply_all(start, all.take(i as int)),
            decreases ops.len() - i,
        {
            proof {
                lemma_apply_all_keeps_form(start, all.take(i as int));
                assert(all.take(i + 1).drop_last() =~= all.take(i as int));
                assert(all.take(i + 1).last() == ops@[i as int]@);
            }
            let report = self.apply(&ops[i]);
            reports.push(report);
            i = i + 1;
        }
        proof {
            assert(all.take(i as int) =~= all);
            lemma_apply_all_keeps_form(start, all);
        }
        reports
    }
}

/// Whether a listing in this mode shows a row with this stock: the base
/// predicate of the listing statement, on one row.
pub open spec fn shown(mode: Visibility, stock: int) -> bool {
    match mode {
        Visibility::Admin => true,
        Visibility::Customer => stock > 0,
    }
}

/// The rows that a listing in this mode shows before any further filter.
pub open spec fn listed(products: Seq<StockRowView>, mode: Visibility) -> Seq<StockRowView> {
    products.filter(|row: StockRowView| shown(mode, row.stock))
}

impl Ledger {
    /// The rows that a listing in this mode shows before any further
    /// filter, in ledger order: see [`listed`].
    pub fn listing(&self, mode: Visibility) -> (r: Vec<StockRow>)
        ensures
            stock_view(r@) == listed(self@.products, mode),
    {
        let ghost all = self@.products;
        let ghost keep = |row: StockRowView| shown(mode, row.stock);
        let mut out: Vec<StockRow> = Vec::new();
        let mut i: usize = 0;
        assert(all.take(0) =~= Seq::<StockRowView>::empty());
        assert(stock_view(out@) =~= all.take(0).filter(keep));
        while i < self.products.len()
            invariant
                i <= self.products@.len(),
                all == self@.products,
                keep == |row: StockRowView| shown(mode, row.stock),
                stock_view(out@) == all.take(i as int).filter(keep),
            decreases self.products.len() - i,
        {
            let row = &self.products[i];
            proof {
                assert(all.take(i + 1).drop_last() =~= all.take(i as int));
                assert(all.take(i + 1).last() == row@);
                reveal(Seq::filter);
            }
            let show = match mode {
                Visibility::Admin => true,
                Visibility::Customer => row.stock.thousandths > 0,
            };
            if show {
                let copy = StockRow { id: row.id.clone(), stock: row.stock };
                proof {
                    lemma_stock_view_push(out@, copy);
                }
                out.push(copy);
            }
            i = i + 1;
        }
        assert(all.take(i as int) =~= all);
        out
    }
}

/// Visibility, customer side: a customer listing never shows a row whose
/// stock is zero or below, and shows nothing that the ledger does not hold.
pub proof fn law_customer_sees_stock_only(products: Seq<StockRowView>)
    ensures
        forall|i: int|
            0 <= i < listed(products, Visibility::Customer).len() ==> (#[trigger] listed(
                products,
                Visibility::Customer,
            )[i]).stock > 0 && products.contains(listed(products, Visibility::Customer)[i]),
{
    let keep = |row: StockRowView| shown(Visibility::Customer, row.stock);
    let shown_rows = listed(products, Visibility::Customer);
    assert forall|i: int| 0 <= i < shown_rows.len() implies (#[trigger] shown_rows[i]).stock > 0
        && products.contains(shown_rows[i]) by {
        products.lemma_filter_pred(keep, i);
        assert(shown_rows.contains(shown_rows[i]));
        products.lemma_filter_contains_rev(keep, shown_rows[i]);
    }
}

/// A customer listing narrowed by a further predicate joined with "and".
pub open spec fn narrowed(
    products: Seq<StockRowView>,
    narrow: spec_fn(StockRowView) -> bool,
) -> Seq<StockRowView> {
    products.filter(|row: StockRowView| shown(Visibility::Customer, row.stock) && narrow(row))
}

/// Visibility under further filters: however a customer listing is
/// narrowed, it shows no row whose stock is zero or below.
pub proof fn law_narrowed_listing_sees_stock_only(
    products: Seq<StockRowView>,
    narrow: spec_fn(StockRowView) -> bool,
)
    ensures
        forall|i: int|
            0 <= i < narrowed(products, narrow).len() ==> (#[trigger] narrowed(
                products,
                narrow,
            )[i]).stock > 0,
{
    let keep = |row: StockRowView| shown(Visibility::Customer, row.stock) && narrow(row);
    let rows = narrowed(products, narrow);
    assert forall|i: int| 0 <= i < rows.len() implies (#[trigger] rows[i]).stock > 0 by {
        products.lemma_filter_pred(keep, i);
    }
}

/// Visibility, admin side: an admin listing shows every row, whatever its
/// stock.
pub proof fn law_admin_sees_all(products: Seq<StockRowView>)
    ensures
        listed(products, Visibility::Admin) == products,
    decreases products.len(),
{
    reveal(Seq::filter);
    if products.len() > 0 {
        law_admin_sees_all(products.drop_last());
        assert(products.drop_last().push(products.last()) =~= products);
    }
}

} // verus!
