//! Orders: listing, deletion and placement.

use vstd::prelude::*;
use vstd::string::*;
use crate::amount::QuantityKind;
use crate::checkout::{
    batch_of, draft_of, draft_order, lacks_product, OrderError, OrderPayload,
};
use crate::deletion::{begun, DeleteAction, DeleteFlow, DeleteRequest, Entity};
use crate::flow::{Action, ActionView, FlowView, OrderFlow, Outcome, Phase};
use crate::reply::{
    answer_listing, failure_reply, json_reply, listing_answer, text_reply, Answer, BodyKind,
    Reply, ReplyView, BAD_REQUEST, STORE_FAILURE_PREFIX,
};
use crate::sql::{Statement, StatementView};

verus! {

pub const LIST_ORDERS_SQL: &'static str = "SELECT * FROM orders ORDER BY created_at DESC";

pub const NO_ITEMS: &'static str = "No items";

pub const EMPTY_CART: &'static str = "Cart is empty";

pub const NO_PRODUCT: &'static str = "Item without a product";

pub const ORDER_PLACED: &'static str = "{\"success\":true}";

pub const ORDER_REJECTED: &'static str = "{\"success\":false}";

/// The statement that lists every order, newest first.
pub fn list_orders() -> (r: Statement)
    ensures
        r@ == (StatementView { sql: LIST_ORDERS_SQL@, params: Seq::empty() }),
{
    Statement::new(LIST_ORDERS_SQL)
}

/// Answers an order listing: the rows, or a storage failure with the
/// cause where the store gave one.
pub fn list_orders_reply(failure: &Option<String>) -> (r: Answer)
    ensures
        r@ == listing_answer(*failure, STORE_FAILURE_PREFIX@),
{
    answer_listing(failure, STORE_FAILURE_PREFIX)
}

/// Opens the deletion of an order. Orders own no asset, and deleting one
/// gives no stock back.
pub fn delete_order(request: &DeleteRequest) -> (r: (DeleteFlow, DeleteAction))
    ensures
        (r.0@, r.1@) == begun(Entity::Order, *request),
{
    DeleteFlow::begin(Entity::Order, request)
}

/// The reply to a checkout request that is refused before the store is
/// touched: status 400.
pub open spec fn refusal_reply(error: OrderError) -> ReplyView {
    match error {
        OrderError::MissingItems => text_reply(400, NO_ITEMS@),
        OrderError::EmptyCart => text_reply(400, EMPTY_CART@),
        OrderError::MissingProduct => text_reply(400, NO_PRODUCT@),
    }
}

/// Opens the placement of an order.
///
/// A request without items, or with an item that names no product, is
/// refused with status 400 and nothing is asked of the store. Any other request starts the placement protocol: the
/// first action submits the batch of the normalised cart.
pub fn create_order(payload: &OrderPayload, kind: QuantityKind) -> (r: Result<
    (OrderFlow, Action),
    Reply,
>)
    ensures
        match payload.items {
            None => r is Err && r->Err_0@ == refusal_reply(OrderError::MissingItems),
            Some(items) => if items@.len() == 0 {
                r is Err && r->Err_0@ == refusal_reply(OrderError::EmptyCart)
            } else if lacks_product(items@) {
                r is Err && r->Err_0@ == refusal_reply(OrderError::MissingProduct)
            } else {
                &&& r is Ok
                &&& r->Ok_0.0@ == (FlowView {
                    draft: draft_of(*payload, kind),
                    phase: Phase::Submitted,
                    verdict: Seq::empty(),
                    order_id: 0,
                })
                &&& r->Ok_0.1@ == ActionView::Submit(batch_of(draft_of(*payload, kind)))
            },
        },
{
    match draft_order(payload, kind) {
        Ok(draft) => Ok(OrderFlow::start(draft)),
        Err(OrderError::MissingItems) => Err(Reply::error(NO_ITEMS, BAD_REQUEST)),
        Err(OrderError::EmptyCart) => Err(Reply::error(EMPTY_CART, BAD_REQUEST)),
        Err(OrderError::MissingProduct) => Err(Reply::error(NO_PRODUCT, BAD_REQUEST)),
    }
}

/// The reply to a finished placement: success with status 200, a
/// rejected order with status 400, a storage failure with status 500 and
/// its cause, whether or not the batch could be taken back.
pub open spec fn placement_reply(outcome: Outcome) -> ReplyView {
    match outcome {
        Outcome::Placed { .. } => json_reply(ORDER_PLACED@),
        Outcome::Rejected(_) => ReplyView {
            status: 400,
            kind: BodyKind::Json,
            body: ORDER_REJECTED@,
        },
        Outcome::StorageFailure(cause) => failure_reply(STORE_FAILURE_PREFIX@, cause@),
        Outcome::Unreverted { cause, .. } => failure_reply(STORE_FAILURE_PREFIX@, cause@),
    }
}

/// Answers a finished placement: see [`placement_reply`].
pub fn create_order_reply(outcome: &Outcome) -> (r: Reply)
    ensures
        r@ == placement_reply(*outcome),
{
    match outcome {
        Outcome::Placed { .. } => Reply::json(ORDER_PLACED),
        Outcome::Rejected(_) => Reply {
            status: BAD_REQUEST,
            kind: BodyKind::Json,
            body: String::from_str(ORDER_REJECTED),
        },
        Outcome::StorageFailure(cause) => Reply::failure(STORE_FAILURE_PREFIX, cause.as_str()),
        Outcome::Unreverted { cause, .. } => Reply::failure(STORE_FAILURE_PREFIX, cause.as_str()),
    }
}

} // verus!
