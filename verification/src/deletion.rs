//! Deletion of a product, a category or an order, with the reclaiming of
//! the image that belonged to it.
//!
//! The row goes first and decides the answer. Reclaiming the image is a
//! courtesy: it is tried only after the row is gone, and whether it works
//! changes nothing.

use vstd::prelude::*;
use vstd::string::*;
use crate::assets::{asset_key, key_of};
use crate::reply::{failure_reply, text_reply, Reply, ReplyView, BAD_REQUEST, STORE_FAILURE_PREFIX};
use crate::sql::{SqlValue, SqlValueView, Statement, StatementView};
use crate::text::{i32_of_text, parse_i32};

verus! {

/// What is being deleted.
#[derive(Clone, Copy, Debug, PartialEq, Eq, Structural)]
pub enum Entity {
    Product,
    Category,
    Order,
}

/// The identifier of a request as its body carries it.
#[derive(Debug, PartialEq, Eq)]
pub enum IdField {
    /// No identifier, or one that is neither an integer nor a text.
    Missing,
    Number(i64),
    Text(String),
}

/// A deletion request.
#[derive(Debug, PartialEq, Eq)]
pub struct DeleteRequest {
    pub id: IdField,
    /// The asset reference of the row, where the request names one.
    pub image: Option<String>,
}

/// The identifier that a field denotes: a number as it is, a text as the
/// integer it writes. Rows are identified by 32-bit integers, so a number
/// or a text outside that range names no row; it counts as zero, as does
/// anything else that is no identifier. No value is ever cut to fit.
pub open spec fn entity_id_of(field: IdField) -> i32 {
    match field {
        IdField::Missing => 0,
        IdField::Number(n) => if i32::MIN <= n <= i32::MAX {
            n as i32
        } else {
            0
        },
        IdField::Text(s) => match i32_of_text(s@) {
            Some(n) => n,
            None => 0,
        },
    }
}

/// Reads the identifier of a request: see [`entity_id_of`].
pub fn entity_id(field: &IdField) -> (r: i32)
    ensures
        r == entity_id_of(*field),
{
    match field {
        IdField::Missing => 0,
        IdField::Number(n) => {
            if -2147483648 <= *n && *n <= 2147483647 {
                *n as i32
            } else {
                0
            }
        },
        IdField::Text(s) => match parse_i32(s.as_str()) {
            Some(n) => n,
            None => 0,
        },
    }
}

pub const DELETE_PRODUCT_SQL: &'static str = "DELETE FROM products WHERE id = ?";

pub const DELETE_CATEGORY_SQL: &'static str = "DELETE FROM categories WHERE id = ?";

pub const DELETE_ORDER_ROW_SQL: &'static str = "DELETE FROM orders WHERE id = ?";

pub const PRODUCT_ID_MISSING: &'static str = "ID товара не передан или равен 0";

pub const CATEGORY_ID_MISSING: &'static str = "ID категории не передан";

pub const ORDER_ID_MISSING: &'static str = "ID заказа не указан";

pub const PRODUCT_DELETED: &'static str = "Deleted";

pub const CATEGORY_DELETED: &'static str = "Category deleted";

pub const ORDER_DELETED: &'static str = "Order deleted";

pub open spec fn delete_sql(entity: Entity) -> Seq<char> {
    match entity {
        Entity::Product => DELETE_PRODUCT_SQL@,
        Entity::Category => DELETE_CATEGORY_SQL@,
        Entity::Order => DELETE_ORDER_ROW_SQL@,
    }
}

/// The statement that deletes the row with an identifier.
pub open spec fn delete_statement(entity: Entity, id: i32) -> StatementView {
    StatementView { sql: delete_sql(entity), params: seq![SqlValueView::Integer(id as int)] }
}

/// The reply to a request without an identifier.
pub open spec fn missing_id_reply(entity: Entity) -> ReplyView {
    text_reply(
        400,
        match entity {
            Entity::Product => PRODUCT_ID_MISSING@,
            Entity::Category => CATEGORY_ID_MISSING@,
            Entity::Order => ORDER_ID_MISSING@,
        },
    )
}

/// The reply once the row is gone.
pub open spec fn deleted_reply(entity: Entity) -> ReplyView {
    text_reply(
        200,
        match entity {
            Entity::Product => PRODUCT_DELETED@,
            Entity::Category => CATEGORY_DELETED@,
            Entity::Order => ORDER_DELETED@,
        },
    )
}

/// The storage key to reclaim after the row is gone. Orders own no asset.
pub open spec fn reclaimable(entity: Entity, image: Option<String>) -> Option<Seq<char>> {
    match (entity, image) {
        (Entity::Order, _) => None,
        (_, Some(reference)) => key_of(reference@),
        (_, None) => None,
    }
}

/// Where a deletion stands.
#[derive(Clone, Copy, Debug, PartialEq, Eq, Structural)]
pub enum DeletePhase {
    /// The row deletion is with the store.
    RemovingRow,
    /// The row is gone; the asset deletion is with the blob store.
    Reclaiming,
    /// Nothing is left to do.
    Closed,
}

/// A deletion in progress.
#[derive(Debug, PartialEq, Eq)]
pub struct DeleteFlow {
    pub entity: Entity,
    pub phase: DeletePhase,
    /// The storage key that is still to be reclaimed.
    pub asset_key: Option<String>,
}

pub struct DeleteFlowView {
    pub entity: Entity,
    pub phase: DeletePhase,
    pub asset_key: Option<Seq<char>>,
}

pub open spec fn option_view(text: Option<String>) -> Option<Seq<char>> {
    match text {
        Some(s) => Some(s@),
        None => None,
    }
}

impl View for DeleteFlow {
    type V = DeleteFlowView;

    open spec fn view(&self) -> DeleteFlowView {
        DeleteFlowView {
            entity: self.entity,
            phase: self.phase,
            asset_key: option_view(self.asset_key),
        }
    }
}

/// What the stores answered.
#[derive(Debug, PartialEq, Eq)]
pub enum DeleteEvent {
    /// The row deletion ran.
    RowRemoved,
    /// The row deletion failed, with the cause.
    RowFailed(String),
    /// The asset deletion ended; `true` where it worked.
    ReclaimEnded(bool),
}

/// What the embedding program does next.
#[derive(Debug, PartialEq, Eq)]
pub enum DeleteAction {
    /// Run this statement on the relational store.
    RemoveRow(Statement),
    /// Delete this key from the blob store, and report how it went.
    Reclaim(String),
    /// Answer the caller.
    Finish(Reply),
    /// The event does not belong to the phase; nothing changes.
    Halt,
}

pub enum DeleteActionView {
    RemoveRow(StatementView),
    Reclaim(Seq<char>),
    Finish(ReplyView),
    Halt,
}

impl View for DeleteAction {
    type V = DeleteActionView;

    open spec fn view(&self) -> DeleteActionView {
        match self {
            DeleteAction::RemoveRow(statement) => DeleteActionView::RemoveRow(statement@),
            DeleteAction::Reclaim(key) => DeleteActionView::Reclaim(key@),
            DeleteAction::Finish(reply) => DeleteActionView::Finish(reply@),
            DeleteAction::Halt => DeleteActionView::Halt,
        }
    }
}

pub open spec fn finished(entity: Entity) -> DeleteFlowView {
    DeleteFlowView { entity, phase: DeletePhase::Closed, asset_key: None }
}

/// How a deletion begins. A request whose identifier is missing, zero or
/// outside the range of row identifiers is refused before any store is
/// touched; any other request starts with the deletion of the row that
/// the identifier names, and of no other.
pub open spec fn begun(entity: Entity, request: DeleteRequest) -> (
    DeleteFlowView,
    DeleteActionView,
) {
    let id = entity_id_of(request.id);
    if id == 0 {
        (finished(entity), DeleteActionView::Finish(missing_id_reply(entity)))
    } else {
        (
            DeleteFlowView {
                entity,
                phase: DeletePhase::RemovingRow,
                asset_key: reclaimable(entity, request.image),
            },
            DeleteActionView::RemoveRow(delete_statement(entity, id)),
        )
    }
}

/// The transition function of a deletion.
///
/// * Once the row is gone, the asset is reclaimed where there is one, and
///   the caller is answered at once where there is none.
/// * A failed row deletion ends in a storage failure; no asset is touched.
/// * However the reclaiming ends, the caller gets the answer that the row
///   deletion earned.
/// * Any other pairing of phase and event changes nothing.
pub open spec fn delete_next(flow: DeleteFlowView, event: DeleteEvent) -> (
    DeleteFlowView,
    DeleteActionView,
) {
    match (flow.phase, event) {
        (DeletePhase::RemovingRow, DeleteEvent::RowRemoved) => match flow.asset_key {
            Some(key) => (
                DeleteFlowView {
                    entity: flow.entity,
                    phase: DeletePhase::Reclaiming,
                    asset_key: None,
                },
                DeleteActionView::Reclaim(key),
            ),
            None => (
                finished(flow.entity),
                DeleteActionView::Finish(deleted_reply(flow.entity)),
            ),
        },
        (DeletePhase::RemovingRow, DeleteEvent::RowFailed(cause)) => (
            finished(flow.entity),
            DeleteActionView::Finish(failure_reply(STORE_FAILURE_PREFIX@, cause@)),
        ),
        (DeletePhase::Reclaiming, DeleteEvent::ReclaimEnded(_)) => (
            finished(flow.entity),
            DeleteActionView::Finish(deleted_reply(flow.entity)),
        ),
        _ => (flow, DeleteActionView::Halt),
    }
}

fn reply_missing_id(entity: Entity) -> (r: Reply)
    ensures
        r@ == missing_id_reply(entity),
{
    match entity {
        Entity::Product => Reply::error(PRODUCT_ID_MISSING, BAD_REQUEST),
        Entity::Category => Reply::error(CATEGORY_ID_MISSING, BAD_REQUEST),
        Entity::Order => Reply::error(ORDER_ID_MISSING, BAD_REQUEST),
    }
}

fn reply_deleted(entity: Entity) -> (r: Reply)
    ensures
        r@ == deleted_reply(entity),
{
    match entity {
        Entity::Product => Reply::ok(PRODUCT_DELETED),
        Entity::Category => Reply::ok(CATEGORY_DELETED),
        Entity::Order => Reply::ok(ORDER_DELETED),
    }
}

/// The statement that deletes a row: see [`delete_statement`].
pub fn row_deletion(entity: Entity, id: i32) -> (r: Statement)
    ensures
        r@ == delete_statement(entity, id),
{
    let sql = match entity {
        Entity::Product => DELETE_PRODUCT_SQL,
        Entity::Category => DELETE_CATEGORY_SQL,
        Entity::Order => DELETE_ORDER_ROW_SQL,
    };
    let mut params: Vec<SqlValue> = Vec::new();
    params.push(SqlValue::Integer(id as i64));
    let r = Statement { sql: String::from_str(sql), params };
    assert(r@.params =~= delete_statement(entity, id).params);
    r
}

impl DeleteFlow {
    /// Opens a deletion: see [`begun`].
    pub fn begin(entity: Entity, request: &DeleteRequest) -> (r: (DeleteFlow, DeleteAction))
        ensures
            (r.0@, r.1@) == begun(entity, *request),
    {
        let id = entity_id(&request.id);
        if id == 0 {
            (
                DeleteFlow { entity, phase: DeletePhase::Closed, asset_key: None },
                DeleteAction::Finish(reply_missing_id(entity)),
            )
        } else {
            let key = match entity {
                Entity::Order => None,
                _ => match &request.image {
                    Some(reference) => asset_key(reference.as_str()),
                    None => None,
                },
            };
            (
                DeleteFlow { entity, phase: DeletePhase::RemovingRow, asset_key: key },
                DeleteAction::RemoveRow(row_deletion(entity, id)),
            )
        }
    }

    /// Takes one step of a deletion: see [`delete_next`].
    pub fn step(self, event: DeleteEvent) -> (r: (DeleteFlow, DeleteAction))
        ensures
            (r.0@, r.1@) == delete_next(self@, event),
    {
        let DeleteFlow { entity, phase, asset_key } = self;
        match phase {
            DeletePhase::RemovingRow => match event {
                DeleteEvent::RowRemoved => match asset_key {
                    Some(key) => (
                        DeleteFlow { entity, phase: DeletePhase::Reclaiming, asset_key: None },
                        DeleteAction::Reclaim(key),
                    ),
                    None => (
                        DeleteFlow { entity, phase: DeletePhase::Closed, asset_key: None },
                        DeleteAction::Finish(reply_deleted(entity)),
                    ),
                },
                DeleteEvent::RowFailed(cause) => (
                    DeleteFlow { entity, phase: DeletePhase::Closed, asset_key: None },
                    DeleteAction::Finish(Reply::failure(STORE_FAILURE_PREFIX, cause.as_str())),
                ),
                DeleteEvent::ReclaimEnded(_) => (
                    DeleteFlow { entity, phase, asset_key },
                    DeleteAction::Halt,
                ),
            },
            DeletePhase::Reclaiming => match event {
                DeleteEvent::ReclaimEnded(_) => (
                    DeleteFlow { entity, phase: DeletePhase::Closed, asset_key: None },
                    DeleteAction::Finish(reply_deleted(entity)),
                ),
                _ => (DeleteFlow { entity, phase, asset_key }, DeleteAction::Halt),
            },
            DeletePhase::Closed => (DeleteFlow { entity, phase, asset_key }, DeleteAction::Halt),
        }
    }
}

/// A deletion names the row that was asked for and no other: an
/// identifier within the range of row identifiers, and not zero, is bound
/// as it is; any other number is refused and no statement is made.
pub proof fn law_deletion_names_the_row_asked_for(entity: Entity, request: DeleteRequest, k: i64)
    requires
        request.id == IdField::Number(k),
    ensures
        k != 0 && i32::MIN <= k <= i32::MAX ==> begun(entity, request).1
            == DeleteActionView::RemoveRow(
            StatementView { sql: delete_sql(entity), params: seq![SqlValueView::Integer(k as int)] },
        ),
        k == 0 || k < i32::MIN || k > i32::MAX ==> begun(entity, request).1
            == DeleteActionView::Finish(missing_id_reply(entity)),
{
}

/// The same for an identifier that comes as text: the row named is the
/// one whose identifier the text writes; a text that writes no 32-bit
/// integer, or writes zero, is refused.
pub proof fn law_deletion_reads_the_text_asked_for(
    entity: Entity,
    request: DeleteRequest,
    text: String,
)
    requires
        request.id == IdField::Text(text),
    ensures
        match i32_of_text(text@) {
            Some(k) => if k != 0 {
                begun(entity, request).1 == DeleteActionView::RemoveRow(
                    StatementView {
                        sql: delete_sql(entity),
                        params: seq![SqlValueView::Integer(k as int)],
                    },
                )
            } else {
                begun(entity, request).1 == DeleteActionView::Finish(missing_id_reply(entity))
            },
            None => begun(entity, request).1 == DeleteActionView::Finish(
                missing_id_reply(entity),
            ),
        },
{
}

/// The answer of a deletion whose row deletion ran, however the asset
/// fared: what the caller is told at the end of the protocol.
pub open spec fn answer_after_row(
    entity: Entity,
    request: DeleteRequest,
    reclaim_worked: bool,
) -> DeleteActionView {
    let (flow, _) = begun(entity, request);
    let (flow, action) = delete_next(flow, DeleteEvent::RowRemoved);
    match action {
        DeleteActionView::Reclaim(_) => delete_next(
            flow,
            DeleteEvent::ReclaimEnded(reclaim_worked),
        ).1,
        _ => action,
    }
}

/// Deletion independence: for a request with an identifier, the row
/// deletion is the same whatever the asset reference is (malformed, empty
/// or absent), and once the row is gone the caller is told of success
/// whether or not there was an asset and whether or not reclaiming it
/// worked.
pub proof fn law_deletion_ignores_asset(
    entity: Entity,
    one: DeleteRequest,
    other: DeleteRequest,
    one_worked: bool,
    other_worked: bool,
)
    requires
        one.id == other.id,
        entity_id_of(one.id) != 0,
    ensures
        begun(entity, one).1 == DeleteActionView::RemoveRow(
            delete_statement(entity, entity_id_of(one.id)),
        ),
        begun(entity, other).1 == begun(entity, one).1,
        answer_after_row(entity, one, one_worked) == DeleteActionView::Finish(
            deleted_reply(entity),
        ),
        answer_after_row(entity, other, other_worked) == answer_after_row(
            entity,
            one,
            one_worked,
        ),
{
}

} // verus!
