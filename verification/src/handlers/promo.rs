//! Promo codes: check, listing, creation and deletion.

use vstd::prelude::*;
use vstd::string::*;
use crate::models::PromoCode;
use crate::reply::{
    answer_listing, answer_lookup, answer_write, listing_answer, lookup_answer, write_reply,
    Answer, Fetch, Reply, Written, ALREADY_EXISTS, STORE_FAILURE_PREFIX,
};
use crate::sql::{SqlValue, SqlValueView, Statement, StatementView};
use crate::text::{
    owned_or_empty, text_or_empty, to_uppercase, trim, trimmed, uppercased,
};

verus! {

pub const CHECK_PROMO_SQL: &'static str =
    "SELECT * FROM promocodes WHERE UPPER(TRIM(code)) = ? AND is_active = 1 LIMIT 1";

pub const LIST_PROMOS_SQL: &'static str = "SELECT * FROM promocodes ORDER BY id DESC";

pub const INSERT_PROMO_SQL: &'static str =
    "INSERT INTO promocodes (code, discount, is_active) VALUES (?, ?, 1)";

pub const DELETE_PROMO_SQL: &'static str = "DELETE FROM promocodes WHERE id = ?";

pub const PROMO_MISSING: &'static str = "Промокод не найден";

pub const PROMO_CREATED: &'static str = "Created";

pub const PROMO_DELETED: &'static str = "Deleted";

/// A code as it is compared: trimmed, then in upper case.
pub open spec fn normalized_code(code: Seq<char>) -> Seq<char> {
    uppercased(trimmed(code))
}

/// Brings a code into the form in which codes are compared.
pub fn normalize_code(code: &str) -> (r: String)
    ensures
        r@ == normalized_code(code@),
{
    to_uppercase(trim(code).as_str())
}

/// The statement that looks an active code up. The code is bound in its
/// normalised form; a request without a code asks for the empty code.
pub fn check_promo(code: &Option<String>) -> (r: Statement)
    ensures
        r@ == (StatementView {
            sql: CHECK_PROMO_SQL@,
            params: seq![SqlValueView::Text(normalized_code(text_or_empty(*code)))],
        }),
{
    let normal = normalize_code(owned_or_empty(code).as_str());
    let r = Statement::new(CHECK_PROMO_SQL).bind(SqlValue::Text(normal));
    assert(r@.params =~= seq![SqlValueView::Text(normalized_code(text_or_empty(*code)))]);
    r
}

/// Answers a code check: the row, or status 404, or a storage failure.
pub fn check_promo_reply(fetch: &Fetch) -> (r: Answer)
    ensures
        r@ == lookup_answer(*fetch, PROMO_MISSING@, STORE_FAILURE_PREFIX@),
{
    answer_lookup(fetch, PROMO_MISSING, STORE_FAILURE_PREFIX)
}

/// The statement that lists every code, newest first.
pub fn list_promos() -> (r: Statement)
    ensures
        r@ == (StatementView { sql: LIST_PROMOS_SQL@, params: Seq::empty() }),
{
    Statement::new(LIST_PROMOS_SQL)
}

/// Answers a listing of codes: the rows, or a storage failure with the
/// cause where the store gave one.
pub fn list_promos_reply(failure: &Option<String>) -> (r: Answer)
    ensures
        r@ == listing_answer(*failure, STORE_FAILURE_PREFIX@),
{
    answer_listing(failure, STORE_FAILURE_PREFIX)
}

/// The statement that records a new, active code. The code is stored as
/// it is compared: trimmed and in upper case.
pub fn create_promo(promo: &PromoCode) -> (r: Statement)
    ensures
        r@ == (StatementView {
            sql: INSERT_PROMO_SQL@,
            params: seq![
                SqlValueView::Text(normalized_code(promo.code@)),
                SqlValueView::Integer(promo.discount as int),
            ],
        }),
{
    let code = normalize_code(promo.code.as_str());
    let r = Statement::new(INSERT_PROMO_SQL).bind(SqlValue::Text(code)).bind(
        SqlValue::Integer(promo.discount as i64),
    );
    assert(r@.params =~= seq![
        SqlValueView::Text(normalized_code(promo.code@)),
        SqlValueView::Integer(promo.discount as int),
    ]);
    r
}

/// Answers a code creation.
pub fn create_promo_reply(written: &Written) -> (r: Reply)
    ensures
        r@ == write_reply(*written, PROMO_CREATED@, ALREADY_EXISTS@, STORE_FAILURE_PREFIX@),
{
    answer_write(written, PROMO_CREATED, ALREADY_EXISTS, STORE_FAILURE_PREFIX)
}

/// The statement that deletes a code by the identifier of the request
/// path.
pub fn delete_promo(id: &str) -> (r: Statement)
    ensures
        r@ == (StatementView {
            sql: DELETE_PROMO_SQL@,
            params: seq![SqlValueView::Text(id@)],
        }),
{
    let r = Statement::new(DELETE_PROMO_SQL).bind(SqlValue::Text(String::from_str(id)));
    assert(r@.params =~= seq![SqlValueView::Text(id@)]);
    r
}

/// Answers a code deletion.
pub fn delete_promo_reply(written: &Written) -> (r: Reply)
    ensures
        r@ == write_reply(*written, PROMO_DELETED@, ALREADY_EXISTS@, STORE_FAILURE_PREFIX@),
{
    answer_write(written, PROMO_DELETED, ALREADY_EXISTS, STORE_FAILURE_PREFIX)
}

} // verus!
