//! Products: listing and search, lookup, creation, edit, deletion, and the
//! lookup of the products of a cart.

use vstd::prelude::*;
use vstd::string::*;
use crate::amount::Decimal;
use crate::assets::{first_failure, settle_uploads, upload_failure_reply, upload_urls, Upload};
use crate::catalog::{build_listing_query, listing_of, mode_of, pairs_view, visibility_of};
use crate::deletion::{begun, DeleteAction, DeleteFlow, DeleteRequest, Entity, IdField};
use crate::images::{images_json, json_of_texts, kept_images, remaining_images, UNDEFINED};
use crate::reply::{
    answer_listing, answer_lookup, answer_write, json_reply, listing_answer, lookup_answer,
    text_reply, write_reply, Answer, Fetch, Reply, ReplyView, Written, ALREADY_EXISTS,
    BAD_REQUEST, STORE_FAILURE_PREFIX,
};
use crate::sql::{
    lemma_values_view_push, values_view, SqlValue, SqlValueView, Statement, StatementView,
};
use crate::text::{i32_of_text, parse_i32, text_eq, text_or_empty, texts_view};

verus! {

/// The fields of a product form. Texts are as the request carries them;
/// numbers with a fraction have been read at the boundary and are absent
/// where the field is missing or does not write a number.
#[derive(Debug, PartialEq, Eq)]
pub struct ProductForm {
    pub name: Option<String>,
    pub name_kk: Option<String>,
    pub category_id: Option<String>,
    pub price: Option<Decimal>,
    pub old_price: Option<Decimal>,
    pub unit: Option<String>,
    /// The stock field as the request carries it. A new product takes its
    /// stock from here, as a whole number.
    pub stock_text: Option<String>,
    /// The stock field read as a number. An edit takes the stock from here.
    pub stock: Option<Decimal>,
    pub description: Option<String>,
    pub description_kk: Option<String>,
}

pub const GET_PRODUCT_SQL: &'static str = "SELECT * FROM products WHERE id = ?";

pub const INSERT_PRODUCT_SQL: &'static str =
    "INSERT INTO products (name, name_kk, category_id, price, old_price, unit, image, description, description_kk, stock) VALUES (?, ?, ?, ?, ?, ?, ?, ?, ?, ?)";

pub const UPDATE_PRODUCT_SQL: &'static str =
    "UPDATE products SET name=?1, name_kk=?2, category_id=?3, price=?4, old_price=?5, unit=?6, image=?7, description=?8, description_kk=?9, stock=?10 WHERE id=?11";

pub const CART_SQL_HEAD: &'static str = "SELECT * FROM products WHERE id IN (";

pub const CART_SQL_TAIL: &'static str = ")";

pub const PRODUCT_CREATED: &'static str = "Success";

pub const PRODUCT_UPDATED: &'static str = "Updated";

pub const PRODUCT_MISSING: &'static str = "Товар не найден";

pub const LOOKUP_FAILURE_PREFIX: &'static str = "Ошибка базы данных: ";

pub const NO_IDS: &'static str = "No IDs";

pub const NO_PRODUCTS: &'static str = "[]";

/// The statement that lists the catalog for a request: the mode and the
/// filters are both read from the query pairs.
pub fn list_products(pairs: &Vec<(String, String)>) -> (r: Statement)
    ensures
        r@ == listing_of(mode_of(pairs_view(pairs@)), pairs_view(pairs@)),
{
    build_listing_query(visibility_of(pairs), pairs)
}

/// Answers a catalog listing or a cart lookup that went to the store: the
/// rows, or a storage failure with the cause where the store gave one.
pub fn list_products_reply(failure: &Option<String>) -> (r: Answer)
    ensures
        r@ == listing_answer(*failure, STORE_FAILURE_PREFIX@),
{
    answer_listing(failure, STORE_FAILURE_PREFIX)
}

/// The text of a form field on an edit: empty where the field is absent
/// or holds the word for a value that the browser did not have.
pub open spec fn defined_text(field: Option<String>) -> Seq<char> {
    match field {
        Some(s) => if s@ == UNDEFINED@ {
            Seq::empty()
        } else {
            s@
        },
        None => Seq::empty(),
    }
}

pub open spec fn number_or_zero(field: Option<Decimal>) -> SqlValueView {
    match field {
        Some(d) => SqlValueView::Real(d.thousandths as int),
        None => SqlValueView::Real(0),
    }
}

pub open spec fn number_or_null(field: Option<Decimal>) -> SqlValueView {
    match field {
        Some(d) => SqlValueView::Real(d.thousandths as int),
        None => SqlValueView::Null,
    }
}

/// The integer that a field writes, or zero where it is absent or writes
/// no 32-bit integer. The category of a product is read so, and the stock
/// of a new product.
pub open spec fn integer_or_zero(field: Option<String>) -> SqlValueView {
    match field {
        Some(s) => match i32_of_text(s@) {
            Some(n) => SqlValueView::Integer(n as int),
            None => SqlValueView::Integer(0),
        },
        None => SqlValueView::Integer(0),
    }
}

/// The text of a field, read for a new product (`edit` false) or for an
/// edit (`edit` true).
pub open spec fn field_text(field: Option<String>, edit: bool) -> SqlValueView {
    SqlValueView::Text(
        if edit {
            defined_text(field)
        } else {
            text_or_empty(field)
        },
    )
}

/// The stock of a product row: a whole number for a new product, zero
/// where the field writes none; the number as read for an edit.
pub open spec fn stock_value(form: ProductForm, edit: bool) -> SqlValueView {
    if edit {
        number_or_zero(form.stock)
    } else {
        integer_or_zero(form.stock_text)
    }
}

/// The ten values of a product row, in column order.
pub open spec fn product_values(form: ProductForm, images: Seq<char>, edit: bool) -> Seq<
    SqlValueView,
> {
    seq![
        field_text(form.name, edit),
        field_text(form.name_kk, edit),
        integer_or_zero(form.category_id),
        number_or_zero(form.price),
        number_or_null(form.old_price),
        field_text(form.unit, edit),
        SqlValueView::Text(images),
        field_text(form.description, edit),
        field_text(form.description_kk, edit),
        stock_value(form, edit),
    ]
}

fn text_field(field: &Option<String>, edit: bool) -> (r: SqlValue)
    ensures
        r@ == field_text(*field, edit),
{
    match field {
        Some(s) => {
            if edit && text_eq(s.as_str(), UNDEFINED) {
                SqlValue::Text(String::new())
            } else {
                SqlValue::Text(s.clone())
            }
        },
        None => SqlValue::Text(String::new()),
    }
}

fn real_or_zero(field: &Option<Decimal>) -> (r: SqlValue)
    ensures
        r@ == number_or_zero(*field),
{
    match field {
        Some(d) => SqlValue::Real(*d),
        None => SqlValue::Real(Decimal::zero()),
    }
}

fn real_or_null(field: &Option<Decimal>) -> (r: SqlValue)
    ensures
        r@ == number_or_null(*field),
{
    match field {
        Some(d) => SqlValue::Real(*d),
        None => SqlValue::Null,
    }
}

fn integer_field(field: &Option<String>) -> (r: SqlValue)
    ensures
        r@ == integer_or_zero(*field),
{
    match field {
        Some(s) => match parse_i32(s.as_str()) {
            Some(n) => SqlValue::Integer(n as i64),
            None => SqlValue::Integer(0),
        },
        None => SqlValue::Integer(0),
    }
}

/// The statement for a product row, given the JSON text of its image list.
pub fn product_statement(sql: &str, form: &ProductForm, images: String, edit: bool) -> (r:
    Statement)
    ensures
        r@ == (StatementView { sql: sql@, params: product_values(*form, images@, edit) }),
{
    let stock = if edit {
        real_or_zero(&form.stock)
    } else {
        integer_field(&form.stock_text)
    };
    let r = Statement::new(sql).bind(text_field(&form.name, edit)).bind(
        text_field(&form.name_kk, edit),
    ).bind(integer_field(&form.category_id)).bind(real_or_zero(&form.price)).bind(
        real_or_null(&form.old_price),
    ).bind(text_field(&form.unit, edit)).bind(SqlValue::Text(images)).bind(
        text_field(&form.description, edit),
    ).bind(text_field(&form.description_kk, edit)).bind(stock);
    assert(r@.params =~= product_values(*form, images@, edit));
    r
}

/// Decides the creation of a product. `uploads` holds the images that
/// came with the request, as they were handed to the blob store.
///
/// Where an upload failed the request ends with status 500 and nothing is
/// written. Otherwise the product is recorded with the addresses of its
/// images.
pub fn create_product(form: &ProductForm, uploads: &Vec<Upload>) -> (r: Result<Statement, Reply>)
    ensures
        match first_failure(uploads@) {
            Some(cause) => r is Err && r->Err_0@ == upload_failure_reply(cause),
            None => r is Ok && r->Ok_0@ == (StatementView {
                sql: INSERT_PRODUCT_SQL@,
                params: product_values(*form, json_of_texts(upload_urls(uploads@)), false),
            }),
        },
{
    match settle_uploads(uploads) {
        Err(reply) => Err(reply),
        Ok(urls) => {
            let images = images_json(Vec::new(), &urls);
            assert(texts_view(Seq::<String>::empty()) + texts_view(urls@) =~= texts_view(urls@));
            Ok(product_statement(INSERT_PRODUCT_SQL, form, images, false))
        },
    }
}

/// Answers a product creation.
pub fn create_product_reply(written: &Written) -> (r: Reply)
    ensures
        r@ == write_reply(*written, PRODUCT_CREATED@, ALREADY_EXISTS@, STORE_FAILURE_PREFIX@),
{
    answer_write(written, PRODUCT_CREATED, ALREADY_EXISTS, STORE_FAILURE_PREFIX)
}

/// Decides the edit of a product. `id` is the identifier of the request
/// path, `remaining` the form field that lists the images to keep,
/// `uploads` the images that came with the request, as they were handed
/// to the blob store.
///
/// Where an upload failed the request ends with status 500 and nothing is
/// written. Otherwise the product is rewritten; its images are those kept,
/// then those uploaded.
pub fn update_product(
    id: &str,
    form: &ProductForm,
    remaining: &Option<String>,
    uploads: &Vec<Upload>,
) -> (r: Result<Statement, Reply>)
    ensures
        match first_failure(uploads@) {
            Some(cause) => r is Err && r->Err_0@ == upload_failure_reply(cause),
            None => r is Ok && r->Ok_0@ == (StatementView {
                sql: UPDATE_PRODUCT_SQL@,
                params: product_values(
                    *form,
                    json_of_texts(kept_images(*remaining) + upload_urls(uploads@)),
                    true,
                ).push(SqlValueView::Text(id@)),
            }),
        },
{
    match settle_uploads(uploads) {
        Err(reply) => Err(reply),
        Ok(urls) => {
            let images = images_json(remaining_images(remaining), &urls);
            Ok(
                product_statement(UPDATE_PRODUCT_SQL, form, images, true).bind(
                    SqlValue::Text(String::from_str(id)),
                ),
            )
        },
    }
}

/// Answers a product edit.
pub fn update_product_reply(written: &Written) -> (r: Reply)
    ensures
        r@ == write_reply(*written, PRODUCT_UPDATED@, ALREADY_EXISTS@, STORE_FAILURE_PREFIX@),
{
    answer_write(written, PRODUCT_UPDATED, ALREADY_EXISTS, STORE_FAILURE_PREFIX)
}

/// The statement that looks one product up by the identifier of the
/// request path.
pub fn get_product(id: &str) -> (r: Statement)
    ensures
        r@ == (StatementView { sql: GET_PRODUCT_SQL@, params: seq![SqlValueView::Text(id@)] }),
{
    let r = Statement::new(GET_PRODUCT_SQL).bind(SqlValue::Text(String::from_str(id)));
    assert(r@.params =~= seq![SqlValueView::Text(id@)]);
    r
}

/// Answers a product lookup: the row, or status 404, or a storage failure.
pub fn get_product_reply(fetch: &Fetch) -> (r: Answer)
    ensures
        r@ == lookup_answer(*fetch, PRODUCT_MISSING@, LOOKUP_FAILURE_PREFIX@),
{
    answer_lookup(fetch, PRODUCT_MISSING, LOOKUP_FAILURE_PREFIX)
}

/// Opens the deletion of a product.
pub fn delete_product(request: &DeleteRequest) -> (r: (DeleteFlow, DeleteAction))
    ensures
        (r.0@, r.1@) == begun(Entity::Product, *request),
{
    DeleteFlow::begin(Entity::Product, request)
}

/// The product that an entry of a cart names: a text as the 32-bit integer
/// it writes, a number as it is where it fits 32 bits; nothing for
/// anything else. No value is cut to fit.
pub open spec fn cart_id_of(field: IdField) -> Option<i32> {
    match field {
        IdField::Text(s) => i32_of_text(s@),
        IdField::Number(n) => if i32::MIN <= n <= i32::MAX {
            Some(n as i32)
        } else {
            None
        },
        IdField::Missing => None,
    }
}

/// The products that a cart names, in cart order; entries that name none
/// are skipped.
pub open spec fn cart_ids(fields: Seq<IdField>) -> Seq<i32>
    decreases fields.len(),
{
    if fields.len() == 0 {
        Seq::empty()
    } else {
        match cart_id_of(fields.last()) {
            Some(id) => cart_ids(fields.drop_last()).push(id),
            None => cart_ids(fields.drop_last()),
        }
    }
}

/// `n` placeholders with commas between them.
pub open spec fn placeholder_list(n: nat) -> Seq<char>
    decreases n,
{
    if n == 0 {
        Seq::empty()
    } else if n == 1 {
        seq!['?']
    } else {
        placeholder_list((n - 1) as nat) + seq![',', '?']
    }
}

/// The statement that fetches the products with the given identifiers.
pub open spec fn cart_statement(ids: Seq<i32>) -> StatementView {
    StatementView {
        sql: CART_SQL_HEAD@ + placeholder_list(ids.len()) + CART_SQL_TAIL@,
        params: Seq::new(ids.len(), |i: int| SqlValueView::Integer(ids[i] as int)),
    }
}

/// What to do about a cart lookup.
#[derive(Debug, PartialEq, Eq)]
pub enum CartLookup {
    /// Answer at once.
    Reply(Reply),
    /// Run the statement and answer with its rows.
    Query(Statement),
}

pub enum CartLookupView {
    Reply(ReplyView),
    Query(StatementView),
}

impl View for CartLookup {
    type V = CartLookupView;

    open spec fn view(&self) -> CartLookupView {
        match self {
            CartLookup::Reply(reply) => CartLookupView::Reply(reply@),
            CartLookup::Query(statement) => CartLookupView::Query(statement@),
        }
    }
}

/// What a cart lookup asks for: a request without a list of identifiers
/// is refused with status 400; a list that names no product is answered
/// with the empty list and the store is not asked; any other list is
/// looked up in one statement with one placeholder per product.
pub open spec fn cart_lookup(ids: Option<Vec<IdField>>) -> CartLookupView {
    match ids {
        None => CartLookupView::Reply(text_reply(400, NO_IDS@)),
        Some(fields) => if cart_ids(fields@).len() == 0 {
            CartLookupView::Reply(json_reply(NO_PRODUCTS@))
        } else {
            CartLookupView::Query(cart_statement(cart_ids(fields@)))
        },
    }
}

/// Decides a cart lookup: see [`cart_lookup`].
pub fn get_cart_items(ids: &Option<Vec<IdField>>) -> (r: CartLookup)
    ensures
        r@ == cart_lookup(*ids),
{
    let fields = match ids {
        Some(fields) => fields,
        None => {
            return CartLookup::Reply(Reply::error(NO_IDS, BAD_REQUEST));
        },
    };
    let ghost all = fields@;
    let mut found: Vec<i32> = Vec::new();
    let mut i: usize = 0;
    assert(all.take(0) =~= Seq::<IdField>::empty());
    while i < fields.len()
        invariant
            i <= fields@.len(),
            all == fields@,
            found@ == cart_ids(all.take(i as int)),
        decreases fields.len() - i,
    {
        proof {
            assert(all.take(i + 1).drop_last() =~= all.take(i as int));
            assert(all.take(i + 1).last() == fields@[i as int]);
        }
        let id = match &fields[i] {
            IdField::Text(s) => parse_i32(s.as_str()),
            IdField::Number(n) => {
                if -2147483648 <= *n && *n <= 2147483647 {
                    Some(*n as i32)
                } else {
                    None
                }
            },
            IdField::Missing => None,
        };
        match id {
            Some(n) => {
                found.push(n);
            },
            None => {},
        }
        i = i + 1;
    }
    assert(all.take(i as int) =~= all);
    if found.len() == 0 {
        return CartLookup::Reply(Reply::json(NO_PRODUCTS));
    }
    let mut sql = String::from_str(CART_SQL_HEAD);
    let mut params: Vec<SqlValue> = Vec::new();
    let ghost wanted = cart_statement(found@).params;
    let mut k: usize = 0;
    proof {
        reveal_strlit("?");
        reveal_strlit(",?");
        assert("?"@ =~= seq!['?']);
        assert(",?"@ =~= seq![',', '?']);
        assert(sql@ + placeholder_list(0) =~= sql@);
        assert(values_view(params@) =~= wanted.take(0));
    }
    while k < found.len()
        invariant
            k <= found@.len(),
            "?"@ == seq!['?'],
            ",?"@ == seq![',', '?'],
            wanted == cart_statement(found@).params,
            sql@ == CART_SQL_HEAD@ + placeholder_list(k as nat),
            values_view(params@) == wanted.take(k as int),
        decreases found.len() - k,
    {
        if k == 0 {
            sql.append("?");
            assert(CART_SQL_HEAD@ + placeholder_list(0) + seq!['?'] =~= CART_SQL_HEAD@
                + placeholder_list(1));
        } else {
            sql.append(",?");
            assert(CART_SQL_HEAD@ + placeholder_list(k as nat) + seq![',', '?'] =~= CART_SQL_HEAD@
                + placeholder_list((k + 1) as nat));
        }
        let bound = SqlValue::Integer(found[k] as i64);
        proof {
            lemma_values_view_push(params@, bound);
            assert(wanted.take(k as int).push(bound@) =~= wanted.take(k + 1));
        }
        params.push(bound);
        k = k + 1;
    }
    assert(wanted.take(k as int) =~= wanted);
    sql.append(CART_SQL_TAIL);
    CartLookup::Query(Statement { sql, params })
}

} // verus!
