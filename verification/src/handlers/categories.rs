//! Categories: listing, lookup, creation, edit and deletion.

use vstd::prelude::*;
use vstd::string::*;
use crate::assets::{asset_url, upload_failure_reply, url_of, Upload, UPLOAD_FAILURE_PREFIX};
use crate::deletion::{begun, DeleteAction, DeleteFlow, DeleteRequest, Entity};
use crate::reply::{
    answer_listing, answer_lookup, answer_write, listing_answer, lookup_answer, write_reply,
    Answer, Fetch, Reply, Written, STORE_FAILURE_PREFIX,
};
use crate::sql::{SqlValue, SqlValueView, Statement, StatementView};
use crate::text::{
    i32_of_text, lowercased, owned_or_empty, parse_i32, text_or_empty, to_lowercase, trim,
    trimmed,
};

verus! {

/// The fields of a category form, as the request carries them.
#[derive(Debug, PartialEq, Eq)]
pub struct CategoryForm {
    pub name: Option<String>,
    pub name_kk: Option<String>,
    pub slug: Option<String>,
    pub parent_id: Option<String>,
    /// The address of the image that the category has now (edits only).
    pub current_image: Option<String>,
}

pub const LIST_CATEGORIES_SQL: &'static str = "SELECT * FROM categories";

pub const GET_CATEGORY_SQL: &'static str = "SELECT * FROM categories WHERE id = ?";

pub const INSERT_CATEGORY_SQL: &'static str =
    "INSERT INTO categories (name, name_kk, slug, parent_id, image) VALUES (?, ?, ?, ?, ?)";

pub const UPDATE_CATEGORY_SQL: &'static str =
    "UPDATE categories SET name=?, name_kk=?, slug=?, parent_id=?, image=? WHERE id=?";

pub const CATEGORY_CREATED: &'static str = "Category created";

pub const CATEGORY_UPDATED: &'static str = "Updated";

pub const CATEGORY_MISSING: &'static str = "Категория не найдена";

pub const SLUG_TAKEN: &'static str = "Slug уже существует";

pub const UPDATE_FAILURE_PREFIX: &'static str = "D1 Update Error: ";

/// The parent of a category: the integer that the field writes, or null
/// where the field is absent or writes none.
pub open spec fn parent_value(parent_id: Option<String>) -> SqlValueView {
    match parent_id {
        Some(s) => match i32_of_text(s@) {
            Some(n) => SqlValueView::Integer(n as int),
            None => SqlValueView::Null,
        },
        None => SqlValueView::Null,
    }
}

/// The values of a category row: the names trimmed, the slug in lower
/// case and trimmed, the parent, and the image address.
pub open spec fn category_values(form: CategoryForm, image: Seq<char>) -> Seq<SqlValueView> {
    seq![
        SqlValueView::Text(trimmed(text_or_empty(form.name))),
        SqlValueView::Text(trimmed(text_or_empty(form.name_kk))),
        SqlValueView::Text(trimmed(lowercased(text_or_empty(form.slug)))),
        parent_value(form.parent_id),
        SqlValueView::Text(image),
    ]
}

/// The cause for which the upload of a category image failed, if there
/// was an upload and it failed.
pub open spec fn failed_upload(upload: Option<Upload>) -> Option<Seq<char>> {
    match upload {
        Some(Upload { stored: Written::Failed(cause), .. }) => Some(cause@),
        _ => None,
    }
}

/// The image address of a new category: that of its upload, or none.
pub open spec fn created_image(upload: Option<Upload>) -> Seq<char> {
    match upload {
        Some(image) => url_of(image.name@),
        None => Seq::empty(),
    }
}

/// The image address of an edited category: that of the new upload where
/// there is one, else the one it has, else none.
pub open spec fn edited_image(form: CategoryForm, upload: Option<Upload>) -> Seq<char> {
    match upload {
        Some(image) => url_of(image.name@),
        None => text_or_empty(form.current_image),
    }
}

fn stored_image(upload: &Option<Upload>) -> (r: Result<Option<String>, Reply>)
    ensures
        match failed_upload(*upload) {
            Some(cause) => r is Err && r->Err_0@ == upload_failure_reply(cause),
            None => r is Ok && match *upload {
                Some(image) => r->Ok_0 is Some && r->Ok_0->0@ == url_of(image.name@),
                None => r->Ok_0 is None,
            },
        },
{
    match upload {
        Some(image) => match &image.stored {
            Written::Failed(cause) => Err(Reply::failure(UPLOAD_FAILURE_PREFIX, cause.as_str())),
            Written::Done => Ok(Some(asset_url(image.name.as_str()))),
        },
        None => Ok(None),
    }
}

fn bind_category(statement: Statement, form: &CategoryForm, image: String) -> (r: Statement)
    ensures
        r@ == (StatementView {
            sql: statement@.sql,
            params: statement@.params + category_values(*form, image@),
        }),
{
    let name = trim(owned_or_empty(&form.name).as_str());
    let name_kk = trim(owned_or_empty(&form.name_kk).as_str());
    let slug = trim(to_lowercase(owned_or_empty(&form.slug).as_str()).as_str());
    let parent = match &form.parent_id {
        Some(s) => match parse_i32(s.as_str()) {
            Some(n) => SqlValue::Integer(n as i64),
            None => SqlValue::Null,
        },
        None => SqlValue::Null,
    };
    let r = statement.bind(SqlValue::Text(name)).bind(SqlValue::Text(name_kk)).bind(
        SqlValue::Text(slug),
    ).bind(parent).bind(SqlValue::Text(image));
    assert(r@.params =~= statement@.params + category_values(*form, image@));
    r
}

/// The statement that lists every category.
pub fn list_categories() -> (r: Statement)
    ensures
        r@ == (StatementView { sql: LIST_CATEGORIES_SQL@, params: Seq::empty() }),
{
    Statement::new(LIST_CATEGORIES_SQL)
}

/// Answers a category listing: the rows, or a storage failure with the
/// cause where the store gave one.
pub fn list_categories_reply(failure: &Option<String>) -> (r: Answer)
    ensures
        r@ == listing_answer(*failure, STORE_FAILURE_PREFIX@),
{
    answer_listing(failure, STORE_FAILURE_PREFIX)
}

/// The statement that looks one category up by the identifier of the
/// request path.
pub fn get_category(id: &str) -> (r: Statement)
    ensures
        r@ == (StatementView {
            sql: GET_CATEGORY_SQL@,
            params: seq![SqlValueView::Text(id@)],
        }),
{
    let r = Statement::new(GET_CATEGORY_SQL).bind(SqlValue::Text(String::from_str(id)));
    assert(r@.params =~= seq![SqlValueView::Text(id@)]);
    r
}

/// Answers a category lookup: the row, or status 404, or a storage
/// failure.
pub fn get_category_reply(fetch: &Fetch) -> (r: Answer)
    ensures
        r@ == lookup_answer(*fetch, CATEGORY_MISSING@, STORE_FAILURE_PREFIX@),
{
    answer_lookup(fetch, CATEGORY_MISSING, STORE_FAILURE_PREFIX)
}

/// Decides the creation of a category. `upload` is its image as it was
/// handed to the blob store, where one came with the request.
///
/// Where the upload failed the request ends with status 500 and nothing
/// is written. Otherwise the category is recorded.
pub fn create_category(form: &CategoryForm, upload: &Option<Upload>) -> (r: Result<
    Statement,
    Reply,
>)
    ensures
        match failed_upload(*upload) {
            Some(cause) => r is Err && r->Err_0@ == upload_failure_reply(cause),
            None => r is Ok && r->Ok_0@ == (StatementView {
                sql: INSERT_CATEGORY_SQL@,
                params: category_values(*form, created_image(*upload)),
            }),
        },
{
    match stored_image(upload) {
        Err(reply) => Err(reply),
        Ok(url) => {
            let image = owned_or_empty(&url);
            let r = bind_category(Statement::new(INSERT_CATEGORY_SQL), form, image);
            assert(r@.params =~= category_values(*form, created_image(*upload)));
            Ok(r)
        },
    }
}

/// Answers a category creation: a taken slug is a conflict with status
/// 400, any other failure a storage failure with status 500.
pub fn create_category_reply(written: &Written) -> (r: Reply)
    ensures
        r@ == write_reply(*written, CATEGORY_CREATED@, SLUG_TAKEN@, STORE_FAILURE_PREFIX@),
{
    answer_write(written, CATEGORY_CREATED, SLUG_TAKEN, STORE_FAILURE_PREFIX)
}

/// Decides the edit of a category. `id` is the identifier of the request
/// path, `upload` a new image as it was handed to the blob store, where
/// one came with the request.
///
/// Where the upload failed the request ends with status 500 and nothing
/// is written. Otherwise the category is rewritten.
pub fn update_category(id: &str, form: &CategoryForm, upload: &Option<Upload>) -> (r: Result<
    Statement,
    Reply,
>)
    ensures
        match failed_upload(*upload) {
            Some(cause) => r is Err && r->Err_0@ == upload_failure_reply(cause),
            None => r is Ok && r->Ok_0@ == (StatementView {
                sql: UPDATE_CATEGORY_SQL@,
                params: category_values(*form, edited_image(*form, *upload)).push(
                    SqlValueView::Text(id@),
                ),
            }),
        },
{
    match stored_image(upload) {
        Err(reply) => Err(reply),
        Ok(url) => {
            let image = match url {
                Some(url) => url,
                None => owned_or_empty(&form.current_image),
            };
            let r = bind_category(Statement::new(UPDATE_CATEGORY_SQL), form, image).bind(
                SqlValue::Text(String::from_str(id)),
            );
            assert(r@.params =~= category_values(*form, edited_image(*form, *upload)).push(
                SqlValueView::Text(id@),
            ));
            Ok(r)
        },
    }
}

/// Answers a category edit: a taken slug is a conflict with status 400,
/// any other failure a storage failure with status 500.
pub fn update_category_reply(written: &Written) -> (r: Reply)
    ensures
        r@ == write_reply(*written, CATEGORY_UPDATED@, SLUG_TAKEN@, UPDATE_FAILURE_PREFIX@),
{
    answer_write(written, CATEGORY_UPDATED, SLUG_TAKEN, UPDATE_FAILURE_PREFIX)
}

/// Opens the deletion of a category.
pub fn delete_category(request: &DeleteRequest) -> (r: (DeleteFlow, DeleteAction))
    ensures
        (r.0@, r.1@) == begun(Entity::Category, *request),
{
    DeleteFlow::begin(Entity::Category, request)
}

} // verus!
