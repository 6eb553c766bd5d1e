//! What a request is answered with.

use vstd::prelude::*;
use vstd::string::*;
use crate::text::{contains_text, has_infix, joined};

verus! {

/// How the body of a reply is to be read.
#[derive(Clone, Copy, Debug, PartialEq, Eq, Structural)]
pub enum BodyKind {
    Text,
    Json,
}

/// A status code and a body.
#[derive(Debug, PartialEq, Eq)]
pub struct Reply {
    pub status: u16,
    pub kind: BodyKind,
    pub body: String,
}

pub struct ReplyView {
    pub status: int,
    pub kind: BodyKind,
    pub body: Seq<char>,
}

impl View for Reply {
    type V = ReplyView;

    open spec fn view(&self) -> ReplyView {
        ReplyView { status: self.status as int, kind: self.kind, body: self.body@ }
    }
}

/// The request was carried out.
pub const OK: u16 = 200;

/// The request is not valid.
pub const BAD_REQUEST: u16 = 400;

/// What was asked for does not exist.
pub const NOT_FOUND: u16 = 404;

/// The store failed.
pub const SERVER_ERROR: u16 = 500;

/// What a request is told whose body cannot be read.
pub const MALFORMED_PAYLOAD: &'static str = "Malformed payload";

/// What precedes the cause in the body of a storage failure.
pub const STORE_FAILURE_PREFIX: &'static str = "D1 Error: ";

pub open spec fn text_reply(status: int, body: Seq<char>) -> ReplyView {
    ReplyView { status, kind: BodyKind::Text, body }
}

pub open spec fn json_reply(body: Seq<char>) -> ReplyView {
    ReplyView { status: 200, kind: BodyKind::Json, body }
}

/// The reply to a store failure: status 500, and the cause after a prefix.
pub open spec fn failure_reply(prefix: Seq<char>, cause: Seq<char>) -> ReplyView {
    text_reply(500, prefix + cause)
}

impl Reply {
    /// A plain-text reply with status 200.
    pub fn ok(body: &str) -> (r: Reply)
        ensures
            r@ == text_reply(200, body@),
    {
        Reply { status: OK, kind: BodyKind::Text, body: String::from_str(body) }
    }

    /// A plain-text reply with the given status.
    pub fn error(body: &str, status: u16) -> (r: Reply)
        ensures
            r@ == text_reply(status as int, body@),
    {
        Reply { status, kind: BodyKind::Text, body: String::from_str(body) }
    }

    /// A reply with status 200 whose body is JSON text.
    pub fn json(body: &str) -> (r: Reply)
        ensures
            r@ == json_reply(body@),
    {
        Reply { status: OK, kind: BodyKind::Json, body: String::from_str(body) }
    }

    /// The reply to a request whose body cannot be read: status 400. No
    /// store is touched for such a request.
    pub fn malformed() -> (r: Reply)
        ensures
            r@ == text_reply(400, MALFORMED_PAYLOAD@),
    {
        Reply::error(MALFORMED_PAYLOAD, BAD_REQUEST)
    }

    /// The reply to a store failure: see [`failure_reply`].
    pub fn failure(prefix: &str, cause: &str) -> (r: Reply)
        ensures
            r@ == failure_reply(prefix@, cause@),
    {
        Reply { status: SERVER_ERROR, kind: BodyKind::Text, body: joined(prefix, cause) }
    }
}

/// What a lookup of one row gave.
#[derive(Debug, PartialEq, Eq)]
pub enum Fetch {
    Found,
    Absent,
    /// The store failed, with the cause.
    Failed(String),
}

/// What a write gave.
#[derive(Debug, PartialEq, Eq)]
pub enum Written {
    Done,
    /// The store failed, with the cause.
    Failed(String),
}

/// How to answer a read: with the rows that the store gave, which the
/// embedding program serialises, or with a reply made here.
#[derive(Debug, PartialEq, Eq)]
pub enum Answer {
    Rows,
    Reply(Reply),
}

pub enum AnswerView {
    Rows,
    Reply(ReplyView),
}

impl View for Answer {
    type V = AnswerView;

    open spec fn view(&self) -> AnswerView {
        match self {
            Answer::Rows => AnswerView::Rows,
            Answer::Reply(reply) => AnswerView::Reply(reply@),
        }
    }
}

/// The answer to a lookup: the row where there is one, status 404 with the
/// given message where there is none, a storage failure otherwise.
pub open spec fn lookup_answer(fetch: Fetch, missing: Seq<char>, prefix: Seq<char>) -> AnswerView {
    match fetch {
        Fetch::Found => AnswerView::Rows,
        Fetch::Absent => AnswerView::Reply(text_reply(404, missing)),
        Fetch::Failed(cause) => AnswerView::Reply(failure_reply(prefix, cause@)),
    }
}

/// Answers a lookup: see [`lookup_answer`].
pub fn answer_lookup(fetch: &Fetch, missing: &str, prefix: &str) -> (r: Answer)
    ensures
        r@ == lookup_answer(*fetch, missing@, prefix@),
{
    match fetch {
        Fetch::Found => Answer::Rows,
        Fetch::Absent => Answer::Reply(Reply::error(missing, NOT_FOUND)),
        Fetch::Failed(cause) => Answer::Reply(Reply::failure(prefix, cause.as_str())),
    }
}

/// The answer to a listing: the rows where the store gave them, a storage
/// failure with the cause where it failed.
pub open spec fn listing_answer(failure: Option<String>, prefix: Seq<char>) -> AnswerView {
    match failure {
        None => AnswerView::Rows,
        Some(cause) => AnswerView::Reply(failure_reply(prefix, cause@)),
    }
}

/// Answers a listing: see [`listing_answer`].
pub fn answer_listing(failure: &Option<String>, prefix: &str) -> (r: Answer)
    ensures
        r@ == listing_answer(*failure, prefix@),
{
    match failure {
        None => Answer::Rows,
        Some(cause) => Answer::Reply(Reply::failure(prefix, cause.as_str())),
    }
}

/// What the store's message holds where a unique column is given a value
/// that another row has.
pub const UNIQUE_VIOLATION: &'static str = "UNIQUE constraint failed";

/// What a conflict is answered with where no closer message is at hand.
pub const ALREADY_EXISTS: &'static str = "Already exists";

/// Whether a failure is a conflict: the store refused a value that another
/// row has in a unique column.
pub open spec fn is_conflict(cause: Seq<char>) -> bool {
    has_infix(cause, UNIQUE_VIOLATION@)
}

/// The answer to a write: status 200 with the message `done` where it was
/// done; status 400 with the message `taken` where the store reports a
/// conflict; a storage failure with status 500 for any other cause.
pub open spec fn write_reply(
    written: Written,
    done: Seq<char>,
    taken: Seq<char>,
    prefix: Seq<char>,
) -> ReplyView {
    match written {
        Written::Done => text_reply(200, done),
        Written::Failed(cause) => if is_conflict(cause@) {
            text_reply(400, taken)
        } else {
            failure_reply(prefix, cause@)
        },
    }
}

/// Answers a write: see [`write_reply`].
pub fn answer_write(written: &Written, done: &str, taken: &str, prefix: &str) -> (r: Reply)
    ensures
        r@ == write_reply(*written, done@, taken@, prefix@),
{
    match written {
        Written::Done => Reply::ok(done),
        Written::Failed(cause) => {
            if contains_text(cause.as_str(), UNIQUE_VIOLATION) {
                Reply::error(taken, BAD_REQUEST)
            } else {
                Reply::failure(prefix, cause.as_str())
            }
        },
    }
}

} // verus!
