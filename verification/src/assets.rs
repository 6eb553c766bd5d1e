//! Asset references: the names under which images are stored, the public
//! addresses made from them, and the way back from an address to a name.

use vstd::prelude::*;
use vstd::string::*;
use crate::reply::{failure_reply, Reply, ReplyView, Written};
use crate::text::{
    after_last, contains_char, joined, lemma_after_last_of_join, tail_after_last, texts_view,
};

verus! {

/// The public address under which every stored asset is served.
pub const PUBLIC_BASE: &'static str = "https://img.tabys-go.ru/";

/// What ends the name of every stored image.
pub const IMAGE_SUFFIX: &'static str = ".jpg";

/// What separates the segments of an address.
pub const SEPARATOR: char = '/';

/// The storage key of an asset reference: what follows its last
/// separator. A reference without a separator has none.
pub open spec fn key_of(reference: Seq<char>) -> Option<Seq<char>> {
    if reference.contains('/') {
        Some(after_last(reference, '/'))
    } else {
        None
    }
}

/// The name of an image: a prefix, a hyphen, a token, and the suffix.
pub open spec fn name_of(prefix: Seq<char>, token: Seq<char>) -> Seq<char> {
    prefix + seq!['-'] + token + IMAGE_SUFFIX@
}

/// The public address of a stored name.
pub open spec fn url_of(name: Seq<char>) -> Seq<char> {
    PUBLIC_BASE@ + name
}

/// A token is 36 characters, each a hyphen, a digit or a letter from `a`
/// to `f`.
pub open spec fn is_token(token: Seq<char>) -> bool {
    &&& token.len() == 36
    &&& forall|i: int|
        0 <= i < token.len() ==> {
            let c = #[trigger] token[i];
            c == '-' || ('0' <= c && c <= '9') || ('a' <= c && c <= 'f')
        }
}

/// Derives the storage key of an asset reference: see [`key_of`].
pub fn asset_key(reference: &str) -> (r: Option<String>)
    ensures
        r is Some <==> key_of(reference@) is Some,
        r is Some ==> r.unwrap()@ == key_of(reference@).unwrap(),
{
    if contains_char(reference, SEPARATOR) {
        Some(tail_after_last(reference, SEPARATOR))
    } else {
        None
    }
}

/// The name of an image from its prefix and token: see [`name_of`].
pub fn asset_name(prefix: &str, token: &str) -> (r: String)
    ensures
        r@ == name_of(prefix@, token@),
{
    proof {
        reveal_strlit("-");
    }
    assert("-"@ =~= seq!['-']);
    let mut name = joined(prefix, "-");
    name.append(token);
    name.append(IMAGE_SUFFIX);
    name
}

/// The public address of a stored name: see [`url_of`].
pub fn asset_url(name: &str) -> (r: String)
    ensures
        r@ == url_of(name@),
{
    joined(PUBLIC_BASE, name)
}

/// Draws a fresh token from `uuid::Uuid::new_v4` and writes it in the
/// hyphenated lower-case form of its `Display`.
///
/// The token is random: the contract states only its shape, which holds of
/// every outcome. The call panics where the operating system has no source
/// of randomness.
#[verifier::external_body]
pub(crate) fn random_token() -> (r: String)
    ensures
        is_token(r@),
{
    uuid::Uuid::new_v4().to_string()
}

/// A fresh name for an image with this prefix.
pub fn fresh_asset_name(prefix: &str) -> (r: String)
    ensures
        exists|token: Seq<char>| is_token(token) && r@ == name_of(prefix@, token),
{
    let token = random_token();
    asset_name(prefix, token.as_str())
}

/// An image handed to the blob store under a name, and how that went.
#[derive(Debug, PartialEq, Eq)]
pub struct Upload {
    pub name: String,
    pub stored: Written,
}

/// What precedes the cause in the body of a failed upload.
pub const UPLOAD_FAILURE_PREFIX: &'static str = "R2 Error: ";

/// The cause of the first upload that failed, if any did.
pub open spec fn first_failure(uploads: Seq<Upload>) -> Option<Seq<char>>
    decreases uploads.len(),
{
    if uploads.len() == 0 {
        None
    } else {
        match first_failure(uploads.drop_last()) {
            Some(cause) => Some(cause),
            None => match uploads.last().stored {
                Written::Failed(cause) => Some(cause@),
                Written::Done => None,
            },
        }
    }
}

/// The public addresses of the uploads, in order.
pub open spec fn upload_urls(uploads: Seq<Upload>) -> Seq<Seq<char>> {
    Seq::new(uploads.len(), |i: int| url_of(uploads[i].name@))
}

/// The reply to a request one of whose uploads failed: status 500 with
/// the cause. Nothing is written to the relational store for it.
pub open spec fn upload_failure_reply(cause: Seq<char>) -> ReplyView {
    failure_reply(UPLOAD_FAILURE_PREFIX@, cause)
}

/// Settles the uploads of a request: where one failed, the reply that
/// ends the request, with the cause of the first failure; where all
/// worked, their public addresses in order.
pub fn settle_uploads(uploads: &Vec<Upload>) -> (r: Result<Vec<String>, Reply>)
    ensures
        match first_failure(uploads@) {
            Some(cause) => r is Err && r->Err_0@ == upload_failure_reply(cause),
            None => r is Ok && texts_view(r->Ok_0@) == upload_urls(uploads@),
        },
{
    let mut urls: Vec<String> = Vec::new();
    let mut i: usize = 0;
    assert(uploads@.take(0) =~= Seq::<Upload>::empty());
    while i < uploads.len()
        invariant
            i <= uploads@.len(),
            first_failure(uploads@.take(i as int)) is None,
            urls@.len() == i,
            forall|j: int| 0 <= j < i ==> (#[trigger] urls@[j])@ == url_of(uploads@[j].name@),
        decreases uploads.len() - i,
    {
        proof {
            assert(uploads@.take(i + 1).drop_last() =~= uploads@.take(i as int));
            assert(uploads@.take(i + 1).last() == uploads@[i as int]);
        }
        match &uploads[i].stored {
            Written::Failed(cause) => {
                proof {
                    lemma_first_failure_stays(uploads@, i + 1);
                }
                return Err(Reply::failure(UPLOAD_FAILURE_PREFIX, cause.as_str()));
            },
            Written::Done => {
                urls.push(asset_url(uploads[i].name.as_str()));
            },
        }
        i = i + 1;
    }
    assert(uploads@.take(i as int) =~= uploads@);
    assert(texts_view(urls@) =~= upload_urls(uploads@));
    Ok(urls)
}

proof fn lemma_first_failure_stays(uploads: Seq<Upload>, k: int)
    requires
        0 <= k <= uploads.len(),
        first_failure(uploads.take(k)) is Some,
    ensures
        first_failure(uploads) == first_failure(uploads.take(k)),
    decreases uploads.len() - k,
{
    if k < uploads.len() {
        assert(uploads.take(k + 1).drop_last() =~= uploads.take(k));
        lemma_first_failure_stays(uploads, k + 1);
    } else {
        assert(uploads.take(k) =~= uploads);
    }
}

/// From a name to its address and back: the key of the address of a name
/// without a separator is the name.
pub proof fn law_key_of_url(name: Seq<char>)
    requires
        !name.contains('/'),
    ensures
        key_of(url_of(name)) == Some(name),
{
    reveal_strlit("https://img.tabys-go.ru/");
    let base = PUBLIC_BASE@;
    let head = base.drop_last();
    assert(base.last() == '/');
    assert(head.push('/') =~= base);
    lemma_after_last_of_join(head, '/', name);
    let whole = head.push('/') + name;
    assert(whole =~= url_of(name));
    assert(whole[head.len() as int] == '/');
    assert(whole.contains('/'));
}

/// The name of an image holds no separator where its prefix holds none,
/// so its address leads back to it.
pub proof fn law_fresh_name_round_trip(prefix: Seq<char>, token: Seq<char>)
    requires
        !prefix.contains('/'),
        is_token(token),
    ensures
        key_of(url_of(name_of(prefix, token))) == Some(name_of(prefix, token)),
{
    reveal_strlit(".jpg");
    let name = name_of(prefix, token);
    let suffix = IMAGE_SUFFIX@;
    if name.contains('/') {
        let i = choose|i: int| 0 <= i < name.len() && name[i] == '/';
        if i < prefix.len() {
            assert(prefix[i] == '/');
        } else if i == prefix.len() {
            assert(name[i] == '-');
        } else if i < prefix.len() + 1 + token.len() {
            assert(name[i] == token[i - prefix.len() - 1]);
        } else {
            assert(name[i] == suffix[i - prefix.len() - 1 - token.len()]);
        }
    }
    law_key_of_url(name);
}

} // verus!
