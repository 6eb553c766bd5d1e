//! The image list of a product, kept in one column as JSON text.

use vstd::prelude::*;
use vstd::string::*;
use crate::text::{text_eq, texts_view};

verus! {

/// The JSON text that `serde_json::to_string` writes for a list of texts;
/// the empty text where it reports an error.
pub uninterp spec fn json_of_texts(texts: Seq<Seq<char>>) -> Seq<char>;

/// The list of texts that `serde_json::from_str` reads from a JSON text;
/// the empty list where it reports an error.
pub uninterp spec fn texts_of_json(text: Seq<char>) -> Seq<Seq<char>>;

/// Calls `serde_json::to_string` on a list of texts and takes the empty
/// text in place of an error. The contract only names the result.
#[verifier::external_body]
pub(crate) fn encode_texts(texts: &Vec<String>) -> (r: String)
    ensures
        r@ == json_of_texts(texts_view(texts@)),
{
    serde_json::to_string(texts).unwrap_or_default()
}

/// Calls `serde_json::from_str` for a list of texts and takes the empty
/// list in place of an error. The contract only names the result.
#[verifier::external_body]
pub(crate) fn decode_texts(text: &str) -> (r: Vec<String>)
    ensures
        texts_view(r@) == texts_of_json(text@),
{
    serde_json::from_str(text).unwrap_or_default()
}

/// The word that a browser sends for a value it does not have.
pub const UNDEFINED: &'static str = "undefined";

/// The images that a product keeps, from the form field that lists them:
/// none where the field is absent, empty or undefined, else what the JSON
/// text holds.
pub open spec fn kept_images(field: Option<String>) -> Seq<Seq<char>> {
    match field {
        Some(s) => if s@ == UNDEFINED@ || s@.len() == 0 {
            Seq::empty()
        } else {
            texts_of_json(s@)
        },
        None => Seq::empty(),
    }
}

/// Reads the list of kept images: see [`kept_images`].
pub fn remaining_images(field: &Option<String>) -> (r: Vec<String>)
    ensures
        texts_view(r@) == kept_images(*field),
{
    match field {
        Some(s) => {
            if text_eq(s.as_str(), UNDEFINED) || s.as_str().unicode_len() == 0 {
                let none: Vec<String> = Vec::new();
                assert(texts_view(none@) =~= Seq::<Seq<char>>::empty());
                none
            } else {
                decode_texts(s.as_str())
            }
        },
        None => {
            let none: Vec<String> = Vec::new();
            assert(texts_view(none@) =~= Seq::<Seq<char>>::empty());
            none
        },
    }
}

/// The image list of a product as JSON text: the images kept, then those
/// just uploaded.
pub fn images_json(kept: Vec<String>, uploaded: &Vec<String>) -> (r: String)
    ensures
        r@ == json_of_texts(texts_view(kept@) + texts_view(uploaded@)),
{
    let ghost start = texts_view(kept@);
    let mut all = kept;
    let mut i: usize = 0;
    assert(texts_view(uploaded@).take(0) =~= Seq::<Seq<char>>::empty());
    assert(start + Seq::<Seq<char>>::empty() =~= start);
    while i < uploaded.len()
        invariant
            i <= uploaded@.len(),
            texts_view(all@) == start + texts_view(uploaded@).take(i as int),
        decreases uploaded.len() - i,
    {
        let url = uploaded[i].clone();
        proof {
            let listed = texts_view(uploaded@);
            assert(texts_view(all@.push(url)) =~= texts_view(all@).push(url@));
            assert(listed[i as int] == url@);
            assert((start + listed.take(i as int)).push(url@) =~= start + listed.take(i + 1));
        }
        all.push(url);
        i = i + 1;
    }
    assert(texts_view(uploaded@).take(i as int) =~= texts_view(uploaded@));
    encode_texts(&all)
}

} // verus!
