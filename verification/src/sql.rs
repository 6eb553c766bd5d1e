//! Parameterised statements: a text with `?` placeholders and the values
//! bound to them. Values never enter the text.

use vstd::prelude::*;
use vstd::string::*;
use crate::amount::Decimal;

verus! {

/// A value bound to a placeholder.
#[derive(Debug, PartialEq, Eq)]
pub enum SqlValue {
    Null,
    Integer(i64),
    Real(Decimal),
    Text(String),
}

/// What a [`SqlValue`] holds, as mathematics.
pub enum SqlValueView {
    Null,
    Integer(int),
    /// In thousandths.
    Real(int),
    Text(Seq<char>),
}

impl View for SqlValue {
    type V = SqlValueView;

    open spec fn view(&self) -> SqlValueView {
        match self {
            SqlValue::Null => SqlValueView::Null,
            SqlValue::Integer(n) => SqlValueView::Integer(*n as int),
            SqlValue::Real(d) => SqlValueView::Real(d.thousandths as int),
            SqlValue::Text(s) => SqlValueView::Text(s@),
        }
    }
}

/// A statement text and its bound values, in placeholder order.
#[derive(Debug, PartialEq, Eq)]
pub struct Statement {
    pub sql: String,
    pub params: Vec<SqlValue>,
}

pub struct StatementView {
    pub sql: Seq<char>,
    pub params: Seq<SqlValueView>,
}

/// The views of a run of values.
pub open spec fn values_view(values: Seq<SqlValue>) -> Seq<SqlValueView> {
    Seq::new(values.len(), |i: int| values[i]@)
}

impl View for Statement {
    type V = StatementView;

    open spec fn view(&self) -> StatementView {
        StatementView { sql: self.sql@, params: values_view(self.params@) }
    }
}

impl Statement {
    /// A statement without bound values.
    pub fn new(sql: &str) -> (r: Statement)
        ensures
            r@ == (StatementView { sql: sql@, params: Seq::empty() }),
    {
        let r = Statement { sql: String::from_str(sql), params: Vec::new() };
        assert(r@.params =~= Seq::empty());
        r
    }

    /// The statement with one more bound value, after those it has.
    pub fn bind(self, value: SqlValue) -> (r: Statement)
        ensures
            r@ == (StatementView { sql: self@.sql, params: self@.params.push(value@) }),
    {
        let Statement { sql, params } = self;
        let mut params = params;
        proof {
            lemma_values_view_push(params@, value);
        }
        params.push(value);
        Statement { sql, params }
    }
}

/// How often `c` occurs among the first `k` characters of `text`.
pub open spec fn occurrences_in(text: Seq<char>, c: char, k: int) -> nat
    decreases k,
{
    if k <= 0 {
        0
    } else {
        occurrences_in(text, c, k - 1) + if text[k - 1] == c {
            1nat
        } else {
            0nat
        }
    }
}

/// How often `c` occurs in `text`.
pub open spec fn occurrences(text: Seq<char>, c: char) -> nat {
    occurrences_in(text, c, text.len() as int)
}

/// The number of `?` placeholders in a statement text.
pub open spec fn placeholders(sql: Seq<char>) -> nat {
    occurrences(sql, '?')
}

proof fn lemma_occurrences_in_prefix(a: Seq<char>, b: Seq<char>, c: char, k: int)
    requires
        0 <= k <= a.len(),
    ensures
        occurrences_in(a + b, c, k) == occurrences_in(a, c, k),
    decreases k,
{
    if k > 0 {
        lemma_occurrences_in_prefix(a, b, c, k - 1);
        assert((a + b)[k - 1] == a[k - 1]);
    }
}

proof fn lemma_occurrences_in_suffix(a: Seq<char>, b: Seq<char>, c: char, k: int)
    requires
        0 <= k <= b.len(),
    ensures
        occurrences_in(a + b, c, a.len() + k) == occurrences(a, c) + occurrences_in(b, c, k),
    decreases k,
{
    if k == 0 {
        lemma_occurrences_in_prefix(a, b, c, a.len() as int);
    } else {
        lemma_occurrences_in_suffix(a, b, c, k - 1);
        assert((a + b)[a.len() + k - 1] == b[k - 1]);
    }
}

/// Occurrences add up over concatenation.
pub proof fn lemma_occurrences_concat(a: Seq<char>, b: Seq<char>, c: char)
    ensures
        occurrences(a + b, c) == occurrences(a, c) + occurrences(b, c),
{
    lemma_occurrences_in_suffix(a, b, c, b.len() as int);
}

proof fn lemma_none_in(text: Seq<char>, c: char, k: int)
    requires
        0 <= k <= text.len(),
        occurrences_in(text, c, k) == 0,
    ensures
        forall|i: int| 0 <= i < k ==> text[i] != c,
    decreases k,
{
    if k > 0 {
        lemma_none_in(text, c, k - 1);
    }
}

/// A text without occurrences of `c` holds `c` nowhere.
pub proof fn lemma_no_occurrence(text: Seq<char>, c: char)
    requires
        occurrences(text, c) == 0,
    ensures
        !text.contains(c),
{
    lemma_none_in(text, c, text.len() as int);
}

pub proof fn lemma_values_view_push(values: Seq<SqlValue>, value: SqlValue)
    ensures
        values_view(values.push(value)) == values_view(values).push(value@),
{
    assert(values_view(values.push(value)) =~= values_view(values).push(value@));
}

} // verus!
