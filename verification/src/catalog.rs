//! Catalog listing: the query that a listing request asks for.

use vstd::prelude::*;
use vstd::string::*;
use crate::sql::{
    lemma_no_occurrence, lemma_occurrences_concat, lemma_values_view_push, occurrences,
    occurrences_in, placeholders, values_view, SqlValue, SqlValueView, Statement, StatementView,
};
use crate::text::{joined, i32_of_text, parse_i32, text_eq};

verus! {

/// Who is looking at the catalog.
#[derive(Clone, Copy, Debug, PartialEq, Eq, Structural)]
pub enum Visibility {
    /// Sees every product.
    Admin,
    /// Sees only products in stock.
    Customer,
}

pub const BASE_ADMIN: &'static str = "SELECT * FROM products WHERE 1=1";

pub const BASE_CUSTOMER: &'static str = "SELECT * FROM products WHERE stock > 0";

pub const CATEGORY_CLAUSE: &'static str = " AND category_id = ?";

pub const SEARCH_CLAUSE: &'static str =
    " AND (name LIKE ? OR name_kk LIKE ? OR description LIKE ?)";

/// Newest first, one page of a hundred.
pub const LISTING_TAIL: &'static str = " ORDER BY id DESC LIMIT 100";

/// The key of the mode switch and the value that asks for the admin view.
pub const ADMIN_KEY: &'static str = "admin";

pub const ADMIN_VALUE: &'static str = "true";

pub const CATEGORY_KEY: &'static str = "categoryId";

pub const CATEGORY_KEY_ALT: &'static str = "category_id";

pub const SEARCH_KEY: &'static str = "q";

/// The wildcard put before and after a search term.
pub const WILDCARD: &'static str = "%";

/// What a query pair contributes to a listing.
pub enum FilterKind {
    /// A category identifier that reads as a 32-bit integer.
    Category,
    /// A search term that is not empty.
    Search,
    /// Anything else: an unknown key, or a value that is not well formed.
    Ignored,
}

pub open spec fn filter_kind(key: Seq<char>, value: Seq<char>) -> FilterKind {
    if (key == CATEGORY_KEY@ || key == CATEGORY_KEY_ALT@) && i32_of_text(value) is Some {
        FilterKind::Category
    } else if key == SEARCH_KEY@ && value.len() > 0 {
        FilterKind::Search
    } else {
        FilterKind::Ignored
    }
}

/// The text that a filter appends. It depends on the kind alone.
pub open spec fn clause_of(kind: FilterKind) -> Seq<char> {
    match kind {
        FilterKind::Category => CATEGORY_CLAUSE@,
        FilterKind::Search => SEARCH_CLAUSE@,
        FilterKind::Ignored => Seq::empty(),
    }
}

/// The pattern that matches a search term anywhere in a text: the raw
/// term between two wildcards.
pub open spec fn search_pattern(term: Seq<char>) -> Seq<char> {
    WILDCARD@ + term + WILDCARD@
}

/// The values that a query pair binds, in placeholder order.
pub open spec fn bound_values(key: Seq<char>, value: Seq<char>) -> Seq<SqlValueView> {
    match filter_kind(key, value) {
        FilterKind::Category => seq![SqlValueView::Integer(i32_of_text(value).unwrap() as int)],
        FilterKind::Search => seq![
            SqlValueView::Text(search_pattern(value)),
            SqlValueView::Text(search_pattern(value)),
            SqlValueView::Text(search_pattern(value)),
        ],
        FilterKind::Ignored => Seq::empty(),
    }
}

/// The clauses of the pairs, in request order.
pub open spec fn clauses_of(pairs: Seq<(Seq<char>, Seq<char>)>) -> Seq<char>
    decreases pairs.len(),
{
    if pairs.len() == 0 {
        Seq::empty()
    } else {
        clauses_of(pairs.drop_last()) + clause_of(filter_kind(pairs.last().0, pairs.last().1))
    }
}

/// The values that the pairs bind, in request order.
pub open spec fn values_of(pairs: Seq<(Seq<char>, Seq<char>)>) -> Seq<SqlValueView>
    decreases pairs.len(),
{
    if pairs.len() == 0 {
        Seq::empty()
    } else {
        values_of(pairs.drop_last()) + bound_values(pairs.last().0, pairs.last().1)
    }
}

/// The base of a listing: customers see rows with positive stock only,
/// admins see every row.
pub open spec fn base_of(mode: Visibility) -> Seq<char> {
    match mode {
        Visibility::Admin => BASE_ADMIN@,
        Visibility::Customer => BASE_CUSTOMER@,
    }
}

/// The listing statement for a mode and the pairs of a request.
pub open spec fn listing_of(mode: Visibility, pairs: Seq<(Seq<char>, Seq<char>)>) -> StatementView {
    StatementView {
        sql: base_of(mode) + clauses_of(pairs) + LISTING_TAIL@,
        params: values_of(pairs),
    }
}

/// Whether the pairs ask for the admin view.
pub open spec fn asks_admin(pairs: Seq<(Seq<char>, Seq<char>)>) -> bool {
    exists|i: int| 0 <= i < pairs.len() && #[trigger] pairs[i] == (ADMIN_KEY@, ADMIN_VALUE@)
}

pub open spec fn mode_of(pairs: Seq<(Seq<char>, Seq<char>)>) -> Visibility {
    if asks_admin(pairs) {
        Visibility::Admin
    } else {
        Visibility::Customer
    }
}

pub open spec fn pairs_view(pairs: Seq<(String, String)>) -> Seq<(Seq<char>, Seq<char>)> {
    Seq::new(pairs.len(), |i: int| (pairs[i].0@, pairs[i].1@))
}

/// The mode that a request asks for: see [`asks_admin`].
pub fn visibility_of(pairs: &Vec<(String, String)>) -> (r: Visibility)
    ensures
        r == mode_of(pairs_view(pairs@)),
{
    let mut i: usize = 0;
    while i < pairs.len()
        invariant
            i <= pairs@.len(),
            forall|j: int|
                0 <= j < i ==> #[trigger] pairs_view(pairs@)[j] != (ADMIN_KEY@, ADMIN_VALUE@),
        decreases pairs.len() - i,
    {
        if text_eq(pairs[i].0.as_str(), ADMIN_KEY) && text_eq(pairs[i].1.as_str(), ADMIN_VALUE) {
            assert(pairs_view(pairs@)[i as int] == (ADMIN_KEY@, ADMIN_VALUE@));
            return Visibility::Admin;
        }
        i = i + 1;
    }
    Visibility::Customer
}

/// Builds the listing statement: see [`listing_of`].
///
/// Every value that the request supplies is bound to a placeholder; the
/// text is put together from fixed fragments alone.
pub fn build_listing_query(mode: Visibility, pairs: &Vec<(String, String)>) -> (r: Statement)
    ensures
        r@ == listing_of(mode, pairs_view(pairs@)),
{
    let ghost all = pairs_view(pairs@);
    let mut sql = match mode {
        Visibility::Admin => String::from_str(BASE_ADMIN),
        Visibility::Customer => String::from_str(BASE_CUSTOMER),
    };
    let mut params: Vec<SqlValue> = Vec::new();
    let mut i: usize = 0;
    assert(all.take(0) =~= Seq::<(Seq<char>, Seq<char>)>::empty());
    assert(sql@ =~= base_of(mode) + clauses_of(all.take(0)));
    assert(values_view(params@) =~= values_of(all.take(0)));
    while i < pairs.len()
        invariant
            i <= pairs@.len(),
            all == pairs_view(pairs@),
            sql@ == base_of(mode) + clauses_of(all.take(i as int)),
            values_view(params@) == values_of(all.take(i as int)),
        decreases pairs.len() - i,
    {
        let key = pairs[i].0.as_str();
        let value = pairs[i].1.as_str();
        let ghost before = values_view(params@);
        proof {
            assert(all.take(i + 1).drop_last() =~= all.take(i as int));
            assert(all.take(i + 1).last() == (key@, value@));
        }
        let category = if text_eq(key, CATEGORY_KEY) || text_eq(key, CATEGORY_KEY_ALT) {
            parse_i32(value)
        } else {
            None
        };
        match category {
            Some(id) => {
                sql.append(CATEGORY_CLAUSE);
                let bound = SqlValue::Integer(id as i64);
                proof {
                    lemma_values_view_push(params@, bound);
                    assert(before.push(bound@) =~= before + bound_values(key@, value@));
                }
                params.push(bound);
            },
            None => {
                if text_eq(key, SEARCH_KEY) && value.unicode_len() > 0 {
                    sql.append(SEARCH_CLAUSE);
                    let pattern = joined(joined(WILDCARD, value).as_str(), WILDCARD);
                    let first = SqlValue::Text(pattern.clone());
                    let second = SqlValue::Text(pattern.clone());
                    let third = SqlValue::Text(pattern);
                    proof {
                        lemma_values_view_push(params@, first);
                        lemma_values_view_push(params@.push(first), second);
                        lemma_values_view_push(params@.push(first).push(second), third);
                        assert(before.push(first@).push(second@).push(third@) =~= before
                            + bound_values(key@, value@));
                    }
                    params.push(first);
                    params.push(second);
                    params.push(third);
                } else {
                    assert(sql@ + Seq::<char>::empty() =~= sql@);
                    assert(before + Seq::<SqlValueView>::empty() =~= before);
                }
            },
        }
        assert(sql@ =~= base_of(mode) + clauses_of(all.take(i + 1)));
        i = i + 1;
    }
    assert(all.take(i as int) =~= all);
    sql.append(LISTING_TAIL);
    Statement { sql, params }
}

proof fn lemma_fragment_counts()
    ensures
        occurrences(BASE_ADMIN@, '?') == 0,
        occurrences(BASE_CUSTOMER@, '?') == 0,
        occurrences(CATEGORY_CLAUSE@, '?') == 1,
        occurrences(SEARCH_CLAUSE@, '?') == 3,
        occurrences(LISTING_TAIL@, '?') == 0,
        forall|c: char|
            c == '\'' || c == ';' || c == '"' ==> occurrences(BASE_ADMIN@, c) == 0
                && occurrences(BASE_CUSTOMER@, c) == 0 && occurrences(CATEGORY_CLAUSE@, c) == 0
                && occurrences(SEARCH_CLAUSE@, c) == 0 && occurrences(LISTING_TAIL@, c) == 0,
{
    reveal_strlit("SELECT * FROM products WHERE 1=1");
    reveal_strlit("SELECT * FROM products WHERE stock > 0");
    reveal_strlit(" AND category_id = ?");
    reveal_strlit(" AND (name LIKE ? OR name_kk LIKE ? OR description LIKE ?)");
    reveal_strlit(" ORDER BY id DESC LIMIT 100");
    reveal_with_fuel(occurrences_in, 64);
}

proof fn lemma_clause_counts(pairs: Seq<(Seq<char>, Seq<char>)>)
    ensures
        occurrences(clauses_of(pairs), '?') == values_of(pairs).len(),
        forall|c: char|
            c == '\'' || c == ';' || c == '"' ==> occurrences(clauses_of(pairs), c) == 0,
    decreases pairs.len(),
{
    lemma_fragment_counts();
    if pairs.len() > 0 {
        lemma_clause_counts(pairs.drop_last());
        let clause = clause_of(filter_kind(pairs.last().0, pairs.last().1));
        lemma_occurrences_concat(clauses_of(pairs.drop_last()), clause, '?');
        assert forall|c: char| c == '\'' || c == ';' || c == '"' implies occurrences(
            clauses_of(pairs),
            c,
        ) == 0 by {
            lemma_occurrences_concat(clauses_of(pairs.drop_last()), clause, c);
        }
    }
}

/// Injection safety, first half: the listing text has exactly one
/// placeholder per bound value, and holds no quote and no statement
/// separator, whatever the request supplies.
pub proof fn law_listing_is_one_bound_statement(
    mode: Visibility,
    pairs: Seq<(Seq<char>, Seq<char>)>,
)
    ensures
        placeholders(listing_of(mode, pairs).sql) == listing_of(mode, pairs).params.len(),
        !listing_of(mode, pairs).sql.contains('\''),
        !listing_of(mode, pairs).sql.contains('"'),
        !listing_of(mode, pairs).sql.contains(';'),
{
    lemma_fragment_counts();
    lemma_clause_counts(pairs);
    let sql = listing_of(mode, pairs).sql;
    let head = base_of(mode) + clauses_of(pairs);
    assert forall|c: char| c == '?' || c == '\'' || c == ';' || c == '"' implies occurrences(
        sql,
        c,
    ) == occurrences(base_of(mode), c) + occurrences(clauses_of(pairs), c) + occurrences(
        LISTING_TAIL@,
        c,
    ) by {
        lemma_occurrences_concat(base_of(mode), clauses_of(pairs), c);
        lemma_occurrences_concat(head, LISTING_TAIL@, c);
    }
    lemma_no_occurrence(sql, '\'');
    lemma_no_occurrence(sql, '"');
    lemma_no_occurrence(sql, ';');
}

/// Injection safety, second half: the listing text is a function of the
/// mode and of the kinds of the filters. Two requests that differ only in
/// the values they supply get the same text.
pub proof fn law_listing_text_ignores_values(
    mode: Visibility,
    one: Seq<(Seq<char>, Seq<char>)>,
    other: Seq<(Seq<char>, Seq<char>)>,
)
    requires
        one.len() == other.len(),
        forall|i: int|
            0 <= i < one.len() ==> filter_kind(one[i].0, one[i].1) == filter_kind(
                other[i].0,
                other[i].1,
            ),
    ensures
        listing_of(mode, one).sql == listing_of(mode, other).sql,
    decreases one.len(),
{
    lemma_same_clauses(one, other);
}

proof fn lemma_same_clauses(one: Seq<(Seq<char>, Seq<char>)>, other: Seq<(Seq<char>, Seq<char>)>)
    requires
        one.len() == other.len(),
        forall|i: int|
            0 <= i < one.len() ==> filter_kind(one[i].0, one[i].1) == filter_kind(
                other[i].0,
                other[i].1,
            ),
    ensures
        clauses_of(one) == clauses_of(other),
    decreases one.len(),
{
    if one.len() > 0 {
        assert forall|i: int| 0 <= i < one.len() - 1 implies filter_kind(
            one.drop_last()[i].0,
            one.drop_last()[i].1,
        ) == filter_kind(other.drop_last()[i].0, other.drop_last()[i].1) by {
            assert(filter_kind(one[i].0, one[i].1) == filter_kind(other[i].0, other[i].1));
        }
        lemma_same_clauses(one.drop_last(), other.drop_last());
        let k = one.len() - 1;
        assert(filter_kind(one[k].0, one[k].1) == filter_kind(other[k].0, other[k].1));
    }
}

/// A search term reaches the store whole and only as a bound value: the
/// three values of a search filter are the term between two wildcards.
pub proof fn law_search_term_is_bound(key: Seq<char>, term: Seq<char>)
    requires
        key == SEARCH_KEY@,
        term.len() > 0,
    ensures
        clause_of(filter_kind(key, term)) == SEARCH_CLAUSE@,
        bound_values(key, term) == seq![
            SqlValueView::Text(search_pattern(term)),
            SqlValueView::Text(search_pattern(term)),
            SqlValueView::Text(search_pattern(term)),
        ],
        search_pattern(term).subrange(1, term.len() as int + 1) == term,
{
    reveal_strlit("q");
    reveal_strlit("categoryId");
    reveal_strlit("category_id");
    reveal_strlit("%");
    assert(key.len() == 1);
    assert(search_pattern(term).subrange(1, term.len() as int + 1) =~= term);
}

} // verus!
