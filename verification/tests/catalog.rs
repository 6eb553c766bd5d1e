use storefront::amount::Decimal;
use storefront::catalog::{build_listing_query, visibility_of, Visibility};
use storefront::handlers::products::list_products;
use storefront::ledger::{Ledger, StockRow};
use storefront::sql::SqlValue;

fn pairs(list: &[(&str, &str)]) -> Vec<(String, String)> {
    list.iter().map(|(k, v)| (k.to_string(), v.to_string())).collect()
}

fn text(s: &str) -> SqlValue {
    SqlValue::Text(s.to_string())
}

fn placeholders(sql: &str) -> usize {
    sql.chars().filter(|c| *c == '?').count()
}

#[test]
fn customer_listing_asks_for_stock() {
    let statement = build_listing_query(Visibility::Customer, &vec![]);
    assert_eq!(
        statement.sql,
        "SELECT * FROM products WHERE stock > 0 ORDER BY id DESC LIMIT 100"
    );
    assert!(statement.params.is_empty());
}

#[test]
fn admin_listing_asks_for_everything() {
    let statement = build_listing_query(Visibility::Admin, &vec![]);
    assert_eq!(statement.sql, "SELECT * FROM products WHERE 1=1 ORDER BY id DESC LIMIT 100");
    assert!(statement.params.is_empty());
}

#[test]
fn category_filter_binds_the_identifier() {
    let statement = build_listing_query(Visibility::Customer, &pairs(&[("categoryId", "12")]));
    assert_eq!(
        statement.sql,
        "SELECT * FROM products WHERE stock > 0 AND category_id = ? ORDER BY id DESC LIMIT 100"
    );
    assert_eq!(statement.params, vec![SqlValue::Integer(12)]);

    let statement = build_listing_query(Visibility::Admin, &pairs(&[("category_id", "-3")]));
    assert_eq!(
        statement.sql,
        "SELECT * FROM products WHERE 1=1 AND category_id = ? ORDER BY id DESC LIMIT 100"
    );
    assert_eq!(statement.params, vec![SqlValue::Integer(-3)]);
}

#[test]
fn category_that_is_no_integer_is_ignored() {
    for value in ["", "abc", "1.5", "12 ", "2147483648", "0x10"] {
        let statement = build_listing_query(Visibility::Customer, &pairs(&[("categoryId", value)]));
        assert_eq!(
            statement.sql,
            "SELECT * FROM products WHERE stock > 0 ORDER BY id DESC LIMIT 100"
        );
        assert!(statement.params.is_empty());
    }
}

#[test]
fn search_filter_binds_the_term_three_times() {
    let statement = build_listing_query(Visibility::Customer, &pairs(&[("q", "milk")]));
    assert_eq!(
        statement.sql,
        "SELECT * FROM products WHERE stock > 0 AND (name LIKE ? OR name_kk LIKE ? OR description LIKE ?) ORDER BY id DESC LIMIT 100"
    );
    assert_eq!(statement.params, vec![text("%milk%"), text("%milk%"), text("%milk%")]);
}

#[test]
fn empty_search_term_is_ignored() {
    let statement = build_listing_query(Visibility::Customer, &pairs(&[("q", "")]));
    assert_eq!(
        statement.sql,
        "SELECT * FROM products WHERE stock > 0 ORDER BY id DESC LIMIT 100"
    );
    assert!(statement.params.is_empty());
}

#[test]
fn unknown_keys_are_ignored() {
    let statement = build_listing_query(
        Visibility::Customer,
        &pairs(&[("sort", "price"), ("Q", "milk"), ("categoryid", "4"), ("admin", "false")]),
    );
    assert_eq!(
        statement.sql,
        "SELECT * FROM products WHERE stock > 0 ORDER BY id DESC LIMIT 100"
    );
    assert!(statement.params.is_empty());
}

#[test]
fn filters_are_appended_in_request_order() {
    let statement = build_listing_query(
        Visibility::Admin,
        &pairs(&[("q", "tea"), ("categoryId", "5"), ("page", "2"), ("category_id", "6")]),
    );
    assert_eq!(
        statement.sql,
        "SELECT * FROM products WHERE 1=1 AND (name LIKE ? OR name_kk LIKE ? OR description LIKE ?) AND category_id = ? AND category_id = ? ORDER BY id DESC LIMIT 100"
    );
    assert_eq!(
        statement.params,
        vec![
            text("%tea%"),
            text("%tea%"),
            text("%tea%"),
            SqlValue::Integer(5),
            SqlValue::Integer(6),
        ]
    );
}

#[test]
fn hostile_search_terms_stay_out_of_the_text() {
    let plain = build_listing_query(Visibility::Customer, &pairs(&[("q", "tea")]));
    for term in ["%", "'", ";", "x'; DROP TABLE products; --", "100%_off", "\"a\" OR 1=1", "?"] {
        let statement = build_listing_query(Visibility::Customer, &pairs(&[("q", term)]));
        assert_eq!(statement.sql, plain.sql);
        assert_eq!(placeholders(&statement.sql), statement.params.len());
        assert!(!statement.sql.contains('\''));
        assert!(!statement.sql.contains(';'));
        let pattern = format!("%{}%", term);
        assert_eq!(statement.params, vec![text(&pattern), text(&pattern), text(&pattern)]);
    }
}

#[test]
fn placeholders_match_bound_values() {
    let requests = [
        pairs(&[]),
        pairs(&[("q", "a")]),
        pairs(&[("categoryId", "1"), ("q", "b"), ("q", "c")]),
        pairs(&[("categoryId", "x"), ("q", ""), ("category_id", "9")]),
    ];
    for request in requests.iter() {
        for mode in [Visibility::Admin, Visibility::Customer] {
            let statement = build_listing_query(mode, request);
            assert_eq!(placeholders(&statement.sql), statement.params.len());
        }
    }
}

#[test]
fn admin_flag_switches_the_mode() {
    assert_eq!(visibility_of(&pairs(&[])), Visibility::Customer);
    assert_eq!(visibility_of(&pairs(&[("admin", "true")])), Visibility::Admin);
    assert_eq!(visibility_of(&pairs(&[("q", "x"), ("admin", "true")])), Visibility::Admin);
    assert_eq!(visibility_of(&pairs(&[("admin", "TRUE")])), Visibility::Customer);
    assert_eq!(visibility_of(&pairs(&[("admin", "1")])), Visibility::Customer);
    assert_eq!(visibility_of(&pairs(&[("Admin", "true")])), Visibility::Customer);
    assert_eq!(visibility_of(&pairs(&[("true", "admin")])), Visibility::Customer);
    assert_eq!(
        visibility_of(&pairs(&[("admin", "false"), ("admin", "true")])),
        Visibility::Admin
    );
}

#[test]
fn listing_request_reads_mode_and_filters_from_the_pairs() {
    let statement = list_products(&pairs(&[("admin", "true"), ("q", "tea")]));
    assert_eq!(
        statement.sql,
        "SELECT * FROM products WHERE 1=1 AND (name LIKE ? OR name_kk LIKE ? OR description LIKE ?) ORDER BY id DESC LIMIT 100"
    );
    assert_eq!(statement.params, vec![text("%tea%"), text("%tea%"), text("%tea%")]);

    let statement = list_products(&pairs(&[("categoryId", "2")]));
    assert_eq!(
        statement.sql,
        "SELECT * FROM products WHERE stock > 0 AND category_id = ? ORDER BY id DESC LIMIT 100"
    );
    assert_eq!(statement.params, vec![SqlValue::Integer(2)]);
}

fn stocked() -> Ledger {
    let mut ledger = Ledger::new();
    assert!(ledger.add_product("1", Decimal { thousandths: 3000 }));
    assert!(ledger.add_product("2", Decimal { thousandths: 0 }));
    assert!(ledger.add_product("3", Decimal { thousandths: 1 }));
    ledger
}

fn row(id: &str, thousandths: i64) -> StockRow {
    StockRow { id: id.to_string(), stock: Decimal { thousandths } }
}

#[test]
fn customer_never_sees_a_product_out_of_stock() {
    let ledger = stocked();
    assert_eq!(ledger.listing(Visibility::Customer), vec![row("1", 3000), row("3", 1)]);
}

#[test]
fn admin_sees_products_whatever_their_stock() {
    let ledger = stocked();
    assert_eq!(
        ledger.listing(Visibility::Admin),
        vec![row("1", 3000), row("2", 0), row("3", 1)]
    );
}
