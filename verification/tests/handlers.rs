use storefront::amount::{Decimal, QuantityKind};
use storefront::checkout::{CartItem, LineOutcome, LineResult, Operation, OrderPayload};
use storefront::assets::Upload;
use storefront::deletion::IdField;
use storefront::flow::{Action, Outcome, Phase};
use storefront::handlers::categories::{
    create_category, create_category_reply, get_category, get_category_reply, list_categories,
    list_categories_reply, update_category, update_category_reply, CategoryForm,
};
use storefront::handlers::orders::{
    create_order, create_order_reply, list_orders, list_orders_reply,
};
use storefront::handlers::products::{
    create_product, create_product_reply, get_cart_items, get_product, get_product_reply,
    list_products_reply, update_product, update_product_reply, CartLookup, ProductForm,
};
use storefront::handlers::promo::{
    check_promo, check_promo_reply, create_promo, create_promo_reply, delete_promo,
    delete_promo_reply, list_promos, list_promos_reply, normalize_code,
};
use storefront::images::remaining_images;
use storefront::models::PromoCode;
use storefront::reply::{Answer, BodyKind, Fetch, Reply, Written};
use storefront::sql::{SqlValue, Statement};

fn text(s: &str) -> SqlValue {
    SqlValue::Text(s.to_string())
}

fn some(s: &str) -> Option<String> {
    Some(s.to_string())
}

fn number(thousandths: i64) -> SqlValue {
    SqlValue::Real(Decimal { thousandths })
}

fn text_reply(status: u16, body: &str) -> Reply {
    Reply { status, kind: BodyKind::Text, body: body.to_string() }
}

fn stored(name: &str) -> Upload {
    Upload { name: name.to_string(), stored: Written::Done }
}

fn failed(name: &str, cause: &str) -> Upload {
    Upload { name: name.to_string(), stored: Written::Failed(cause.to_string()) }
}

fn no_params(sql: &str) -> Statement {
    Statement { sql: sql.to_string(), params: vec![] }
}

#[test]
fn unreadable_body_is_refused_with_400() {
    assert_eq!(Reply::malformed(), text_reply(400, "Malformed payload"));
}

#[test]
fn plain_listings_bind_nothing() {
    assert_eq!(list_categories(), no_params("SELECT * FROM categories"));
    assert_eq!(list_orders(), no_params("SELECT * FROM orders ORDER BY created_at DESC"));
    assert_eq!(list_promos(), no_params("SELECT * FROM promocodes ORDER BY id DESC"));
}

#[test]
fn lookups_bind_the_path_identifier() {
    let statement = get_category("12");
    assert_eq!(statement.sql, "SELECT * FROM categories WHERE id = ?");
    assert_eq!(statement.params, vec![text("12")]);

    let statement = get_product("1 OR 1=1");
    assert_eq!(statement.sql, "SELECT * FROM products WHERE id = ?");
    assert_eq!(statement.params, vec![text("1 OR 1=1")]);

    let statement = delete_promo("5");
    assert_eq!(statement.sql, "DELETE FROM promocodes WHERE id = ?");
    assert_eq!(statement.params, vec![text("5")]);
}

#[test]
fn lookup_answers_tell_found_missing_and_failed_apart() {
    assert_eq!(get_category_reply(&Fetch::Found), Answer::Rows);
    assert_eq!(
        get_category_reply(&Fetch::Absent),
        Answer::Reply(text_reply(404, "Категория не найдена"))
    );
    assert_eq!(
        get_category_reply(&Fetch::Failed("no such table".to_string())),
        Answer::Reply(text_reply(500, "D1 Error: no such table"))
    );

    assert_eq!(get_product_reply(&Fetch::Found), Answer::Rows);
    assert_eq!(
        get_product_reply(&Fetch::Absent),
        Answer::Reply(text_reply(404, "Товар не найден"))
    );
    assert_eq!(
        get_product_reply(&Fetch::Failed("timeout".to_string())),
        Answer::Reply(text_reply(500, "Ошибка базы данных: timeout"))
    );

    assert_eq!(check_promo_reply(&Fetch::Found), Answer::Rows);
    assert_eq!(
        check_promo_reply(&Fetch::Absent),
        Answer::Reply(text_reply(404, "Промокод не найден"))
    );
    assert_eq!(
        check_promo_reply(&Fetch::Failed("x".to_string())),
        Answer::Reply(text_reply(500, "D1 Error: x"))
    );
}

fn category_form() -> CategoryForm {
    CategoryForm {
        name: some("  Fruit & Veg "),
        name_kk: some("\tЖемістер\n"),
        slug: some(" Fresh-FRUIT "),
        parent_id: some("4"),
        current_image: some("https://img.tabys-go.ru/cat-old.jpg"),
    }
}

#[test]
fn new_category_is_trimmed_and_its_slug_lowered() {
    let statement = create_category(&category_form(), &Some(stored("cat-1.jpg"))).unwrap();
    assert_eq!(
        statement.sql,
        "INSERT INTO categories (name, name_kk, slug, parent_id, image) VALUES (?, ?, ?, ?, ?)"
    );
    assert_eq!(
        statement.params,
        vec![
            text("Fruit & Veg"),
            text("Жемістер"),
            text("fresh-fruit"),
            SqlValue::Integer(4),
            text("https://img.tabys-go.ru/cat-1.jpg"),
        ]
    );
}

#[test]
fn new_category_without_upload_or_parent() {
    let form = CategoryForm {
        name: None,
        name_kk: None,
        slug: None,
        parent_id: None,
        current_image: some("ignored on creation"),
    };
    let statement = create_category(&form, &None).unwrap();
    assert_eq!(
        statement.params,
        vec![text(""), text(""), text(""), SqlValue::Null, text("")]
    );
    for parent in ["", "abc", "1.5", "99999999999"] {
        let form = CategoryForm { parent_id: some(parent), ..category_form() };
        assert_eq!(create_category(&form, &None).unwrap().params[3], SqlValue::Null);
    }
}

#[test]
fn category_creation_tells_a_taken_slug_from_other_failures() {
    assert_eq!(create_category_reply(&Written::Done), text_reply(200, "Category created"));
    assert_eq!(
        create_category_reply(&Written::Failed(
            "D1_ERROR: UNIQUE constraint failed: categories.slug".to_string()
        )),
        text_reply(400, "Slug уже существует")
    );
    assert_eq!(
        create_category_reply(&Written::Failed("disk I/O error".to_string())),
        text_reply(500, "D1 Error: disk I/O error")
    );
    assert_eq!(
        create_category_reply(&Written::Failed("unique constraint failed".to_string())),
        text_reply(500, "D1 Error: unique constraint failed")
    );
}

#[test]
fn edited_category_keeps_its_image_unless_a_new_one_came() {
    let statement = update_category("9", &category_form(), &None).unwrap();
    assert_eq!(
        statement.sql,
        "UPDATE categories SET name=?, name_kk=?, slug=?, parent_id=?, image=? WHERE id=?"
    );
    assert_eq!(
        statement.params,
        vec![
            text("Fruit & Veg"),
            text("Жемістер"),
            text("fresh-fruit"),
            SqlValue::Integer(4),
            text("https://img.tabys-go.ru/cat-old.jpg"),
            text("9"),
        ]
    );
    let statement =
        update_category("9", &category_form(), &Some(stored("cat-2.jpg"))).unwrap();
    assert_eq!(statement.params[4], text("https://img.tabys-go.ru/cat-2.jpg"));
    let form = CategoryForm { current_image: None, parent_id: some(""), ..category_form() };
    let statement = update_category("9", &form, &None).unwrap();
    assert_eq!(statement.params[3], SqlValue::Null);
    assert_eq!(statement.params[4], text(""));
}

#[test]
fn category_edit_tells_a_taken_slug_from_other_failures() {
    assert_eq!(update_category_reply(&Written::Done), text_reply(200, "Updated"));
    assert_eq!(
        update_category_reply(&Written::Failed(
            "D1_ERROR: UNIQUE constraint failed: categories.slug".to_string()
        )),
        text_reply(400, "Slug уже существует")
    );
    assert_eq!(
        update_category_reply(&Written::Failed("UNIQUE constraint failed".to_string())),
        text_reply(400, "Slug уже существует")
    );
    assert_eq!(
        update_category_reply(&Written::Failed("disk I/O error".to_string())),
        text_reply(500, "D1 Update Error: disk I/O error")
    );
}

#[test]
fn failed_listings_are_storage_failures() {
    assert_eq!(list_categories_reply(&None), Answer::Rows);
    assert_eq!(
        list_categories_reply(&some("no such table: categories")),
        Answer::Reply(text_reply(500, "D1 Error: no such table: categories"))
    );
    assert_eq!(list_products_reply(&None), Answer::Rows);
    assert_eq!(
        list_products_reply(&some("busy")),
        Answer::Reply(text_reply(500, "D1 Error: busy"))
    );
    assert_eq!(list_promos_reply(&None), Answer::Rows);
    assert_eq!(
        list_promos_reply(&some("busy")),
        Answer::Reply(text_reply(500, "D1 Error: busy"))
    );
    assert_eq!(list_orders_reply(&None), Answer::Rows);
    assert_eq!(
        list_orders_reply(&some("timeout")),
        Answer::Reply(text_reply(500, "D1 Error: timeout"))
    );
}

fn product_form() -> ProductForm {
    ProductForm {
        name: some("Milk"),
        name_kk: some("Сүт"),
        category_id: some("3"),
        price: Some(Decimal { thousandths: 450_000 }),
        old_price: Some(Decimal { thousandths: 500_000 }),
        unit: some("l"),
        stock_text: some("12"),
        stock: Some(Decimal { thousandths: 12_500 }),
        description: some("Fresh"),
        description_kk: some("undefined"),
    }
}

#[test]
fn new_product_binds_ten_values() {
    let uploads = vec![stored("prod-a.jpg"), stored("prod-\"b\".jpg")];
    let statement = create_product(&product_form(), &uploads).unwrap();
    assert_eq!(
        statement.sql,
        "INSERT INTO products (name, name_kk, category_id, price, old_price, unit, image, description, description_kk, stock) VALUES (?, ?, ?, ?, ?, ?, ?, ?, ?, ?)"
    );
    assert_eq!(
        statement.params,
        vec![
            text("Milk"),
            text("Сүт"),
            SqlValue::Integer(3),
            number(450_000),
            number(500_000),
            text("l"),
            text("[\"https://img.tabys-go.ru/prod-a.jpg\",\"https://img.tabys-go.ru/prod-\\\"b\\\".jpg\"]"),
            text("Fresh"),
            text("undefined"),
            SqlValue::Integer(12),
        ]
    );
}

#[test]
fn new_product_takes_a_whole_stock_or_none() {
    for (written, stored) in
        [("40", 40), ("-3", -3), ("2.5", 0), ("", 0), ("many", 0), ("2147483648", 0), ("007", 7)]
    {
        let form = ProductForm { stock_text: some(written), ..product_form() };
        assert_eq!(create_product(&form, &vec![]).unwrap().params[9], SqlValue::Integer(stored));
    }
    let form = ProductForm { stock_text: None, ..product_form() };
    assert_eq!(create_product(&form, &vec![]).unwrap().params[9], SqlValue::Integer(0));
}

#[test]
fn new_product_defaults() {
    let form = ProductForm {
        name: None,
        name_kk: None,
        category_id: some("soon"),
        price: None,
        old_price: None,
        unit: None,
        stock_text: None,
        stock: None,
        description: None,
        description_kk: None,
    };
    let statement = create_product(&form, &vec![]).unwrap();
    assert_eq!(
        statement.params,
        vec![
            text(""),
            text(""),
            SqlValue::Integer(0),
            number(0),
            SqlValue::Null,
            text(""),
            text("[]"),
            text(""),
            text(""),
            SqlValue::Integer(0),
        ]
    );
}

#[test]
fn edited_product_keeps_listed_images_and_adds_uploads() {
    let uploads = vec![stored("prod-new.jpg")];
    let statement = update_product(
        "17",
        &product_form(),
        &some("[\"https://img.tabys-go.ru/prod-old.jpg\"]"),
        &uploads,
    )
    .unwrap();
    assert_eq!(
        statement.sql,
        "UPDATE products SET name=?1, name_kk=?2, category_id=?3, price=?4, old_price=?5, unit=?6, image=?7, description=?8, description_kk=?9, stock=?10 WHERE id=?11"
    );
    assert_eq!(
        statement.params,
        vec![
            text("Milk"),
            text("Сүт"),
            SqlValue::Integer(3),
            number(450_000),
            number(500_000),
            text("l"),
            text("[\"https://img.tabys-go.ru/prod-old.jpg\",\"https://img.tabys-go.ru/prod-new.jpg\"]"),
            text("Fresh"),
            text(""),
            number(12_500),
            text("17"),
        ]
    );
}

#[test]
fn failed_upload_ends_the_request_and_writes_nothing() {
    let r2 = |cause: &str| text_reply(500, &format!("R2 Error: {}", cause));
    let uploads = vec![stored("prod-a.jpg"), failed("prod-b.jpg", "bucket gone")];
    assert_eq!(create_product(&product_form(), &uploads), Err(r2("bucket gone")));
    assert_eq!(update_product("17", &product_form(), &None, &uploads), Err(r2("bucket gone")));
    let uploads =
        vec![failed("prod-a.jpg", "first"), stored("prod-b.jpg"), failed("prod-c.jpg", "second")];
    assert_eq!(create_product(&product_form(), &uploads), Err(r2("first")));
    let upload = Some(failed("cat-1.jpg", "too large"));
    assert_eq!(create_category(&category_form(), &upload), Err(r2("too large")));
    assert_eq!(update_category("9", &category_form(), &upload), Err(r2("too large")));
}

#[test]
fn kept_images_are_read_from_the_form_field() {
    assert_eq!(remaining_images(&None), Vec::<String>::new());
    assert_eq!(remaining_images(&some("")), Vec::<String>::new());
    assert_eq!(remaining_images(&some("undefined")), Vec::<String>::new());
    assert_eq!(remaining_images(&some("not json")), Vec::<String>::new());
    assert_eq!(remaining_images(&some("{\"a\":1}")), Vec::<String>::new());
    assert_eq!(remaining_images(&some("[1,2]")), Vec::<String>::new());
    assert_eq!(remaining_images(&some("[]")), Vec::<String>::new());
    assert_eq!(
        remaining_images(&some("[\"a\", \"b\\u0041\"]")),
        vec!["a".to_string(), "bA".to_string()]
    );
}

#[test]
fn product_write_answers() {
    assert_eq!(create_product_reply(&Written::Done), text_reply(200, "Success"));
    assert_eq!(
        create_product_reply(&Written::Failed("UNIQUE constraint failed: products.id".to_string())),
        text_reply(400, "Already exists")
    );
    assert_eq!(
        update_product_reply(&Written::Failed("UNIQUE constraint failed: products.id".to_string())),
        text_reply(400, "Already exists")
    );
    assert_eq!(
        create_product_reply(&Written::Failed("full".to_string())),
        text_reply(500, "D1 Error: full")
    );
    assert_eq!(update_product_reply(&Written::Done), text_reply(200, "Updated"));
    assert_eq!(
        update_product_reply(&Written::Failed("full".to_string())),
        text_reply(500, "D1 Error: full")
    );
}

#[test]
fn cart_lookup_without_a_list_is_refused() {
    assert_eq!(get_cart_items(&None), CartLookup::Reply(text_reply(400, "No IDs")));
}

#[test]
fn cart_lookup_that_names_no_product_answers_at_once() {
    let empty = || Reply { status: 200, kind: BodyKind::Json, body: "[]".to_string() };
    assert_eq!(get_cart_items(&Some(vec![])), CartLookup::Reply(empty()));
    let unreadable = vec![IdField::Missing, IdField::Text("x".to_string())];
    assert_eq!(get_cart_items(&Some(unreadable)), CartLookup::Reply(empty()));
}

#[test]
fn cart_lookup_binds_one_placeholder_per_product() {
    let ids = Some(vec![IdField::Text("7".to_string())]);
    assert_eq!(
        get_cart_items(&ids),
        CartLookup::Query(Statement {
            sql: "SELECT * FROM products WHERE id IN (?)".to_string(),
            params: vec![SqlValue::Integer(7)],
        })
    );
    let ids = Some(vec![
        IdField::Text("7".to_string()),
        IdField::Missing,
        IdField::Number(9),
        IdField::Text("2147483648".to_string()),
        IdField::Number(4_294_967_298),
        IdField::Text("-1".to_string()),
        IdField::Number(2_147_483_647),
    ]);
    assert_eq!(
        get_cart_items(&ids),
        CartLookup::Query(Statement {
            sql: "SELECT * FROM products WHERE id IN (?,?,?,?)".to_string(),
            params: vec![
                SqlValue::Integer(7),
                SqlValue::Integer(9),
                SqlValue::Integer(-1),
                SqlValue::Integer(2_147_483_647),
            ],
        })
    );
}

#[test]
fn promo_codes_are_compared_trimmed_and_in_upper_case() {
    assert_eq!(normalize_code("  sale10\n"), "SALE10");
    assert_eq!(normalize_code("Жаз2024"), "ЖАЗ2024");
    assert_eq!(normalize_code(""), "");
    let statement = check_promo(&some(" spring "));
    assert_eq!(
        statement.sql,
        "SELECT * FROM promocodes WHERE UPPER(TRIM(code)) = ? AND is_active = 1 LIMIT 1"
    );
    assert_eq!(statement.params, vec![text("SPRING")]);
    assert_eq!(check_promo(&None).params, vec![text("")]);
}

#[test]
fn new_promo_code_is_stored_trimmed_and_in_upper_case() {
    let promo =
        PromoCode { id: None, code: " save10 ".to_string(), discount: 10, is_active: None };
    let statement = create_promo(&promo);
    assert_eq!(
        statement.sql,
        "INSERT INTO promocodes (code, discount, is_active) VALUES (?, ?, 1)"
    );
    assert_eq!(statement.params, vec![text("SAVE10"), SqlValue::Integer(10)]);
    assert_eq!(create_promo_reply(&Written::Done), text_reply(200, "Created"));
    assert_eq!(
        create_promo_reply(&Written::Failed(
            "D1_ERROR: UNIQUE constraint failed: promocodes.code".to_string()
        )),
        text_reply(400, "Already exists")
    );
    assert_eq!(
        create_promo_reply(&Written::Failed("disk I/O error".to_string())),
        text_reply(500, "D1 Error: disk I/O error")
    );
    assert_eq!(delete_promo_reply(&Written::Done), text_reply(200, "Deleted"));
    assert_eq!(
        delete_promo_reply(&Written::Failed("gone".to_string())),
        text_reply(500, "D1 Error: gone")
    );
}

fn checkout(items: Option<Vec<CartItem>>) -> OrderPayload {
    OrderPayload {
        name: some("Dana"),
        phone: None,
        address: None,
        comment: None,
        items,
        items_json: "[]".to_string(),
        total: None,
    }
}

#[test]
fn checkout_without_items_is_refused_with_400() {
    assert_eq!(
        create_order(&checkout(None), QuantityKind::Fractional),
        Err(text_reply(400, "No items"))
    );
    assert_eq!(
        create_order(&checkout(Some(vec![])), QuantityKind::Fractional),
        Err(text_reply(400, "Cart is empty"))
    );
    let nameless = vec![CartItem { id: None, quantity: Some(Decimal { thousandths: 1000 }) }];
    assert_eq!(
        create_order(&checkout(Some(nameless)), QuantityKind::Fractional),
        Err(text_reply(400, "Item without a product"))
    );
}

#[test]
fn checkout_with_items_submits_the_batch() {
    let items = || {
        vec![CartItem { id: some("7"), quantity: Some(Decimal { thousandths: 2500 }) }]
    };
    let (flow, action) = create_order(&checkout(Some(items())), QuantityKind::Fractional).unwrap();
    assert_eq!(flow.phase, Phase::Submitted);
    assert_eq!(
        action,
        Action::Submit(vec![
            Operation::InsertOrder {
                customer_name: "Dana".to_string(),
                customer_phone: String::new(),
                address: String::new(),
                comment: String::new(),
                items_json: "[]".to_string(),
                total: Decimal { thousandths: 0 },
            },
            Operation::Decrement {
                product_id: "7".to_string(),
                quantity: Decimal { thousandths: 2500 },
            },
            Operation::Probe { product_id: "7".to_string() },
        ])
    );
    let (_, action) = create_order(&checkout(Some(items())), QuantityKind::Whole).unwrap();
    match action {
        Action::Submit(ops) => assert_eq!(
            ops[1],
            Operation::Decrement { product_id: "7".to_string(), quantity: Decimal { thousandths: 0 } }
        ),
        other => panic!("expected a submit, got {:?}", other),
    }
}

#[test]
fn placement_answers() {
    assert_eq!(
        create_order_reply(&Outcome::Placed { order_id: 3 }),
        Reply { status: 200, kind: BodyKind::Json, body: "{\"success\":true}".to_string() }
    );
    let lines = vec![LineResult {
        product_id: "7".to_string(),
        requested: Decimal { thousandths: 10_000 },
        outcome: LineOutcome::InsufficientStock,
    }];
    assert_eq!(
        create_order_reply(&Outcome::Rejected(lines)),
        Reply { status: 400, kind: BodyKind::Json, body: "{\"success\":false}".to_string() }
    );
    assert_eq!(
        create_order_reply(&Outcome::StorageFailure("connection lost".to_string())),
        text_reply(500, "D1 Error: connection lost")
    );
    assert_eq!(
        create_order_reply(&Outcome::Unreverted {
            order_id: 3,
            lines: vec![],
            cause: "busy".to_string(),
        }),
        text_reply(500, "D1 Error: busy")
    );
}
