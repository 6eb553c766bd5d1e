use storefront::assets::{asset_key, asset_name, asset_url, fresh_asset_name};

#[test]
fn asset_name_joins_prefix_token_and_suffix() {
    assert_eq!(asset_name("prod", "0123"), "prod-0123.jpg");
    assert_eq!(asset_name("cat", ""), "cat-.jpg");
    assert_eq!(asset_name("", "t"), "-t.jpg");
}

#[test]
fn asset_url_puts_the_name_after_the_public_base() {
    assert_eq!(asset_url("prod-0123.jpg"), "https://img.tabys-go.ru/prod-0123.jpg");
    assert_eq!(asset_url(""), "https://img.tabys-go.ru/");
}

#[test]
fn address_leads_back_to_the_name() {
    for name in ["prod-0123.jpg", "cat-abc.jpg", "x", ""] {
        assert_eq!(asset_key(&asset_url(name)), Some(name.to_string()));
    }
}

#[test]
fn fresh_name_has_the_shape_of_a_token_between_prefix_and_suffix() {
    let name = fresh_asset_name("prod");
    assert_eq!(name.chars().count(), 4 + 1 + 36 + 4);
    assert!(name.starts_with("prod-"));
    assert!(name.ends_with(".jpg"));
    let token: Vec<char> = name.chars().skip(5).take(36).collect();
    for (i, c) in token.iter().enumerate() {
        if i == 8 || i == 13 || i == 18 || i == 23 {
            assert_eq!(*c, '-');
        } else {
            assert!(c.is_ascii_digit() || ('a'..='f').contains(c), "character {:?}", c);
        }
    }
    assert_eq!(asset_key(&asset_url(&name)), Some(name));
}

#[test]
fn fresh_names_differ() {
    let one = fresh_asset_name("cat");
    let other = fresh_asset_name("cat");
    assert_ne!(one, other);
    assert!(one.starts_with("cat-"));
}
