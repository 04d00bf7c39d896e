use store_requests::controllers::product_categories::CategoryCreateBuilder;
use store_requests::controllers::product_categories::CategoryUpdateBuilder;
use store_requests::models::product_categories::Category;
use store_requests::models::product_categories::DisplayOption;
use store_requests::models::products::ProductImage;

#[test]
fn minimal_category_has_no_optional_fields() {
    let category = Category::create().name("Shoes").build();
    assert_eq!(category.name, "Shoes");
    assert_eq!(category.slug, None);
    assert_eq!(category.parent, None);
    assert_eq!(category.description, None);
    assert_eq!(category.display, None);
    assert_eq!(category.image, None);
    assert_eq!(category.menu_order, None);
}

#[test]
fn category_create_carries_what_was_set() {
    let category = CategoryCreateBuilder::new()
        .slug("shoes")
        .parent(2)
        .description("<p>All shoes</p>")
        .display(DisplayOption::Both)
        .image("https://example.com/shoe.png")
        .menu_order(5)
        .name("Boots")
        .name("Shoes")
        .build();
    assert_eq!(category.name, "Shoes");
    assert_eq!(category.slug.as_deref(), Some("shoes"));
    assert_eq!(category.parent, Some(2));
    assert_eq!(category.description.as_deref(), Some("<p>All shoes</p>"));
    assert_eq!(category.display, Some(DisplayOption::Both));
    assert_eq!(
        category.image,
        Some(ProductImage {
            id: 0,
            src: "https://example.com/shoe.png".to_string(),
            name: "".to_string(),
            alt: "".to_string(),
        })
    );
    assert_eq!(category.menu_order, Some(5));
    assert_eq!(category.clone(), category);
}

#[test]
fn category_update_with_nothing_set_is_empty() {
    let update = Category::update().build();
    assert_eq!(update.id, None);
    assert_eq!(update.name, None);
    assert_eq!(update.slug, None);
    assert_eq!(update.parent, None);
    assert_eq!(update.description, None);
    assert_eq!(update.display, None);
    assert_eq!(update.image, None);
    assert_eq!(update.menu_order, None);
    assert_eq!(CategoryUpdateBuilder::default().build(), update);
    assert_eq!(CategoryUpdateBuilder::new().build(), update);
}

#[test]
fn category_update_carries_what_was_set() {
    let update = Category::update()
        .id(7)
        .name("Shoes")
        .slug("shoes")
        .parent(2)
        .description("d")
        .display(DisplayOption::Products)
        .image("https://example.com/shoe.png")
        .menu_order(1)
        .menu_order(3)
        .build();
    assert_eq!(update.id, Some(7));
    assert_eq!(update.name.as_deref(), Some("Shoes"));
    assert_eq!(update.slug.as_deref(), Some("shoes"));
    assert_eq!(update.parent, Some(2));
    assert_eq!(update.description.as_deref(), Some("d"));
    assert_eq!(update.display, Some(DisplayOption::Products));
    assert_eq!(update.image, Some(ProductImage::from_src("https://example.com/shoe.png")));
    assert_eq!(update.menu_order, Some(3));
    assert_eq!(update.clone(), update);
}

#[test]
fn default_category_builder_is_untouched() {
    let category = CategoryCreateBuilder::default().name("n").build();
    assert_eq!(category, Category::create().name("n").build());
}
