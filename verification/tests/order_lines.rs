use store_requests::controllers::orders::OrderLineItemCreate;
use store_requests::controllers::orders::ShippingLineCreate;
use store_requests::models::MetaData;

#[test]
fn line_item_needs_only_product_and_quantity() {
    let item = OrderLineItemCreate::new(10, 3);
    assert_eq!(item.product_id, 10);
    assert_eq!(item.quantity, 3);
    assert_eq!(item.variation_id, None);
    assert_eq!(item.tax_class, None);
    assert_eq!(item.subtotal, None);
    assert_eq!(item.total, None);
    assert_eq!(item.meta_data, None);
    assert_eq!(item.price, None);
}

#[test]
fn line_item_default_is_product_zero() {
    assert_eq!(OrderLineItemCreate::default(), OrderLineItemCreate::new(0, 0));
}

#[test]
fn line_item_setters_fill_their_fields() {
    let item = OrderLineItemCreate::new(10, 3)
        .variation_id(4)
        .tax_class("reduced")
        .subtotal("30.00")
        .total("27.00")
        .price("10.00")
        .meta_data("size", serde_json::Value::from(42))
        .meta_data("color", serde_json::Value::from("blue"));
    assert_eq!(item.product_id, 10);
    assert_eq!(item.quantity, 3);
    assert_eq!(item.variation_id, Some(4));
    assert_eq!(item.tax_class.as_deref(), Some("reduced"));
    assert_eq!(item.subtotal.as_deref(), Some("30.00"));
    assert_eq!(item.total.as_deref(), Some("27.00"));
    assert_eq!(item.price.as_deref(), Some("10.00"));
    assert_eq!(
        item.meta_data,
        Some(vec![
            MetaData { id: None, key: "size".to_string(), value: serde_json::Value::from(42) },
            MetaData { id: None, key: "color".to_string(), value: serde_json::Value::from("blue") },
        ])
    );
}

#[test]
fn line_item_setter_keeps_the_last_value() {
    let item = OrderLineItemCreate::new(1, 1).total("1").total("2").variation_id(3).variation_id(4);
    assert_eq!(item.total.as_deref(), Some("2"));
    assert_eq!(item.variation_id, Some(4));
}

#[test]
fn line_item_clone_is_equal() {
    let item = OrderLineItemCreate::new(1, 1).meta_data("k", serde_json::Value::Null).price("5");
    assert_eq!(item.clone(), item);
}

#[test]
fn shipping_line_takes_its_three_parts_together() {
    let line = ShippingLineCreate::new("Flat rate", "flat_rate", "10.00");
    assert_eq!(line.method_title, "Flat rate");
    assert_eq!(line.method_id, "flat_rate");
    assert_eq!(line.total, "10.00");
    assert_eq!(line.meta_data, None);
}

#[test]
fn shipping_line_total_is_replaced() {
    let line = ShippingLineCreate::new("Flat rate", "flat_rate", "10.00").total("12.00");
    assert_eq!(line.total, "12.00");
    assert_eq!(line.method_title, "Flat rate");
    assert_eq!(line.method_id, "flat_rate");
}

#[test]
fn shipping_line_meta_data_accumulates() {
    let line = ShippingLineCreate::new("a", "b", "c")
        .meta_data("one", serde_json::Value::from(1))
        .meta_data("two", serde_json::Value::from(2));
    let meta = line.meta_data.clone().unwrap();
    assert_eq!(meta.len(), 2);
    assert_eq!(meta[0].key, "one");
    assert_eq!(meta[0].id, None);
    assert_eq!(meta[1].value, serde_json::Value::from(2));
    assert_eq!(line.clone(), line);
}

#[test]
fn shipping_line_default_is_empty() {
    assert_eq!(ShippingLineCreate::default(), ShippingLineCreate::new("", "", ""));
}

#[test]
fn unsaved_meta_data_has_no_id() {
    let entry = MetaData::unsaved("k", serde_json::Value::from("v"));
    assert_eq!(entry.id, None);
    assert_eq!(entry.key, "k");
    assert_eq!(entry.value, serde_json::Value::String("v".to_string()));
    assert_eq!(entry.clone(), entry);
}
