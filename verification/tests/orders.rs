use store_requests::controllers::orders::CreateOrderBuilder;
use store_requests::controllers::orders::OrderCouponLineCreate;
use store_requests::controllers::orders::OrderFeeLineCreate;
use store_requests::controllers::orders::OrderLineItemCreate;
use store_requests::controllers::orders::ShippingLineCreate;
use store_requests::controllers::orders::UpdateOrderBuilder;
use store_requests::error::BuildError;
use store_requests::error::BILLING_EMAIL;
use store_requests::models::customers::Billing;
use store_requests::models::customers::Shipping;
use store_requests::models::data::CurrencyISO;
use store_requests::models::orders::OrderStatus;
use store_requests::models::orders::TaxStatus;
use store_requests::models::MetaData;

fn text(value: &str) -> serde_json::Value {
    serde_json::Value::String(value.to_string())
}

#[test]
fn create_order() {
    let order_to_create = CreateOrderBuilder::new()
        .status(OrderStatus::Pending)
        .billing_email("president@google.com")
        .billing_last_name("Connor")
        .currency(CurrencyISO::RUB)
        .set_paid(false)
        .build()
        .unwrap();
    assert_eq!(order_to_create.status(), OrderStatus::Pending);
    assert_eq!(order_to_create.billing().email, "president@google.com");
    assert_eq!(order_to_create.billing().last_name, "Connor");
    assert_eq!(order_to_create.currency(), CurrencyISO::RUB);
    assert!(!order_to_create.set_paid());
}

#[test]
fn update_order() {
    let customer_note = "Testing update";
    let update = UpdateOrderBuilder::new().customer_note(customer_note).build();
    assert_eq!(update.customer_note.as_deref(), Some(customer_note));
    assert_eq!(update.id, None);
    assert_eq!(update.status, None);
    assert_eq!(update.billing, None);
    assert_eq!(update.line_items, None);
}

#[test]
fn end_to_end_order_with_email_and_last_name() {
    let order = CreateOrderBuilder::new()
        .billing_email("a@b.com")
        .billing_last_name("Connor")
        .status(OrderStatus::Pending)
        .currency(CurrencyISO::RUB)
        .set_paid(false)
        .build()
        .unwrap();
    assert_eq!(order.billing().email, "a@b.com");
    assert_eq!(order.status(), OrderStatus::Pending);
    assert!(!order.set_paid());
    assert!(order.line_items().is_empty());
    assert!(order.shipping_lines().is_empty());
    assert!(order.fee_lines().is_empty());
    assert!(order.coupon_lines().is_empty());
    assert!(order.meta_data().is_empty());
}

#[test]
fn build_without_billing_email_names_the_field() {
    let result = CreateOrderBuilder::new().status(OrderStatus::Pending).build();
    assert_eq!(result.unwrap_err(), BuildError::MissingRequiredField("billing.email"));
}

#[test]
fn build_on_untouched_builder_fails() {
    let result = CreateOrderBuilder::new().build();
    assert_eq!(result, Err(BuildError::MissingRequiredField(BILLING_EMAIL)));
    let result = CreateOrderBuilder::default().build();
    assert!(result.is_err());
}

#[test]
fn build_with_billing_but_no_email_fails() {
    let result = CreateOrderBuilder::new().billing_city("Kyiv").billing_phone("123").build();
    assert_eq!(result.unwrap_err().field_name(), "billing.email");
}

#[test]
fn build_with_empty_billing_email_fails() {
    let result = CreateOrderBuilder::new().billing_email("").build();
    assert_eq!(result.unwrap_err(), BuildError::MissingRequiredField("billing.email"));
}

#[test]
fn shipping_leaves_do_not_stand_in_for_billing_email() {
    let result = CreateOrderBuilder::new().shipping_city("Kyiv").customer_id(4).build();
    assert!(result.is_err());
}

#[test]
fn minimal_order_has_defaults_and_no_optional_fields() {
    let order = CreateOrderBuilder::new().billing_email("a@b.com").build().unwrap();
    assert_eq!(order.parent_id(), None);
    assert_eq!(order.customer_note(), None);
    assert_eq!(order.transaction_id(), None);
    assert_eq!(order.status(), OrderStatus::Pending);
    assert_eq!(order.currency(), CurrencyISO::USD);
    assert_eq!(order.customer_id(), 0);
    assert_eq!(order.payment_method(), "");
    assert_eq!(order.payment_method_title(), "");
    assert!(!order.set_paid());
    assert_eq!(*order.shipping(), Shipping::default());
    let mut billing = Billing::default();
    billing.email = "a@b.com".to_string();
    assert_eq!(*order.billing(), billing);
    assert!(order.meta_data().is_empty());
    assert!(order.line_items().is_empty());
    assert!(order.shipping_lines().is_empty());
    assert!(order.fee_lines().is_empty());
    assert!(order.coupon_lines().is_empty());
}

#[test]
fn every_scalar_reaches_the_order() {
    let order = CreateOrderBuilder::new()
        .parent_id(11)
        .status(OrderStatus::OnHold)
        .currency(CurrencyISO::EUR)
        .customer_id(42)
        .customer_note("leave at the door")
        .billing_email("a@b.com")
        .payment_method("bacs")
        .payment_method_title("Direct Bank Transfer")
        .transaction_id("tx-1")
        .set_paid(true)
        .build()
        .unwrap();
    assert_eq!(order.parent_id(), Some(11));
    assert_eq!(order.status(), OrderStatus::OnHold);
    assert_eq!(order.currency(), CurrencyISO::EUR);
    assert_eq!(order.customer_id(), 42);
    assert_eq!(order.customer_note().map(|s| s.as_str()), Some("leave at the door"));
    assert_eq!(order.payment_method(), "bacs");
    assert_eq!(order.payment_method_title(), "Direct Bank Transfer");
    assert_eq!(order.transaction_id().map(|s| s.as_str()), Some("tx-1"));
    assert!(order.set_paid());
}

#[test]
fn scalar_keeps_the_last_value() {
    let order = CreateOrderBuilder::new()
        .billing_email("first@b.com")
        .customer_id(1)
        .customer_id(2)
        .status(OrderStatus::Failed)
        .status(OrderStatus::Completed)
        .billing_email("last@b.com")
        .build()
        .unwrap();
    assert_eq!(order.customer_id(), 2);
    assert_eq!(order.status(), OrderStatus::Completed);
    assert_eq!(order.billing().email, "last@b.com");
}

#[test]
fn billing_city_then_state_fills_exactly_two_leaves() {
    let mut expected = Billing::default();
    expected.city = "Odesa".to_string();
    expected.state = "OD".to_string();

    let city_first =
        UpdateOrderBuilder::new().billing_city("Odesa").billing_state("OD").build();
    let state_first =
        UpdateOrderBuilder::new().billing_state("OD").billing_city("Odesa").build();
    assert_eq!(city_first.billing, Some(expected));
    assert_eq!(city_first, state_first);
}

#[test]
fn billing_leaves_commute_on_create_builder() {
    let one = CreateOrderBuilder::new()
        .billing_email("a@b.com")
        .billing_city("Odesa")
        .billing_state("OD")
        .build()
        .unwrap();
    let other = CreateOrderBuilder::new()
        .billing_state("OD")
        .billing_city("Odesa")
        .billing_email("a@b.com")
        .build()
        .unwrap();
    assert_eq!(one, other);
    assert_eq!(one.billing().city, "Odesa");
    assert_eq!(one.billing().state, "OD");
    assert_eq!(one.billing().first_name, "");
    assert_eq!(one.billing().phone, "");
}

#[test]
fn every_billing_leaf_lands_in_its_own_place() {
    let order = CreateOrderBuilder::new()
        .billing_first_name("Sarah")
        .billing_last_name("Connor")
        .billing_company("Cyberdyne")
        .billing_address_1("1 Main St")
        .billing_address_2("Apt 2")
        .billing_city("Los Angeles")
        .billing_state("CA")
        .billing_postcode("90001")
        .billing_country("US")
        .billing_email("sarah@b.com")
        .billing_phone("555")
        .build()
        .unwrap();
    let expected = Billing {
        first_name: "Sarah".to_string(),
        last_name: "Connor".to_string(),
        company: "Cyberdyne".to_string(),
        address_1: "1 Main St".to_string(),
        address_2: "Apt 2".to_string(),
        city: "Los Angeles".to_string(),
        state: "CA".to_string(),
        postcode: "90001".to_string(),
        country: "US".to_string(),
        email: "sarah@b.com".to_string(),
        phone: "555".to_string(),
    };
    assert_eq!(*order.billing(), expected);
}

#[test]
fn every_shipping_leaf_lands_in_its_own_place() {
    let order = CreateOrderBuilder::new()
        .billing_email("a@b.com")
        .shipping_first_name("Sarah")
        .shipping_last_name("Connor")
        .shipping_company("Cyberdyne")
        .shipping_address_1("1 Main St")
        .shipping_address_2("Apt 2")
        .shipping_city("Los Angeles")
        .shipping_state("CA")
        .shipping_postcode("90001")
        .shipping_country("US")
        .build()
        .unwrap();
    let expected = Shipping {
        first_name: "Sarah".to_string(),
        last_name: "Connor".to_string(),
        company: "Cyberdyne".to_string(),
        address_1: "1 Main St".to_string(),
        address_2: "Apt 2".to_string(),
        city: "Los Angeles".to_string(),
        state: "CA".to_string(),
        postcode: "90001".to_string(),
        country: "US".to_string(),
    };
    assert_eq!(*order.shipping(), expected);
}

#[test]
fn setting_a_leaf_does_not_reset_its_siblings() {
    let update = UpdateOrderBuilder::new()
        .shipping_city("Lviv")
        .shipping_postcode("79000")
        .shipping_city("Kyiv")
        .build();
    let shipping = update.shipping.unwrap();
    assert_eq!(shipping.city, "Kyiv");
    assert_eq!(shipping.postcode, "79000");
    assert_eq!(shipping.country, "");
}

#[test]
fn line_items_keep_insertion_order() {
    let a = OrderLineItemCreate::new(1, 10);
    let b = OrderLineItemCreate::new(2, 20).variation_id(7);
    let c = OrderLineItemCreate::new(3, 30).price("9.99");
    let order = CreateOrderBuilder::new()
        .billing_email("a@b.com")
        .line_item(a.clone())
        .line_item(b.clone())
        .line_item(c.clone())
        .build()
        .unwrap();
    assert_eq!(*order.line_items(), vec![a, b, c]);
}

#[test]
fn equal_line_items_are_not_merged() {
    let order = CreateOrderBuilder::new()
        .billing_email("a@b.com")
        .add_simple_product(5, 1)
        .add_simple_product(5, 1)
        .build()
        .unwrap();
    assert_eq!(order.line_items().len(), 2);
    assert_eq!(order.line_items()[0], order.line_items()[1]);
}

#[test]
fn product_helpers_build_the_line() {
    let update = UpdateOrderBuilder::new()
        .add_simple_product(5, 2)
        .add_variable_product(6, 60, 3)
        .build();
    let items = update.line_items.unwrap();
    assert_eq!(items.len(), 2);
    assert_eq!(items[0], OrderLineItemCreate::new(5, 2));
    assert_eq!(items[0].variation_id, None);
    assert_eq!(items[1].product_id, 6);
    assert_eq!(items[1].variation_id, Some(60));
    assert_eq!(items[1].quantity, 3);
}

#[test]
fn every_list_accumulates_in_order() {
    let order = CreateOrderBuilder::new()
        .billing_email("a@b.com")
        .meta_data("gift", serde_json::Value::Bool(true))
        .meta_data("wrap", text("red"))
        .shipping_line("Flat rate", "flat_rate", "10.00")
        .shipping_line("Pickup", "local_pickup", "0.00")
        .fee_line("Handling", "standard", TaxStatus::Taxable, "2.50")
        .fee_line("Donation", "", TaxStatus::NotTaxable, "1.00")
        .coupon_line("SPRING")
        .coupon_line("VIP")
        .build()
        .unwrap();
    assert_eq!(
        *order.meta_data(),
        vec![
            MetaData { id: None, key: "gift".to_string(), value: serde_json::Value::Bool(true) },
            MetaData { id: None, key: "wrap".to_string(), value: text("red") },
        ]
    );
    assert_eq!(
        *order.shipping_lines(),
        vec![
            ShippingLineCreate::new("Flat rate", "flat_rate", "10.00"),
            ShippingLineCreate::new("Pickup", "local_pickup", "0.00"),
        ]
    );
    assert_eq!(
        *order.fee_lines(),
        vec![
            OrderFeeLineCreate {
                name: "Handling".to_string(),
                tax_class: "standard".to_string(),
                tax_status: TaxStatus::Taxable,
                total: "2.50".to_string(),
                meta_data: None,
            },
            OrderFeeLineCreate {
                name: "Donation".to_string(),
                tax_class: "".to_string(),
                tax_status: TaxStatus::NotTaxable,
                total: "1.00".to_string(),
                meta_data: None,
            },
        ]
    );
    assert_eq!(
        *order.coupon_lines(),
        vec![
            OrderCouponLineCreate { code: "SPRING".to_string() },
            OrderCouponLineCreate { code: "VIP".to_string() },
        ]
    );
}

#[test]
fn create_builder_can_build_twice() {
    let mut builder = CreateOrderBuilder::new();
    builder.billing_email("a@b.com").add_simple_product(1, 1);
    let first = builder.build().unwrap();
    let second = builder.build().unwrap();
    assert_eq!(first, second);
    builder.add_simple_product(2, 2);
    let third = builder.build().unwrap();
    assert_eq!(first.line_items().len(), 1);
    assert_eq!(third.line_items().len(), 2);
}

#[test]
fn cloned_builder_is_independent() {
    let mut source = CreateOrderBuilder::new();
    source.billing_email("a@b.com").meta_data("k", text("v"));
    let mut copy = source.clone();
    copy.billing_email("c@d.com").meta_data("k2", text("v2"));
    let from_source = source.build().unwrap();
    let from_copy = copy.build().unwrap();
    assert_eq!(from_source.billing().email, "a@b.com");
    assert_eq!(from_source.meta_data().len(), 1);
    assert_eq!(from_copy.billing().email, "c@d.com");
    assert_eq!(from_copy.meta_data().len(), 2);
    assert_eq!(from_copy.meta_data()[0], from_source.meta_data()[0]);
}

#[test]
fn cloned_order_equals_its_source() {
    let order = CreateOrderBuilder::new()
        .billing_email("a@b.com")
        .meta_data("k", text("v"))
        .add_simple_product(1, 2)
        .build()
        .unwrap();
    assert_eq!(order.clone(), order);
}

#[test]
fn update_with_nothing_set_succeeds_and_is_empty() {
    let update = UpdateOrderBuilder::new().build();
    assert_eq!(update.id, None);
    assert_eq!(update.parent_id, None);
    assert_eq!(update.status, None);
    assert_eq!(update.currency, None);
    assert_eq!(update.customer_id, None);
    assert_eq!(update.customer_note, None);
    assert_eq!(update.billing, None);
    assert_eq!(update.shipping, None);
    assert_eq!(update.payment_method, None);
    assert_eq!(update.payment_method_title, None);
    assert_eq!(update.transaction_id, None);
    assert_eq!(update.meta_data, None);
    assert_eq!(update.line_items, None);
    assert_eq!(update.shipping_lines, None);
    assert_eq!(update.fee_lines, None);
    assert_eq!(update.coupon_lines, None);
    assert_eq!(update.set_paid, None);
    assert_eq!(UpdateOrderBuilder::default().build(), update);
}

#[test]
fn update_carries_only_what_was_set() {
    let update = UpdateOrderBuilder::new()
        .billing_email("a@b.com")
        .id(9)
        .parent_id(8)
        .status(OrderStatus::Refunded)
        .currency(CurrencyISO::UAH)
        .customer_id(3)
        .payment_method("cod")
        .payment_method_title("Cash")
        .transaction_id("t")
        .set_paid(true)
        .coupon_line("X")
        .build();
    assert_eq!(update.id, Some(9));
    assert_eq!(update.parent_id, Some(8));
    assert_eq!(update.status, Some(OrderStatus::Refunded));
    assert_eq!(update.currency, Some(CurrencyISO::UAH));
    assert_eq!(update.customer_id, Some(3));
    assert_eq!(update.payment_method.as_deref(), Some("cod"));
    assert_eq!(update.payment_method_title.as_deref(), Some("Cash"));
    assert_eq!(update.transaction_id.as_deref(), Some("t"));
    assert_eq!(update.set_paid, Some(true));
    assert_eq!(update.billing.as_ref().map(|b| b.email.as_str()), Some("a@b.com"));
    assert_eq!(update.coupon_lines, Some(vec![OrderCouponLineCreate { code: "X".to_string() }]));
    assert_eq!(update.customer_note, None);
    assert_eq!(update.shipping, None);
    assert_eq!(update.meta_data, None);
    assert_eq!(update.line_items, None);
}

#[test]
fn update_builder_can_build_twice() {
    let mut builder = UpdateOrderBuilder::new();
    builder.customer_note("n").meta_data("k", text("v"));
    let first = builder.build();
    let second = builder.build();
    assert_eq!(first, second);
    assert_eq!(first.clone(), first);
    let copy = builder.clone().build();
    assert_eq!(copy, first);
}

#[test]
fn update_lists_accumulate() {
    let update = UpdateOrderBuilder::new()
        .shipping_first_name("Sarah")
        .line_item(OrderLineItemCreate::new(1, 1))
        .shipping_line("Flat rate", "flat_rate", "10.00")
        .fee_line("Handling", "standard", TaxStatus::Taxable, "2.50")
        .meta_data("a", text("1"))
        .meta_data("b", text("2"))
        .build();
    assert_eq!(update.line_items.as_ref().map(|l| l.len()), Some(1));
    assert_eq!(update.shipping_lines.as_ref().map(|l| l.len()), Some(1));
    assert_eq!(update.fee_lines.as_ref().map(|l| l.len()), Some(1));
    let meta = update.meta_data.unwrap();
    assert_eq!(meta[0].key, "a");
    assert_eq!(meta[1].key, "b");
    assert_eq!(meta[1].value, text("2"));
    assert_eq!(update.shipping.unwrap().first_name, "Sarah");
}
