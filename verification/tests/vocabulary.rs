use store_requests::error::BuildError;
use store_requests::error::BILLING_EMAIL;
use store_requests::models::customers::Billing;
use store_requests::models::customers::Shipping;
use store_requests::models::data::CurrencyISO;
use store_requests::models::orders::OrderStatus;
use store_requests::models::orders::TaxStatus;
use store_requests::models::product_categories::DisplayOption;
use store_requests::models::product_reviews::ReviewStatus;

#[test]
fn enum_defaults() {
    assert_eq!(OrderStatus::default(), OrderStatus::Pending);
    assert_eq!(CurrencyISO::default(), CurrencyISO::USD);
    assert_eq!(ReviewStatus::default(), ReviewStatus::Approved);
    assert_eq!(DisplayOption::default(), DisplayOption::Default);
}

#[test]
fn order_status_tokens() {
    assert_eq!(OrderStatus::Pending.as_str(), "pending");
    assert_eq!(OrderStatus::Processing.as_str(), "processing");
    assert_eq!(OrderStatus::OnHold.as_str(), "on-hold");
    assert_eq!(OrderStatus::Completed.as_str(), "completed");
    assert_eq!(OrderStatus::Cancelled.as_str(), "cancelled");
    assert_eq!(OrderStatus::Refunded.as_str(), "refunded");
    assert_eq!(OrderStatus::Failed.as_str(), "failed");
    assert_eq!(OrderStatus::Trash.as_str(), "trash");
}

#[test]
fn review_status_tokens() {
    assert_eq!(ReviewStatus::Approved.as_str(), "approved");
    assert_eq!(ReviewStatus::Hold.as_str(), "hold");
    assert_eq!(ReviewStatus::Spam.as_str(), "spam");
    assert_eq!(ReviewStatus::Unspam.as_str(), "unspam");
    assert_eq!(ReviewStatus::Trash.as_str(), "trash");
    assert_eq!(ReviewStatus::Untrash.as_str(), "untrash");
}

#[test]
fn tax_status_and_display_tokens() {
    assert_eq!(TaxStatus::Taxable.as_str(), "taxable");
    assert_eq!(TaxStatus::NotTaxable.as_str(), "none");
    assert_eq!(DisplayOption::Default.as_str(), "default");
    assert_eq!(DisplayOption::Products.as_str(), "products");
    assert_eq!(DisplayOption::Subcategories.as_str(), "subcategories");
    assert_eq!(DisplayOption::Both.as_str(), "both");
}

#[test]
fn currency_codes() {
    assert_eq!(CurrencyISO::USD.as_str(), "USD");
    assert_eq!(CurrencyISO::RUB.as_str(), "RUB");
    assert_eq!(CurrencyISO::EUR.as_str(), "EUR");
    assert_eq!(CurrencyISO::AED.as_str(), "AED");
    assert_eq!(CurrencyISO::ZMW.as_str(), "ZMW");
    assert_eq!(CurrencyISO::UAH.as_str(), "UAH");
}

#[test]
fn default_addresses_are_empty() {
    let billing = Billing::default();
    assert_eq!(billing.first_name, "");
    assert_eq!(billing.last_name, "");
    assert_eq!(billing.company, "");
    assert_eq!(billing.address_1, "");
    assert_eq!(billing.address_2, "");
    assert_eq!(billing.city, "");
    assert_eq!(billing.state, "");
    assert_eq!(billing.postcode, "");
    assert_eq!(billing.country, "");
    assert_eq!(billing.email, "");
    assert_eq!(billing.phone, "");
    let shipping = Shipping::default();
    assert_eq!(shipping.first_name, "");
    assert_eq!(shipping.country, "");
    assert_eq!(billing.clone(), billing);
    assert_eq!(shipping.clone(), shipping);
}

#[test]
fn missing_field_error_names_its_field() {
    let error = BuildError::MissingRequiredField(BILLING_EMAIL);
    assert_eq!(BILLING_EMAIL, "billing.email");
    assert_eq!(error.field_name(), "billing.email");
    assert_eq!(error.message(), "missing required field: billing.email");
    assert_eq!(BuildError::MissingRequiredField("name").message(), "missing required field: name");
}
