//! Changing an order.
use crate::controllers::orders::draft::OrderDraft;
use crate::controllers::orders::lines::OrderCouponLineCreate;
use crate::controllers::orders::lines::OrderCouponLineView;
use crate::controllers::orders::lines::OrderFeeLineCreate;
use crate::controllers::orders::lines::OrderFeeLineView;
use crate::controllers::orders::lines::OrderLineItemCreate;
use crate::controllers::orders::lines::OrderLineItemView;
use crate::controllers::orders::lines::ShippingLineCreate;
use crate::controllers::orders::lines::ShippingLineView;
use crate::lists::append;
use crate::lists::clone_list;
use crate::models::customers::Billing;
use crate::models::customers::BillingLeaf;
use crate::models::customers::Shipping;
use crate::models::customers::ShippingLeaf;
use crate::models::data::CurrencyISO;
use crate::models::orders::OrderStatus;
use crate::models::orders::TaxStatus;
use crate::models::MetaData;
use crate::models::MetaDataView;
use vstd::prelude::*;

verus! {

/// The request that changes an order. It carries only what was supplied:
/// an absent field is left out of the request, and the store leaves that
/// field of the order as it is.
#[derive(Debug, PartialEq, Eq)]
pub struct UpdateOrder {
    /// Unique identifier of the order to change.
    pub id: Option<i32>,
    /// Parent order ID.
    pub parent_id: Option<i32>,
    /// Order status.
    pub status: Option<OrderStatus>,
    /// Currency of the order.
    pub currency: Option<CurrencyISO>,
    /// User ID who owns the order; 0 for guests.
    pub customer_id: Option<i32>,
    /// Note left by customer during checkout.
    pub customer_note: Option<String>,
    /// Billing address.
    pub billing: Option<Billing>,
    /// Shipping address.
    pub shipping: Option<Shipping>,
    /// Payment method ID.
    pub payment_method: Option<String>,
    /// Payment method title.
    pub payment_method_title: Option<String>,
    /// Unique transaction ID.
    pub transaction_id: Option<String>,
    /// Meta data, in the order it was added.
    pub meta_data: Option<Vec<MetaData>>,
    /// Product lines, in the order they were added.
    pub line_items: Option<Vec<OrderLineItemCreate>>,
    /// Shipping lines, in the order they were added.
    pub shipping_lines: Option<Vec<ShippingLineCreate>>,
    /// Fee lines, in the order they were added.
    pub fee_lines: Option<Vec<OrderFeeLineCreate>>,
    /// Coupon lines, in the order they were added.
    pub coupon_lines: Option<Vec<OrderCouponLineCreate>>,
    /// Whether the order is paid.
    pub set_paid: Option<bool>,
}

impl View for UpdateOrder {
    type V = OrderDraft;

    open spec fn view(&self) -> OrderDraft {
        OrderDraft {
            id: self.id,
            parent_id: self.parent_id,
            status: self.status,
            currency: self.currency,
            customer_id: self.customer_id,
            customer_note: self.customer_note.deep_view(),
            billing: self.billing.deep_view(),
            shipping: self.shipping.deep_view(),
            payment_method: self.payment_method.deep_view(),
            payment_method_title: self.payment_method_title.deep_view(),
            transaction_id: self.transaction_id.deep_view(),
            meta_data: self.meta_data.deep_view(),
            line_items: self.line_items.deep_view(),
            shipping_lines: self.shipping_lines.deep_view(),
            fee_lines: self.fee_lines.deep_view(),
            coupon_lines: self.coupon_lines.deep_view(),
            set_paid: self.set_paid,
        }
    }
}

impl Clone for UpdateOrder {
    fn clone(&self) -> (res: Self)
        ensures
            res@ == self@,
    {
        UpdateOrder {
            id: self.id,
            parent_id: self.parent_id,
            status: self.status,
            currency: self.currency,
            customer_id: self.customer_id,
            customer_note: self.customer_note.clone(),
            billing: self.billing.clone(),
            shipping: self.shipping.clone(),
            payment_method: self.payment_method.clone(),
            payment_method_title: self.payment_method_title.clone(),
            transaction_id: self.transaction_id.clone(),
            meta_data: clone_list(&self.meta_data),
            line_items: clone_list(&self.line_items),
            shipping_lines: clone_list(&self.shipping_lines),
            fee_lines: clone_list(&self.fee_lines),
            coupon_lines: clone_list(&self.coupon_lines),
            set_paid: self.set_paid,
        }
    }
}

/// Collects the changes to an order. Setters may come in any order and any
/// number of times: a scalar keeps the last value it was given, a list keeps
/// everything it was given.
pub struct UpdateOrderBuilder {
    id: Option<i32>,
    parent_id: Option<i32>,
    status: Option<OrderStatus>,
    currency: Option<CurrencyISO>,
    customer_id: Option<i32>,
    customer_note: Option<String>,
    billing: Option<Billing>,
    shipping: Option<Shipping>,
    payment_method: Option<String>,
    payment_method_title: Option<String>,
    transaction_id: Option<String>,
    meta_data: Option<Vec<MetaData>>,
    line_items: Option<Vec<OrderLineItemCreate>>,
    shipping_lines: Option<Vec<ShippingLineCreate>>,
    fee_lines: Option<Vec<OrderFeeLineCreate>>,
    coupon_lines: Option<Vec<OrderCouponLineCreate>>,
    set_paid: Option<bool>,
}

impl View for UpdateOrderBuilder {
    type V = OrderDraft;

    closed spec fn view(&self) -> OrderDraft {
        OrderDraft {
            id: self.id,
            parent_id: self.parent_id,
            status: self.status,
            currency: self.currency,
            customer_id: self.customer_id,
            customer_note: self.customer_note.deep_view(),
            billing: self.billing.deep_view(),
            shipping: self.shipping.deep_view(),
            payment_method: self.payment_method.deep_view(),
            payment_method_title: self.payment_method_title.deep_view(),
            transaction_id: self.transaction_id.deep_view(),
            meta_data: self.meta_data.deep_view(),
            line_items: self.line_items.deep_view(),
            shipping_lines: self.shipping_lines.deep_view(),
            fee_lines: self.fee_lines.deep_view(),
            coupon_lines: self.coupon_lines.deep_view(),
            set_paid: self.set_paid,
        }
    }
}

impl Default for UpdateOrderBuilder {
    /// A builder that has been told nothing.
    fn default() -> (res: Self)
        ensures
            res@ == OrderDraft::empty(),
    {
        UpdateOrderBuilder::new()
    }
}

impl Clone for UpdateOrderBuilder {
    /// An independent builder that has been told the same.
    fn clone(&self) -> (res: Self)
        ensures
            res@ == self@,
    {
        UpdateOrderBuilder {
            id: self.id,
            parent_id: self.parent_id,
            status: self.status,
            currency: self.currency,
            customer_id: self.customer_id,
            customer_note: self.customer_note.clone(),
            billing: self.billing.clone(),
            shipping: self.shipping.clone(),
            payment_method: self.payment_method.clone(),
            payment_method_title: self.payment_method_title.clone(),
            transaction_id: self.transaction_id.clone(),
            meta_data: clone_list(&self.meta_data),
            line_items: clone_list(&self.line_items),
            shipping_lines: clone_list(&self.shipping_lines),
            fee_lines: clone_list(&self.fee_lines),
            coupon_lines: clone_list(&self.coupon_lines),
            set_paid: self.set_paid,
        }
    }
}

impl UpdateOrderBuilder {
    /// A builder that has been told nothing.
    pub fn new() -> (res: Self)
        ensures
            res@ == OrderDraft::empty(),
    {
        UpdateOrderBuilder {
            id: None,
            parent_id: None,
            status: None,
            currency: None,
            customer_id: None,
            customer_note: None,
            billing: None,
            shipping: None,
            payment_method: None,
            payment_method_title: None,
            transaction_id: None,
            meta_data: None,
            line_items: None,
            shipping_lines: None,
            fee_lines: None,
            coupon_lines: None,
            set_paid: None,
        }
    }

    /// Unique identifier of the order to change.
    pub fn id(&mut self, id: i32) -> (ret: &mut Self)
        ensures
            ret@ == (OrderDraft { id: Some(id), ..old(self)@ }),
            *final(self) == *final(ret),
    {
        self.id = Some(id);
        self
    }

    /// Parent order ID.
    pub fn parent_id(&mut self, parent_id: i32) -> (ret: &mut Self)
        ensures
            ret@ == (OrderDraft { parent_id: Some(parent_id), ..old(self)@ }),
            *final(self) == *final(ret),
    {
        self.parent_id = Some(parent_id);
        self
    }

    /// Order status.
    pub fn status(&mut self, order_status: OrderStatus) -> (ret: &mut Self)
        ensures
            ret@ == (OrderDraft { status: Some(order_status), ..old(self)@ }),
            *final(self) == *final(ret),
    {
        self.status = Some(order_status);
        self
    }

    /// Currency the order is created with.
    pub fn currency(&mut self, currency: CurrencyISO) -> (ret: &mut Self)
        ensures
            ret@ == (OrderDraft { currency: Some(currency), ..old(self)@ }),
            *final(self) == *final(ret),
    {
        self.currency = Some(currency);
        self
    }

    /// User ID who owns the order; 0 for guests.
    pub fn customer_id(&mut self, customer_id: i32) -> (ret: &mut Self)
        ensures
            ret@ == (OrderDraft { customer_id: Some(customer_id), ..old(self)@ }),
            *final(self) == *final(ret),
    {
        self.customer_id = Some(customer_id);
        self
    }

    /// Note left by customer during checkout.
    pub fn customer_note(&mut self, customer_note: &str) -> (ret: &mut Self)
        ensures
            ret@ == (OrderDraft { customer_note: Some(customer_note@), ..old(self)@ }),
            *final(self) == *final(ret),
    {
        self.customer_note = Some(customer_note.to_owned());
        self
    }

    /// Billing first name.
    pub fn billing_first_name(self, first_name: &str) -> (res: Self)
        ensures
            res@ == self@.set_billing(BillingLeaf::FirstName, first_name@),
    {
        let mut builder = self;
        builder.billing.get_or_insert(Billing::default()).first_name = first_name.to_owned();
        builder
    }

    /// Billing last name.
    pub fn billing_last_name(self, last_name: &str) -> (res: Self)
        ensures
            res@ == self@.set_billing(BillingLeaf::LastName, last_name@),
    {
        let mut builder = self;
        builder.billing.get_or_insert(Billing::default()).last_name = last_name.to_owned();
        builder
    }

    /// Billing company name.
    pub fn billing_company(self, company: &str) -> (res: Self)
        ensures
            res@ == self@.set_billing(BillingLeaf::Company, company@),
    {
        let mut builder = self;
        builder.billing.get_or_insert(Billing::default()).company = company.to_owned();
        builder
    }

    /// Billing address line 1.
    pub fn billing_address_1(self, address_1: &str) -> (res: Self)
        ensures
            res@ == self@.set_billing(BillingLeaf::Address1, address_1@),
    {
        let mut builder = self;
        builder.billing.get_or_insert(Billing::default()).address_1 = address_1.to_owned();
        builder
    }

    /// Billing address line 2.
    pub fn billing_address_2(self, address_2: &str) -> (res: Self)
        ensures
            res@ == self@.set_billing(BillingLeaf::Address2, address_2@),
    {
        let mut builder = self;
        builder.billing.get_or_insert(Billing::default()).address_2 = address_2.to_owned();
        builder
    }

    /// Billing city name.
    pub fn billing_city(self, city: &str) -> (res: Self)
        ensures
            res@ == self@.set_billing(BillingLeaf::City, city@),
    {
        let mut builder = self;
        builder.billing.get_or_insert(Billing::default()).city = city.to_owned();
        builder
    }

    /// Billing ISO code or name of the state, province or district.
    pub fn billing_state(self, state: &str) -> (res: Self)
        ensures
            res@ == self@.set_billing(BillingLeaf::State, state@),
    {
        let mut builder = self;
        builder.billing.get_or_insert(Billing::default()).state = state.to_owned();
        builder
    }

    /// Billing postal code.
    pub fn billing_postcode(self, postcode: &str) -> (res: Self)
        ensures
            res@ == self@.set_billing(BillingLeaf::Postcode, postcode@),
    {
        let mut builder = self;
        builder.billing.get_or_insert(Billing::default()).postcode = postcode.to_owned();
        builder
    }

    /// Billing ISO code of the country.
    pub fn billing_country(self, country: &str) -> (res: Self)
        ensures
            res@ == self@.set_billing(BillingLeaf::Country, country@),
    {
        let mut builder = self;
        builder.billing.get_or_insert(Billing::default()).country = country.to_owned();
        builder
    }

    /// Billing email address.
    pub fn billing_email(self, email: &str) -> (res: Self)
        ensures
            res@ == self@.set_billing(BillingLeaf::Email, email@),
    {
        let mut builder = self;
        builder.billing.get_or_insert(Billing::default()).email = email.to_owned();
        builder
    }

    /// Billing phone number.
    pub fn billing_phone(self, phone: &str) -> (res: Self)
        ensures
            res@ == self@.set_billing(BillingLeaf::Phone, phone@),
    {
        let mut builder = self;
        builder.billing.get_or_insert(Billing::default()).phone = phone.to_owned();
        builder
    }

    /// Shipping first name.
    pub fn shipping_first_name(self, first_name: &str) -> (res: Self)
        ensures
            res@ == self@.set_shipping(ShippingLeaf::FirstName, first_name@),
    {
        let mut builder = self;
        builder.shipping.get_or_insert(Shipping::default()).first_name = first_name.to_owned();
        builder
    }

    /// Shipping last name.
    pub fn shipping_last_name(self, last_name: &str) -> (res: Self)
        ensures
            res@ == self@.set_shipping(ShippingLeaf::LastName, last_name@),
    {
        let mut builder = self;
        builder.shipping.get_or_insert(Shipping::default()).last_name = last_name.to_owned();
        builder
    }

    /// Shipping company name.
    pub fn shipping_company(self, company: &str) -> (res: Self)
        ensures
            res@ == self@.set_shipping(ShippingLeaf::Company, company@),
    {
        let mut builder = self;
        builder.shipping.get_or_insert(Shipping::default()).company = company.to_owned();
        builder
    }

    /// Shipping address line 1.
    pub fn shipping_address_1(self, address_1: &str) -> (res: Self)
        ensures
            res@ == self@.set_shipping(ShippingLeaf::Address1, address_1@),
    {
        let mut builder = self;
        builder.shipping.get_or_insert(Shipping::default()).address_1 = address_1.to_owned();
        builder
    }

    /// Shipping address line 2.
    pub fn shipping_address_2(self, address_2: &str) -> (res: Self)
        ensures
            res@ == self@.set_shipping(ShippingLeaf::Address2, address_2@),
    {
        let mut builder = self;
        builder.shipping.get_or_insert(Shipping::default()).address_2 = address_2.to_owned();
        builder
    }

    /// Shipping city name.
    pub fn shipping_city(self, city: &str) -> (res: Self)
        ensures
            res@ == self@.set_shipping(ShippingLeaf::City, city@),
    {
        let mut builder = self;
        builder.shipping.get_or_insert(Shipping::default()).city = city.to_owned();
        builder
    }

    /// Shipping ISO code or name of the state, province or district.
    pub fn shipping_state(self, state: &str) -> (res: Self)
        ensures
            res@ == self@.set_shipping(ShippingLeaf::State, state@),
    {
        let mut builder = self;
        builder.shipping.get_or_insert(Shipping::default()).state = state.to_owned();
        builder
    }

    /// Shipping postal code.
    pub fn shipping_postcode(self, postcode: &str) -> (res: Self)
        ensures
            res@ == self@.set_shipping(ShippingLeaf::Postcode, postcode@),
    {
        let mut builder = self;
        builder.shipping.get_or_insert(Shipping::default()).postcode = postcode.to_owned();
        builder
    }

    /// Shipping ISO code of the country.
    pub fn shipping_country(self, country: &str) -> (res: Self)
        ensures
            res@ == self@.set_shipping(ShippingLeaf::Country, country@),
    {
        let mut builder = self;
        builder.shipping.get_or_insert(Shipping::default()).country = country.to_owned();
        builder
    }

    /// Payment method ID.
    pub fn payment_method(&mut self, payment_method: &str) -> (ret: &mut Self)
        ensures
            ret@ == (OrderDraft { payment_method: Some(payment_method@), ..old(self)@ }),
            *final(self) == *final(ret),
    {
        self.payment_method = Some(payment_method.to_owned());
        self
    }

    /// Payment method title.
    pub fn payment_method_title(&mut self, payment_method_title: &str) -> (ret: &mut Self)
        ensures
            ret@ == (OrderDraft { payment_method_title: Some(payment_method_title@), ..old(self)@ }),
            *final(self) == *final(ret),
    {
        self.payment_method_title = Some(payment_method_title.to_owned());
        self
    }

    /// Unique transaction ID.
    pub fn transaction_id(&mut self, transaction_id: &str) -> (ret: &mut Self)
        ensures
            ret@ == (OrderDraft { transaction_id: Some(transaction_id@), ..old(self)@ }),
            *final(self) == *final(ret),
    {
        self.transaction_id = Some(transaction_id.to_owned());
        self
    }

    /// Adds a metadata entry after those already there.
    pub fn meta_data(&mut self, key: &str, value: serde_json::Value) -> (ret: &mut Self)
        ensures
            ret@ == old(self)@.push_meta_data(MetaDataView::unsaved(key@, value)),
            *final(self) == *final(ret),
    {
        append(&mut self.meta_data, MetaData::unsaved(key, value));
        self
    }

    /// Adds `quantity` of a simple product after the lines already there.
    pub fn add_simple_product(&mut self, product_id: i32, quantity: i32) -> (ret: &mut Self)
        ensures
            ret@ == old(self)@.push_line_item(OrderLineItemView::new(product_id, quantity)),
            *final(self) == *final(ret),
    {
        let product = OrderLineItemCreate::new(product_id, quantity);
        append(&mut self.line_items, product);
        self
    }

    /// Adds `quantity` of one variation of a product after the lines already
    /// there.
    pub fn add_variable_product(
        &mut self,
        product_id: i32,
        variation_id: i32,
        quantity: i32,
    ) -> (ret: &mut Self)
        ensures
            ret@ == old(self)@.push_line_item(
                (OrderLineItemView {
                    variation_id: Some(variation_id),
                    ..OrderLineItemView::new(product_id, quantity)
                }),
            ),
            *final(self) == *final(ret),
    {
        let product = OrderLineItemCreate::new(product_id, quantity).variation_id(variation_id);
        append(&mut self.line_items, product);
        self
    }

    /// Adds a product line after those already there.
    pub fn line_item(&mut self, product: OrderLineItemCreate) -> (ret: &mut Self)
        ensures
            ret@ == old(self)@.push_line_item(product@),
            *final(self) == *final(ret),
    {
        append(&mut self.line_items, product);
        self
    }

    /// Adds a shipping line after those already there.
    pub fn shipping_line(
        &mut self,
        method_title: &str,
        method_id: &str,
        total: &str,
    ) -> (ret: &mut Self)
        ensures
            ret@ == old(self)@.push_shipping_line(
                ShippingLineView::new(method_title@, method_id@, total@),
            ),
            *final(self) == *final(ret),
    {
        let shipping_line = ShippingLineCreate::new(method_title, method_id, total);
        append(&mut self.shipping_lines, shipping_line);
        self
    }

    /// Adds a fee line after those already there.
    pub fn fee_line(
        &mut self,
        name: &str,
        tax_class: &str,
        tax_status: TaxStatus,
        total: &str,
    ) -> (ret: &mut Self)
        ensures
            ret@ == old(self)@.push_fee_line(
                OrderFeeLineView::new(name@, tax_class@, tax_status, total@),
            ),
            *final(self) == *final(ret),
    {
        let fee_line = OrderFeeLineCreate {
            name: name.to_owned(),
            tax_class: tax_class.to_owned(),
            tax_status,
            total: total.to_owned(),
            meta_data: None,
        };
        append(&mut self.fee_lines, fee_line);
        self
    }

    /// Adds a coupon after those already there.
    pub fn coupon_line(&mut self, code: &str) -> (ret: &mut Self)
        ensures
            ret@ == old(self)@.push_coupon_line((OrderCouponLineView { code: code@ })),
            *final(self) == *final(ret),
    {
        let coupon = OrderCouponLineCreate { code: code.to_owned() };
        append(&mut self.coupon_lines, coupon);
        self
    }

    /// Whether the order is paid. A paid order is set to processing and its
    /// items leave the stock.
    pub fn set_paid(&mut self, paid: bool) -> (ret: &mut Self)
        ensures
            ret@ == (OrderDraft { set_paid: Some(paid), ..old(self)@ }),
            *final(self) == *final(ret),
    {
        self.set_paid = Some(paid);
        self
    }

    /// The request for what has been supplied. There is nothing an update
    /// must hold, so this never fails, whatever was or was not set: the request
    /// models exactly the builder's draft. The builder is left as it was.
    pub fn build(&mut self) -> (res: UpdateOrder)
        ensures
            res@ == old(self)@,
            *final(self) == *old(self),
    {
        UpdateOrder {
            id: self.id,
            parent_id: self.parent_id,
            status: self.status,
            currency: self.currency,
            customer_id: self.customer_id,
            customer_note: self.customer_note.clone(),
            billing: self.billing.clone(),
            shipping: self.shipping.clone(),
            payment_method: self.payment_method.clone(),
            payment_method_title: self.payment_method_title.clone(),
            transaction_id: self.transaction_id.clone(),
            meta_data: clone_list(&self.meta_data),
            line_items: clone_list(&self.line_items),
            shipping_lines: clone_list(&self.shipping_lines),
            fee_lines: clone_list(&self.fee_lines),
            coupon_lines: clone_list(&self.coupon_lines),
            set_paid: self.set_paid,
        }
    }
}

} // verus!
