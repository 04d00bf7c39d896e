//! Creating an order.
use crate::controllers::orders::draft::OrderDraft;
use crate::controllers::orders::lines::OrderCouponLineCreate;
use crate::controllers::orders::lines::OrderCouponLineView;
use crate::controllers::orders::lines::OrderFeeLineCreate;
use crate::controllers::orders::lines::OrderFeeLineView;
use crate::controllers::orders::lines::OrderLineItemCreate;
use crate::controllers::orders::lines::OrderLineItemView;
use crate::controllers::orders::lines::ShippingLineCreate;
use crate::controllers::orders::lines::ShippingLineView;
use crate::error::BuildError;
use crate::error::BILLING_EMAIL;
use crate::lists::append;
use crate::lists::clone_items;
use crate::lists::clone_list;
use crate::models::customers::Billing;
use crate::models::customers::BillingLeaf;
use crate::models::customers::BillingView;
use crate::models::customers::Shipping;
use crate::models::customers::ShippingLeaf;
use crate::models::customers::ShippingView;
use crate::models::data::CurrencyISO;
use crate::models::orders::OrderStatus;
use crate::models::orders::TaxStatus;
use crate::models::MetaData;
use crate::models::MetaDataView;
use vstd::prelude::*;

verus! {

/// The request that creates an order. A value of this type can only come
/// out of [`CreateOrderBuilder::build`], so its billing email is never empty.
#[derive(Debug, PartialEq, Eq)]
pub struct CreateOrder {
    parent_id: Option<i32>,
    status: OrderStatus,
    currency: CurrencyISO,
    customer_id: i32,
    customer_note: Option<String>,
    billing: Billing,
    shipping: Shipping,
    payment_method: String,
    payment_method_title: String,
    transaction_id: Option<String>,
    meta_data: Vec<MetaData>,
    line_items: Vec<OrderLineItemCreate>,
    shipping_lines: Vec<ShippingLineCreate>,
    fee_lines: Vec<OrderFeeLineCreate>,
    coupon_lines: Vec<OrderCouponLineCreate>,
    set_paid: bool,
}

/// What a [`CreateOrder`] holds. The three optional fields are sent only when
/// they are present; every list keeps the order in which it was filled.
#[verifier::ext_equal]
pub struct CreateOrderView {
    pub parent_id: Option<i32>,
    pub status: OrderStatus,
    pub currency: CurrencyISO,
    pub customer_id: i32,
    pub customer_note: Option<Seq<char>>,
    pub billing: BillingView,
    pub shipping: ShippingView,
    pub payment_method: Seq<char>,
    pub payment_method_title: Seq<char>,
    pub transaction_id: Option<Seq<char>>,
    pub meta_data: Seq<MetaDataView>,
    pub line_items: Seq<OrderLineItemView>,
    pub shipping_lines: Seq<ShippingLineView>,
    pub fee_lines: Seq<OrderFeeLineView>,
    pub coupon_lines: Seq<OrderCouponLineView>,
    pub set_paid: bool,
}

impl View for CreateOrder {
    type V = CreateOrderView;

    closed spec fn view(&self) -> CreateOrderView {
        CreateOrderView {
            parent_id: self.parent_id,
            status: self.status,
            currency: self.currency,
            customer_id: self.customer_id,
            customer_note: self.customer_note.deep_view(),
            billing: self.billing@,
            shipping: self.shipping@,
            payment_method: self.payment_method@,
            payment_method_title: self.payment_method_title@,
            transaction_id: self.transaction_id.deep_view(),
            meta_data: self.meta_data.deep_view(),
            line_items: self.line_items.deep_view(),
            shipping_lines: self.shipping_lines.deep_view(),
            fee_lines: self.fee_lines.deep_view(),
            coupon_lines: self.coupon_lines.deep_view(),
            set_paid: self.set_paid,
        }
    }
}

impl Clone for CreateOrder {
    fn clone(&self) -> (res: Self)
        ensures
            res@ == self@,
    {
        proof {
            use_type_invariant(self);
        }
        CreateOrder {
            parent_id: self.parent_id,
            status: self.status,
            currency: self.currency,
            customer_id: self.customer_id,
            customer_note: self.customer_note.clone(),
            billing: self.billing.clone(),
            shipping: self.shipping.clone(),
            payment_method: self.payment_method.clone(),
            payment_method_title: self.payment_method_title.clone(),
            transaction_id: self.transaction_id.clone(),
            meta_data: clone_items(&self.meta_data),
            line_items: clone_items(&self.line_items),
            shipping_lines: clone_items(&self.shipping_lines),
            fee_lines: clone_items(&self.fee_lines),
            coupon_lines: clone_items(&self.coupon_lines),
            set_paid: self.set_paid,
        }
    }
}

impl CreateOrder {
    /// The mandatory field is there.
    #[verifier::type_invariant]
    spec fn billing_email_present(self) -> bool {
        self.billing.email@.len() > 0
    }

    /// Parent order ID, if one was given.
    pub fn parent_id(&self) -> (res: Option<i32>)
        ensures
            res == self@.parent_id,
    {
        self.parent_id
    }

    /// Order status.
    pub fn status(&self) -> (res: OrderStatus)
        ensures
            res == self@.status,
    {
        self.status
    }

    /// Currency of the order.
    pub fn currency(&self) -> (res: CurrencyISO)
        ensures
            res == self@.currency,
    {
        self.currency
    }

    /// User ID who owns the order; 0 for guests.
    pub fn customer_id(&self) -> (res: i32)
        ensures
            res == self@.customer_id,
    {
        self.customer_id
    }

    /// Note left by customer during checkout, if there is one.
    pub fn customer_note(&self) -> (res: Option<&String>)
        ensures
            res.deep_view() == self@.customer_note,
    {
        self.customer_note.as_ref()
    }

    /// Billing address. Its email is never empty.
    pub fn billing(&self) -> (res: &Billing)
        ensures
            res@ == self@.billing,
            res@.email.len() > 0,
    {
        proof {
            use_type_invariant(self);
        }
        &self.billing
    }

    /// Shipping address.
    pub fn shipping(&self) -> (res: &Shipping)
        ensures
            res@ == self@.shipping,
    {
        &self.shipping
    }

    /// Payment method ID.
    pub fn payment_method(&self) -> (res: &str)
        ensures
            res@ == self@.payment_method,
    {
        self.payment_method.as_str()
    }

    /// Payment method title.
    pub fn payment_method_title(&self) -> (res: &str)
        ensures
            res@ == self@.payment_method_title,
    {
        self.payment_method_title.as_str()
    }

    /// Unique transaction ID, if one was given.
    pub fn transaction_id(&self) -> (res: Option<&String>)
        ensures
            res.deep_view() == self@.transaction_id,
    {
        self.transaction_id.as_ref()
    }

    /// Meta data, in the order it was added.
    pub fn meta_data(&self) -> (res: &Vec<MetaData>)
        ensures
            res.deep_view() == self@.meta_data,
    {
        &self.meta_data
    }

    /// Product lines, in the order they were added.
    pub fn line_items(&self) -> (res: &Vec<OrderLineItemCreate>)
        ensures
            res.deep_view() == self@.line_items,
    {
        &self.line_items
    }

    /// Shipping lines, in the order they were added.
    pub fn shipping_lines(&self) -> (res: &Vec<ShippingLineCreate>)
        ensures
            res.deep_view() == self@.shipping_lines,
    {
        &self.shipping_lines
    }

    /// Fee lines, in the order they were added.
    pub fn fee_lines(&self) -> (res: &Vec<OrderFeeLineCreate>)
        ensures
            res.deep_view() == self@.fee_lines,
    {
        &self.fee_lines
    }

    /// Coupon lines, in the order they were added.
    pub fn coupon_lines(&self) -> (res: &Vec<OrderCouponLineCreate>)
        ensures
            res.deep_view() == self@.coupon_lines,
    {
        &self.coupon_lines
    }

    /// Whether the order is paid.
    pub fn set_paid(&self) -> (res: bool)
        ensures
            res == self@.set_paid,
    {
        self.set_paid
    }
}

/// Collects the fields of a new order. Setters may come in any order and any
/// number of times: a scalar keeps the last value it was given, a list keeps
/// everything it was given.
pub struct CreateOrderBuilder {
    parent_id: Option<i32>,
    status: Option<OrderStatus>,
    currency: Option<CurrencyISO>,
    customer_id: Option<i32>,
    customer_note: Option<String>,
    billing: Option<Billing>,
    shipping: Option<Shipping>,
    payment_method: Option<String>,
    payment_method_title: Option<String>,
    transaction_id: Option<String>,
    meta_data: Option<Vec<MetaData>>,
    line_items: Option<Vec<OrderLineItemCreate>>,
    shipping_lines: Option<Vec<ShippingLineCreate>>,
    fee_lines: Option<Vec<OrderFeeLineCreate>>,
    coupon_lines: Option<Vec<OrderCouponLineCreate>>,
    set_paid: Option<bool>,
}

impl View for CreateOrderBuilder {
    type V = OrderDraft;

    closed spec fn view(&self) -> OrderDraft {
        OrderDraft {
            id: None,
            parent_id: self.parent_id,
            status: self.status,
            currency: self.currency,
            customer_id: self.customer_id,
            customer_note: self.customer_note.deep_view(),
            billing: self.billing.deep_view(),
            shipping: self.shipping.deep_view(),
            payment_method: self.payment_method.deep_view(),
            payment_method_title: self.payment_method_title.deep_view(),
            transaction_id: self.transaction_id.deep_view(),
            meta_data: self.meta_data.deep_view(),
            line_items: self.line_items.deep_view(),
            shipping_lines: self.shipping_lines.deep_view(),
            fee_lines: self.fee_lines.deep_view(),
            coupon_lines: self.coupon_lines.deep_view(),
            set_paid: self.set_paid,
        }
    }
}

impl Default for CreateOrderBuilder {
    /// A builder that has been told nothing.
    fn default() -> (res: Self)
        ensures
            res@ == OrderDraft::empty(),
    {
        CreateOrderBuilder::new()
    }
}

impl Clone for CreateOrderBuilder {
    /// An independent builder that has been told the same.
    fn clone(&self) -> (res: Self)
        ensures
            res@ == self@,
    {
        CreateOrderBuilder {
            parent_id: self.parent_id,
            status: self.status,
            currency: self.currency,
            customer_id: self.customer_id,
            customer_note: self.customer_note.clone(),
            billing: self.billing.clone(),
            shipping: self.shipping.clone(),
            payment_method: self.payment_method.clone(),
            payment_method_title: self.payment_method_title.clone(),
            transaction_id: self.transaction_id.clone(),
            meta_data: clone_list(&self.meta_data),
            line_items: clone_list(&self.line_items),
            shipping_lines: clone_list(&self.shipping_lines),
            fee_lines: clone_list(&self.fee_lines),
            coupon_lines: clone_list(&self.coupon_lines),
            set_paid: self.set_paid,
        }
    }
}

impl CreateOrderBuilder {
    /// A builder that has been told nothing.
    pub fn new() -> (res: Self)
        ensures
            res@ == OrderDraft::empty(),
    {
        CreateOrderBuilder {
            parent_id: None,
            status: None,
            currency: None,
            customer_id: None,
            customer_note: None,
            billing: None,
            shipping: None,
            payment_method: None,
            payment_method_title: None,
            transaction_id: None,
            meta_data: None,
            line_items: None,
            shipping_lines: None,
            fee_lines: None,
            coupon_lines: None,
            set_paid: None,
        }
    }

    /// Parent order ID.
    pub fn parent_id(&mut self, parent_id: i32) -> (ret: &mut Self)
        ensures
            ret@ == (OrderDraft { parent_id: Some(parent_id), ..old(self)@ }),
            *final(self) == *final(ret),
    {
        self.parent_id = Some(parent_id);
        self
    }

    /// Order status.
    pub fn status(&mut self, order_status: OrderStatus) -> (ret: &mut Self)
        ensures
            ret@ == (OrderDraft { status: Some(order_status), ..old(self)@ }),
            *final(self) == *final(ret),
    {
        self.status = Some(order_status);
        self
    }

    /// Currency the order is created with.
    pub fn currency(&mut self, currency: CurrencyISO) -> (ret: &mut Self)
        ensures
            ret@ == (OrderDraft { currency: Some(currency), ..old(self)@ }),
            *final(self) == *final(ret),
    {
        self.currency = Some(currency);
        self
    }

    /// User ID who owns the order; 0 for guests.
    pub fn customer_id(&mut self, customer_id: i32) -> (ret: &mut Self)
        ensures
            ret@ == (OrderDraft { customer_id: Some(customer_id), ..old(self)@ }),
            *final(self) == *final(ret),
    {
        self.customer_id = Some(customer_id);
        self
    }

    /// Note left by customer during checkout.
    pub fn customer_note(&mut self, customer_note: &str) -> (ret: &mut Self)
        ensures
            ret@ == (OrderDraft { customer_note: Some(customer_note@), ..old(self)@ }),
            *final(self) == *final(ret),
    {
        self.customer_note = Some(customer_note.to_owned());
        self
    }

    /// Billing first name.
    pub fn billing_first_name(&mut self, first_name: &str) -> (ret: &mut Self)
        ensures
            ret@ == old(self)@.set_billing(BillingLeaf::FirstName, first_name@),
            *final(self) == *final(ret),
    {
        self.billing.get_or_insert(Billing::default()).first_name = first_name.to_owned();
        self
    }

    /// Billing last name.
    pub fn billing_last_name(&mut self, last_name: &str) -> (ret: &mut Self)
        ensures
            ret@ == old(self)@.set_billing(BillingLeaf::LastName, last_name@),
            *final(self) == *final(ret),
    {
        self.billing.get_or_insert(Billing::default()).last_name = last_name.to_owned();
        self
    }

    /// Billing company name.
    pub fn billing_company(&mut self, company: &str) -> (ret: &mut Self)
        ensures
            ret@ == old(self)@.set_billing(BillingLeaf::Company, company@),
            *final(self) == *final(ret),
    {
        self.billing.get_or_insert(Billing::default()).company = company.to_owned();
        self
    }

    /// Billing address line 1.
    pub fn billing_address_1(&mut self, address_1: &str) -> (ret: &mut Self)
        ensures
            ret@ == old(self)@.set_billing(BillingLeaf::Address1, address_1@),
            *final(self) == *final(ret),
    {
        self.billing.get_or_insert(Billing::default()).address_1 = address_1.to_owned();
        self
    }

    /// Billing address line 2.
    pub fn billing_address_2(&mut self, address_2: &str) -> (ret: &mut Self)
        ensures
            ret@ == old(self)@.set_billing(BillingLeaf::Address2, address_2@),
            *final(self) == *final(ret),
    {
        self.billing.get_or_insert(Billing::default()).address_2 = address_2.to_owned();
        self
    }

    /// Billing city name.
    pub fn billing_city(&mut self, city: &str) -> (ret: &mut Self)
        ensures
            ret@ == old(self)@.set_billing(BillingLeaf::City, city@),
            *final(self) == *final(ret),
    {
        self.billing.get_or_insert(Billing::default()).city = city.to_owned();
        self
    }

    /// Billing ISO code or name of the state, province or district.
    pub fn billing_state(&mut self, state: &str) -> (ret: &mut Self)
        ensures
            ret@ == old(self)@.set_billing(BillingLeaf::State, state@),
            *final(self) == *final(ret),
    {
        self.billing.get_or_insert(Billing::default()).state = state.to_owned();
        self
    }

    /// Billing postal code.
    pub fn billing_postcode(&mut self, postcode: &str) -> (ret: &mut Self)
        ensures
            ret@ == old(self)@.set_billing(BillingLeaf::Postcode, postcode@),
            *final(self) == *final(ret),
    {
        self.billing.get_or_insert(Billing::default()).postcode = postcode.to_owned();
        self
    }

    /// Billing ISO code of the country.
    pub fn billing_country(&mut self, country: &str) -> (ret: &mut Self)
        ensures
            ret@ == old(self)@.set_billing(BillingLeaf::Country, country@),
            *final(self) == *final(ret),
    {
        self.billing.get_or_insert(Billing::default()).country = country.to_owned();
        self
    }

    /// Billing email address.
    pub fn billing_email(&mut self, email: &str) -> (ret: &mut Self)
        ensures
            ret@ == old(self)@.set_billing(BillingLeaf::Email, email@),
            *final(self) == *final(ret),
    {
        self.billing.get_or_insert(Billing::default()).email = email.to_owned();
        self
    }

    /// Billing phone number.
    pub fn billing_phone(&mut self, phone: &str) -> (ret: &mut Self)
        ensures
            ret@ == old(self)@.set_billing(BillingLeaf::Phone, phone@),
            *final(self) == *final(ret),
    {
        self.billing.get_or_insert(Billing::default()).phone = phone.to_owned();
        self
    }

    /// Shipping first name.
    pub fn shipping_first_name(&mut self, first_name: &str) -> (ret: &mut Self)
        ensures
            ret@ == old(self)@.set_shipping(ShippingLeaf::FirstName, first_name@),
            *final(self) == *final(ret),
    {
        self.shipping.get_or_insert(Shipping::default()).first_name = first_name.to_owned();
        self
    }

    /// Shipping last name.
    pub fn shipping_last_name(&mut self, last_name: &str) -> (ret: &mut Self)
        ensures
            ret@ == old(self)@.set_shipping(ShippingLeaf::LastName, last_name@),
            *final(self) == *final(ret),
    {
        self.shipping.get_or_insert(Shipping::default()).last_name = last_name.to_owned();
        self
    }

    /// Shipping company name.
    pub fn shipping_company(&mut self, company: &str) -> (ret: &mut Self)
        ensures
            ret@ == old(self)@.set_shipping(ShippingLeaf::Company, company@),
            *final(self) == *final(ret),
    {
        self.shipping.get_or_insert(Shipping::default()).company = company.to_owned();
        self
    }

    /// Shipping address line 1.
    pub fn shipping_address_1(&mut self, address_1: &str) -> (ret: &mut Self)
        ensures
            ret@ == old(self)@.set_shipping(ShippingLeaf::Address1, address_1@),
            *final(self) == *final(ret),
    {
        self.shipping.get_or_insert(Shipping::default()).address_1 = address_1.to_owned();
        self
    }

    /// Shipping address line 2.
    pub fn shipping_address_2(&mut self, address_2: &str) -> (ret: &mut Self)
        ensures
            ret@ == old(self)@.set_shipping(ShippingLeaf::Address2, address_2@),
            *final(self) == *final(ret),
    {
        self.shipping.get_or_insert(Shipping::default()).address_2 = address_2.to_owned();
        self
    }

    /// Shipping city name.
    pub fn shipping_city(&mut self, city: &str) -> (ret: &mut Self)
        ensures
            ret@ == old(self)@.set_shipping(ShippingLeaf::City, city@),
            *final(self) == *final(ret),
    {
        self.shipping.get_or_insert(Shipping::default()).city = city.to_owned();
        self
    }

    /// Shipping ISO code or name of the state, province or district.
    pub fn shipping_state(&mut self, state: &str) -> (ret: &mut Self)
        ensures
            ret@ == old(self)@.set_shipping(ShippingLeaf::State, state@),
            *final(self) == *final(ret),
    {
        self.shipping.get_or_insert(Shipping::default()).state = state.to_owned();
        self
    }

    /// Shipping postal code.
    pub fn shipping_postcode(&mut self, postcode: &str) -> (ret: &mut Self)
        ensures
            ret@ == old(self)@.set_shipping(ShippingLeaf::Postcode, postcode@),
            *final(self) == *final(ret),
    {
        self.shipping.get_or_insert(Shipping::default()).postcode = postcode.to_owned();
        self
    }

    /// Shipping ISO code of the country.
    pub fn shipping_country(&mut self, country: &str) -> (ret: &mut Self)
        ensures
            ret@ == old(self)@.set_shipping(ShippingLeaf::Country, country@),
            *final(self) == *final(ret),
    {
        self.shipping.get_or_insert(Shipping::default()).country = country.to_owned();
        self
    }

    /// Payment method ID.
    pub fn payment_method(&mut self, payment_method: &str) -> (ret: &mut Self)
        ensures
            ret@ == (OrderDraft { payment_method: Some(payment_method@), ..old(self)@ }),
            *final(self) == *final(ret),
    {
        self.payment_method = Some(payment_method.to_owned());
        self
    }

    /// Payment method title.
    pub fn payment_method_title(&mut self, payment_method_title: &str) -> (ret: &mut Self)
        ensures
            ret@ == (OrderDraft { payment_method_title: Some(payment_method_title@), ..old(self)@ }),
            *final(self) == *final(ret),
    {
        self.payment_method_title = Some(payment_method_title.to_owned());
        self
    }

    /// Unique transaction ID.
    pub fn transaction_id(&mut self, transaction_id: &str) -> (ret: &mut Self)
        ensures
            ret@ == (OrderDraft { transaction_id: Some(transaction_id@), ..old(self)@ }),
            *final(self) == *final(ret),
    {
        self.transaction_id = Some(transaction_id.to_owned());
        self
    }

    /// Adds a metadata entry after those already there.
    pub fn meta_data(&mut self, key: &str, value: serde_json::Value) -> (ret: &mut Self)
        ensures
            ret@ == old(self)@.push_meta_data(MetaDataView::unsaved(key@, value)),
            *final(self) == *final(ret),
    {
        append(&mut self.meta_data, MetaData::unsaved(key, value));
        self
    }

    /// Adds `quantity` of a simple product after the lines already there.
    pub fn add_simple_product(&mut self, product_id: i32, quantity: i32) -> (ret: &mut Self)
        ensures
            ret@ == old(self)@.push_line_item(OrderLineItemView::new(product_id, quantity)),
            *final(self) == *final(ret),
    {
        let product = OrderLineItemCreate::new(product_id, quantity);
        append(&mut self.line_items, product);
        self
    }

    /// Adds `quantity` of one variation of a product after the lines already
    /// there.
    pub fn add_variable_product(
        &mut self,
        product_id: i32,
        variation_id: i32,
        quantity: i32,
    ) -> (ret: &mut Self)
        ensures
            ret@ == old(self)@.push_line_item(
                (OrderLineItemView {
                    variation_id: Some(variation_id),
                    ..OrderLineItemView::new(product_id, quantity)
                }),
            ),
            *final(self) == *final(ret),
    {
        let product = OrderLineItemCreate::new(product_id, quantity).variation_id(variation_id);
        append(&mut self.line_items, product);
        self
    }

    /// Adds a product line after those already there.
    pub fn line_item(&mut self, product: OrderLineItemCreate) -> (ret: &mut Self)
        ensures
            ret@ == old(self)@.push_line_item(product@),
            *final(self) == *final(ret),
    {
        append(&mut self.line_items, product);
        self
    }

    /// Adds a shipping line after those already there.
    pub fn shipping_line(
        &mut self,
        method_title: &str,
        method_id: &str,
        total: &str,
    ) -> (ret: &mut Self)
        ensures
            ret@ == old(self)@.push_shipping_line(
                ShippingLineView::new(method_title@, method_id@, total@),
            ),
            *final(self) == *final(ret),
    {
        let shipping_line = ShippingLineCreate::new(method_title, method_id, total);
        append(&mut self.shipping_lines, shipping_line);
        self
    }

    /// Adds a fee line after those already there.
    pub fn fee_line(
        &mut self,
        name: &str,
        tax_class: &str,
        tax_status: TaxStatus,
        total: &str,
    ) -> (ret: &mut Self)
        ensures
            ret@ == old(self)@.push_fee_line(
                OrderFeeLineView::new(name@, tax_class@, tax_status, total@),
            ),
            *final(self) == *final(ret),
    {
        let fee_line = OrderFeeLineCreate {
            name: name.to_owned(),
            tax_class: tax_class.to_owned(),
            tax_status,
            total: total.to_owned(),
            meta_data: None,
        };
        append(&mut self.fee_lines, fee_line);
        self
    }

    /// Adds a coupon after those already there.
    pub fn coupon_line(&mut self, code: &str) -> (ret: &mut Self)
        ensures
            ret@ == old(self)@.push_coupon_line((OrderCouponLineView { code: code@ })),
            *final(self) == *final(ret),
    {
        let coupon = OrderCouponLineCreate { code: code.to_owned() };
        append(&mut self.coupon_lines, coupon);
        self
    }

    /// Whether the order is paid. A paid order is set to processing and its
    /// items leave the stock.
    pub fn set_paid(&mut self, paid: bool) -> (ret: &mut Self)
        ensures
            ret@ == (OrderDraft { set_paid: Some(paid), ..old(self)@ }),
            *final(self) == *final(ret),
    {
        self.set_paid = Some(paid);
        self
    }

    /// The request for what has been supplied, or the reason there is none.
    ///
    /// An order needs a billing email. If no billing leaf was ever set, or the
    /// billing email is empty, nothing is built and the error names
    /// `billing.email`. Otherwise the request holds what was supplied, with
    /// defaults for the rest. The builder is left as it was and can be used
    /// again.
    pub fn build(&self) -> (res: Result<CreateOrder, BuildError>)
        ensures
            self@.has_billing_email() ==> res is Ok && res->Ok_0@ == self@.create_order(),
            !self@.has_billing_email() ==> res is Err && res->Err_0.field() == "billing.email"@,
    {
        let billing = match &self.billing {
            Some(billing) => billing.clone(),
            None => {
                return Err(BuildError::MissingRequiredField(BILLING_EMAIL));
            },
        };
        if billing.email.as_str().is_empty() {
            return Err(BuildError::MissingRequiredField(BILLING_EMAIL));
        }
        Ok(
            CreateOrder {
                parent_id: self.parent_id,
                status: self.status.unwrap_or_default(),
                currency: self.currency.unwrap_or_default(),
                customer_id: self.customer_id.unwrap_or(0),
                customer_note: self.customer_note.clone(),
                billing,
                shipping: self.shipping.clone().unwrap_or_default(),
                payment_method: self.payment_method.clone().unwrap_or_default(),
                payment_method_title: self.payment_method_title.clone().unwrap_or_default(),
                transaction_id: self.transaction_id.clone(),
                meta_data: clone_list(&self.meta_data).unwrap_or_default(),
                line_items: clone_list(&self.line_items).unwrap_or_default(),
                shipping_lines: clone_list(&self.shipping_lines).unwrap_or_default(),
                fee_lines: clone_list(&self.fee_lines).unwrap_or_default(),
                coupon_lines: clone_list(&self.coupon_lines).unwrap_or_default(),
                set_paid: self.set_paid.unwrap_or_default(),
            },
        )
    }
}

} // verus!
