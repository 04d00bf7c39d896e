//! The lines of an order: products, shipping, fees and coupons.
use crate::lists::append;
use crate::lists::appended;
use crate::lists::clone_list;
use crate::models::orders::TaxStatus;
use crate::models::MetaData;
use crate::models::MetaDataView;
use vstd::prelude::*;

verus! {

/// A product on an order. Only the product and the quantity are needed; the
/// rest is sent only if it was set.
#[derive(Debug, PartialEq, Eq)]
pub struct OrderLineItemCreate {
    /// Product ID.
    pub product_id: i32,
    /// Variation ID, if the product is a variation.
    pub variation_id: Option<i32>,
    /// Quantity ordered.
    pub quantity: i32,
    /// Slug of the tax class of the product.
    pub tax_class: Option<String>,
    /// Line subtotal (before discounts).
    pub subtotal: Option<String>,
    /// Line total (after discounts).
    pub total: Option<String>,
    /// Meta data, in the order it was added.
    pub meta_data: Option<Vec<MetaData>>,
    /// Product price.
    pub price: Option<String>,
}

/// What an [`OrderLineItemCreate`] holds.
#[verifier::ext_equal]
pub struct OrderLineItemView {
    pub product_id: i32,
    pub variation_id: Option<i32>,
    pub quantity: i32,
    pub tax_class: Option<Seq<char>>,
    pub subtotal: Option<Seq<char>>,
    pub total: Option<Seq<char>>,
    pub meta_data: Option<Seq<MetaDataView>>,
    pub price: Option<Seq<char>>,
}

impl OrderLineItemView {
    /// A line for `quantity` of `product_id` with nothing else set.
    pub open spec fn new(product_id: i32, quantity: i32) -> OrderLineItemView {
        OrderLineItemView {
            product_id,
            variation_id: None,
            quantity,
            tax_class: None,
            subtotal: None,
            total: None,
            meta_data: None,
            price: None,
        }
    }
}

impl View for OrderLineItemCreate {
    type V = OrderLineItemView;

    open spec fn view(&self) -> OrderLineItemView {
        OrderLineItemView {
            product_id: self.product_id,
            variation_id: self.variation_id,
            quantity: self.quantity,
            tax_class: self.tax_class.deep_view(),
            subtotal: self.subtotal.deep_view(),
            total: self.total.deep_view(),
            meta_data: self.meta_data.deep_view(),
            price: self.price.deep_view(),
        }
    }
}

impl DeepView for OrderLineItemCreate {
    type V = OrderLineItemView;

    open spec fn deep_view(&self) -> OrderLineItemView {
        self@
    }
}

impl Default for OrderLineItemCreate {
    /// Product 0, quantity 0, nothing else set.
    fn default() -> (res: Self)
        ensures
            res@ == OrderLineItemView::new(0, 0),
    {
        OrderLineItemCreate::new(0, 0)
    }
}

impl Clone for OrderLineItemCreate {
    fn clone(&self) -> (res: Self)
        ensures
            res@ == self@,
    {
        OrderLineItemCreate {
            product_id: self.product_id,
            variation_id: self.variation_id,
            quantity: self.quantity,
            tax_class: self.tax_class.clone(),
            subtotal: self.subtotal.clone(),
            total: self.total.clone(),
            meta_data: clone_list(&self.meta_data),
            price: self.price.clone(),
        }
    }
}

impl OrderLineItemCreate {
    /// A line for `quantity` of the product `product_id`.
    pub fn new(product_id: i32, quantity: i32) -> (res: Self)
        ensures
            res@ == OrderLineItemView::new(product_id, quantity),
    {
        OrderLineItemCreate {
            product_id,
            variation_id: None,
            quantity,
            tax_class: None,
            subtotal: None,
            total: None,
            meta_data: None,
            price: None,
        }
    }

    /// Names the variation of the product.
    pub fn variation_id(self, variation_id: i32) -> (res: Self)
        ensures
            res@ == (OrderLineItemView { variation_id: Some(variation_id), ..self@ }),
    {
        let mut line = self;
        line.variation_id = Some(variation_id);
        line
    }

    /// Slug of the tax class of the product.
    pub fn tax_class(self, tax_class: &str) -> (res: Self)
        ensures
            res@ == (OrderLineItemView { tax_class: Some(tax_class@), ..self@ }),
    {
        let mut line = self;
        line.tax_class = Some(tax_class.to_owned());
        line
    }

    /// Line subtotal (before discounts).
    pub fn subtotal(self, subtotal: &str) -> (res: Self)
        ensures
            res@ == (OrderLineItemView { subtotal: Some(subtotal@), ..self@ }),
    {
        let mut line = self;
        line.subtotal = Some(subtotal.to_owned());
        line
    }

    /// Line total (after discounts).
    pub fn total(self, total: &str) -> (res: Self)
        ensures
            res@ == (OrderLineItemView { total: Some(total@), ..self@ }),
    {
        let mut line = self;
        line.total = Some(total.to_owned());
        line
    }

    /// Adds a metadata entry after those already there.
    pub fn meta_data(self, key: &str, value: serde_json::Value) -> (res: Self)
        ensures
            res@ == (OrderLineItemView {
                meta_data: appended(self@.meta_data, MetaDataView::unsaved(key@, value)),
                ..self@
            }),
    {
        let mut line = self;
        append(&mut line.meta_data, MetaData::unsaved(key, value));
        line
    }

    /// Product price.
    pub fn price(self, price: &str) -> (res: Self)
        ensures
            res@ == (OrderLineItemView { price: Some(price@), ..self@ }),
    {
        let mut line = self;
        line.price = Some(price.to_owned());
        line
    }
}

/// A shipping charge on an order.
#[derive(Debug, PartialEq, Eq)]
pub struct ShippingLineCreate {
    /// Shipping method name.
    pub method_title: String,
    /// Shipping method ID.
    pub method_id: String,
    /// Line total (after discounts).
    pub total: String,
    /// Meta data, in the order it was added.
    pub meta_data: Option<Vec<MetaData>>,
}

/// What a [`ShippingLineCreate`] holds.
#[verifier::ext_equal]
pub struct ShippingLineView {
    pub method_title: Seq<char>,
    pub method_id: Seq<char>,
    pub total: Seq<char>,
    pub meta_data: Option<Seq<MetaDataView>>,
}

impl ShippingLineView {
    /// A shipping line with its three mandatory parts and no metadata.
    pub open spec fn new(
        method_title: Seq<char>,
        method_id: Seq<char>,
        total: Seq<char>,
    ) -> ShippingLineView {
        ShippingLineView { method_title, method_id, total, meta_data: None }
    }
}

impl View for ShippingLineCreate {
    type V = ShippingLineView;

    open spec fn view(&self) -> ShippingLineView {
        ShippingLineView {
            method_title: self.method_title@,
            method_id: self.method_id@,
            total: self.total@,
            meta_data: self.meta_data.deep_view(),
        }
    }
}

impl DeepView for ShippingLineCreate {
    type V = ShippingLineView;

    open spec fn deep_view(&self) -> ShippingLineView {
        self@
    }
}

impl Default for ShippingLineCreate {
    /// Every text empty, no metadata.
    fn default() -> (res: Self)
        ensures
            res@ == ShippingLineView::new(Seq::empty(), Seq::empty(), Seq::empty()),
    {
        ShippingLineCreate {
            method_title: String::new(),
            method_id: String::new(),
            total: String::new(),
            meta_data: None,
        }
    }
}

impl Clone for ShippingLineCreate {
    fn clone(&self) -> (res: Self)
        ensures
            res@ == self@,
    {
        ShippingLineCreate {
            method_title: self.method_title.clone(),
            method_id: self.method_id.clone(),
            total: self.total.clone(),
            meta_data: clone_list(&self.meta_data),
        }
    }
}

impl ShippingLineCreate {
    /// A shipping line. Its three parts are given together, so none can be
    /// missing.
    pub fn new(method_title: &str, method_id: &str, total: &str) -> (res: Self)
        ensures
            res@ == ShippingLineView::new(method_title@, method_id@, total@),
    {
        ShippingLineCreate {
            method_title: method_title.to_owned(),
            method_id: method_id.to_owned(),
            total: total.to_owned(),
            meta_data: None,
        }
    }

    /// Replaces the line total (after discounts).
    pub fn total(self, total: &str) -> (res: Self)
        ensures
            res@ == (ShippingLineView { total: total@, ..self@ }),
    {
        let mut line = self;
        line.total = total.to_owned();
        line
    }

    /// Adds a metadata entry after those already there.
    pub fn meta_data(self, key: &str, value: serde_json::Value) -> (res: Self)
        ensures
            res@ == (ShippingLineView {
                meta_data: appended(self@.meta_data, MetaDataView::unsaved(key@, value)),
                ..self@
            }),
    {
        let mut line = self;
        append(&mut line.meta_data, MetaData::unsaved(key, value));
        line
    }
}

/// A fee on an order.
#[derive(Debug, PartialEq, Eq)]
pub struct OrderFeeLineCreate {
    /// Fee name.
    pub name: String,
    /// Tax class of fee.
    pub tax_class: String,
    /// Tax status of fee.
    pub tax_status: TaxStatus,
    /// Line total (after discounts).
    pub total: String,
    /// Meta data, in the order it was added.
    pub meta_data: Option<Vec<MetaData>>,
}

/// What an [`OrderFeeLineCreate`] holds.
#[verifier::ext_equal]
pub struct OrderFeeLineView {
    pub name: Seq<char>,
    pub tax_class: Seq<char>,
    pub tax_status: TaxStatus,
    pub total: Seq<char>,
    pub meta_data: Option<Seq<MetaDataView>>,
}

impl OrderFeeLineView {
    /// A fee line without metadata.
    pub open spec fn new(
        name: Seq<char>,
        tax_class: Seq<char>,
        tax_status: TaxStatus,
        total: Seq<char>,
    ) -> OrderFeeLineView {
        OrderFeeLineView { name, tax_class, tax_status, total, meta_data: None }
    }
}

impl View for OrderFeeLineCreate {
    type V = OrderFeeLineView;

    open spec fn view(&self) -> OrderFeeLineView {
        OrderFeeLineView {
            name: self.name@,
            tax_class: self.tax_class@,
            tax_status: self.tax_status,
            total: self.total@,
            meta_data: self.meta_data.deep_view(),
        }
    }
}

impl DeepView for OrderFeeLineCreate {
    type V = OrderFeeLineView;

    open spec fn deep_view(&self) -> OrderFeeLineView {
        self@
    }
}

impl Clone for OrderFeeLineCreate {
    fn clone(&self) -> (res: Self)
        ensures
            res@ == self@,
    {
        OrderFeeLineCreate {
            name: self.name.clone(),
            tax_class: self.tax_class.clone(),
            tax_status: self.tax_status,
            total: self.total.clone(),
            meta_data: clone_list(&self.meta_data),
        }
    }
}

/// A coupon applied to an order.
#[derive(Debug, PartialEq, Eq)]
pub struct OrderCouponLineCreate {
    /// Coupon code.
    pub code: String,
}

/// What an [`OrderCouponLineCreate`] holds.
#[verifier::ext_equal]
pub struct OrderCouponLineView {
    pub code: Seq<char>,
}

impl View for OrderCouponLineCreate {
    type V = OrderCouponLineView;

    open spec fn view(&self) -> OrderCouponLineView {
        OrderCouponLineView { code: self.code@ }
    }
}

impl DeepView for OrderCouponLineCreate {
    type V = OrderCouponLineView;

    open spec fn deep_view(&self) -> OrderCouponLineView {
        self@
    }
}

impl Clone for OrderCouponLineCreate {
    fn clone(&self) -> (res: Self)
        ensures
            res@ == self@,
    {
        OrderCouponLineCreate { code: self.code.clone() }
    }
}

} // verus!
