//! What an order builder has been told so far, as a mathematical value.
//!
//! Both order builders are modelled by an [`OrderDraft`]. The functions here
//! say what each kind of setter does to a draft and what order a draft stands
//! for once it is complete; the laws below them are proved, not assumed.
use crate::controllers::orders::create::CreateOrderView;
use crate::controllers::orders::lines::OrderCouponLineView;
use crate::controllers::orders::lines::OrderFeeLineView;
use crate::controllers::orders::lines::OrderLineItemView;
use crate::controllers::orders::lines::ShippingLineView;
use crate::lists::appended;
use crate::lists::or_empty;
use crate::models::customers::BillingLeaf;
use crate::models::customers::BillingView;
use crate::models::customers::ShippingLeaf;
use crate::models::customers::ShippingView;
use crate::models::data::CurrencyISO;
use crate::models::orders::OrderStatus;
use crate::models::MetaDataView;
use vstd::prelude::*;

verus! {

/// The fields of an order that a caller has supplied. `None` means "never
/// supplied": a create request fills it with a default, an update request
/// leaves that field of the stored order alone.
#[verifier::ext_equal]
pub struct OrderDraft {
    /// The order to change; never supplied while creating one.
    pub id: Option<i32>,
    pub parent_id: Option<i32>,
    pub status: Option<OrderStatus>,
    pub currency: Option<CurrencyISO>,
    pub customer_id: Option<i32>,
    pub customer_note: Option<Seq<char>>,
    pub billing: Option<BillingView>,
    pub shipping: Option<ShippingView>,
    pub payment_method: Option<Seq<char>>,
    pub payment_method_title: Option<Seq<char>>,
    pub transaction_id: Option<Seq<char>>,
    pub meta_data: Option<Seq<MetaDataView>>,
    pub line_items: Option<Seq<OrderLineItemView>>,
    pub shipping_lines: Option<Seq<ShippingLineView>>,
    pub fee_lines: Option<Seq<OrderFeeLineView>>,
    pub coupon_lines: Option<Seq<OrderCouponLineView>>,
    pub set_paid: Option<bool>,
}

impl OrderDraft {
    /// The draft of a builder that has been told nothing.
    pub open spec fn empty() -> OrderDraft {
        OrderDraft {
            id: None,
            parent_id: None,
            status: None,
            currency: None,
            customer_id: None,
            customer_note: None,
            billing: None,
            shipping: None,
            payment_method: None,
            payment_method_title: None,
            transaction_id: None,
            meta_data: None,
            line_items: None,
            shipping_lines: None,
            fee_lines: None,
            coupon_lines: None,
            set_paid: None,
        }
    }

    /// The billing address so far; the empty one if no leaf was set yet.
    pub open spec fn billing_or_empty(self) -> BillingView {
        match self.billing {
            Some(billing) => billing,
            None => BillingView::empty(),
        }
    }

    /// The shipping address so far; the empty one if no leaf was set yet.
    pub open spec fn shipping_or_empty(self) -> ShippingView {
        match self.shipping {
            Some(shipping) => shipping,
            None => ShippingView::empty(),
        }
    }

    /// The draft after one leaf of the billing address was set: the address
    /// is present, that leaf holds `text`, and every other leaf is what it was
    /// (empty, if the address was absent before).
    pub open spec fn set_billing(self, leaf: BillingLeaf, text: Seq<char>) -> OrderDraft {
        OrderDraft { billing: Some(self.billing_or_empty().with(leaf, text)), ..self }
    }

    /// The draft after one leaf of the shipping address was set: the address
    /// is present, that leaf holds `text`, and every other leaf is what it was
    /// (empty, if the address was absent before).
    pub open spec fn set_shipping(self, leaf: ShippingLeaf, text: Seq<char>) -> OrderDraft {
        OrderDraft { shipping: Some(self.shipping_or_empty().with(leaf, text)), ..self }
    }

    /// The draft after a metadata entry was added at the end of its list.
    pub open spec fn push_meta_data(self, entry: MetaDataView) -> OrderDraft {
        OrderDraft { meta_data: appended(self.meta_data, entry), ..self }
    }

    /// The draft after a product line was added at the end of its list.
    pub open spec fn push_line_item(self, item: OrderLineItemView) -> OrderDraft {
        OrderDraft { line_items: appended(self.line_items, item), ..self }
    }

    /// The draft after a shipping line was added at the end of its list.
    pub open spec fn push_shipping_line(self, line: ShippingLineView) -> OrderDraft {
        OrderDraft { shipping_lines: appended(self.shipping_lines, line), ..self }
    }

    /// The draft after a fee line was added at the end of its list.
    pub open spec fn push_fee_line(self, line: OrderFeeLineView) -> OrderDraft {
        OrderDraft { fee_lines: appended(self.fee_lines, line), ..self }
    }

    /// The draft after a coupon line was added at the end of its list.
    pub open spec fn push_coupon_line(self, line: OrderCouponLineView) -> OrderDraft {
        OrderDraft { coupon_lines: appended(self.coupon_lines, line), ..self }
    }

    /// Whether the one mandatory field of a new order is there: a billing
    /// address whose email is not empty.
    pub open spec fn has_billing_email(self) -> bool {
        self.billing matches Some(billing) && billing.email.len() > 0
    }

    /// The order that a complete draft stands for. Fields that were never
    /// supplied take their defaults: a pending order in US dollars, placed by
    /// a guest (customer 0), not paid, with empty texts and empty lists. The
    /// parent, the customer's note and the transaction stay absent.
    pub open spec fn create_order(self) -> CreateOrderView {
        CreateOrderView {
            parent_id: self.parent_id,
            status: match self.status {
                Some(status) => status,
                None => OrderStatus::Pending,
            },
            currency: match self.currency {
                Some(currency) => currency,
                None => CurrencyISO::USD,
            },
            customer_id: match self.customer_id {
                Some(customer_id) => customer_id,
                None => 0,
            },
            customer_note: self.customer_note,
            billing: self.billing_or_empty(),
            shipping: self.shipping_or_empty(),
            payment_method: match self.payment_method {
                Some(payment_method) => payment_method,
                None => Seq::empty(),
            },
            payment_method_title: match self.payment_method_title {
                Some(payment_method_title) => payment_method_title,
                None => Seq::empty(),
            },
            transaction_id: self.transaction_id,
            meta_data: or_empty(self.meta_data),
            line_items: or_empty(self.line_items),
            shipping_lines: or_empty(self.shipping_lines),
            fee_lines: or_empty(self.fee_lines),
            coupon_lines: or_empty(self.coupon_lines),
            set_paid: match self.set_paid {
                Some(paid) => paid,
                None => false,
            },
        }
    }
}

/// Setting a billing leaf stores the text in that leaf and changes no other
/// leaf: what was set before stays set.
pub proof fn lemma_set_billing_touches_one_leaf(
    draft: OrderDraft,
    leaf: BillingLeaf,
    text: Seq<char>,
    other: BillingLeaf,
)
    ensures
        draft.set_billing(leaf, text).billing is Some,
        draft.set_billing(leaf, text).billing_or_empty().leaf(leaf) == text,
        other != leaf ==> draft.set_billing(leaf, text).billing_or_empty().leaf(other)
            == draft.billing_or_empty().leaf(other),
{
}

/// Setting two different billing leaves gives the same draft in either order.
pub proof fn lemma_set_billing_commutes(
    draft: OrderDraft,
    first: BillingLeaf,
    first_text: Seq<char>,
    second: BillingLeaf,
    second_text: Seq<char>,
)
    requires
        first != second,
    ensures
        draft.set_billing(first, first_text).set_billing(second, second_text)
            == draft.set_billing(second, second_text).set_billing(first, first_text),
{
}

/// Setting a billing leaf twice keeps the last text only; setting it twice to
/// the same text is the same as setting it once.
pub proof fn lemma_set_billing_last_write_wins(
    draft: OrderDraft,
    leaf: BillingLeaf,
    earlier: Seq<char>,
    later: Seq<char>,
)
    ensures
        draft.set_billing(leaf, earlier).set_billing(leaf, later) == draft.set_billing(leaf, later),
        draft.set_billing(leaf, later).set_billing(leaf, later) == draft.set_billing(leaf, later),
{
}

/// Setting a shipping leaf stores the text in that leaf and changes no other
/// leaf: what was set before stays set.
pub proof fn lemma_set_shipping_touches_one_leaf(
    draft: OrderDraft,
    leaf: ShippingLeaf,
    text: Seq<char>,
    other: ShippingLeaf,
)
    ensures
        draft.set_shipping(leaf, text).shipping is Some,
        draft.set_shipping(leaf, text).shipping_or_empty().leaf(leaf) == text,
        other != leaf ==> draft.set_shipping(leaf, text).shipping_or_empty().leaf(other)
            == draft.shipping_or_empty().leaf(other),
{
}

/// Setting two different shipping leaves gives the same draft in either
/// order.
pub proof fn lemma_set_shipping_commutes(
    draft: OrderDraft,
    first: ShippingLeaf,
    first_text: Seq<char>,
    second: ShippingLeaf,
    second_text: Seq<char>,
)
    requires
        first != second,
    ensures
        draft.set_shipping(first, first_text).set_shipping(second, second_text)
            == draft.set_shipping(second, second_text).set_shipping(first, first_text),
{
}

/// Setting a shipping leaf twice keeps the last text only; setting it twice
/// to the same text is the same as setting it once.
pub proof fn lemma_set_shipping_last_write_wins(
    draft: OrderDraft,
    leaf: ShippingLeaf,
    earlier: Seq<char>,
    later: Seq<char>,
)
    ensures
        draft.set_shipping(leaf, earlier).set_shipping(leaf, later) == draft.set_shipping(
            leaf,
            later,
        ),
        draft.set_shipping(leaf, later).set_shipping(leaf, later) == draft.set_shipping(
            leaf,
            later,
        ),
{
}

/// The two addresses do not disturb each other: a billing leaf and a shipping
/// leaf can be set in either order.
pub proof fn lemma_billing_and_shipping_commute(
    draft: OrderDraft,
    billing_leaf: BillingLeaf,
    billing_text: Seq<char>,
    shipping_leaf: ShippingLeaf,
    shipping_text: Seq<char>,
)
    ensures
        draft.set_billing(billing_leaf, billing_text).set_shipping(shipping_leaf, shipping_text)
            == draft.set_shipping(shipping_leaf, shipping_text).set_billing(
            billing_leaf,
            billing_text,
        ),
{
}

/// On a builder that has been told nothing, setting the billing city and the
/// billing state, in either order, gives a billing address with exactly those
/// two leaves filled and every other leaf empty.
pub proof fn lemma_fresh_billing_city_and_state(city: Seq<char>, state: Seq<char>)
    ensures
        OrderDraft::empty().set_billing(BillingLeaf::City, city).set_billing(
            BillingLeaf::State,
            state,
        ).billing == Some((BillingView { city, state, ..BillingView::empty() })),
        OrderDraft::empty().set_billing(BillingLeaf::State, state).set_billing(
            BillingLeaf::City,
            city,
        ).billing == Some((BillingView { city, state, ..BillingView::empty() })),
{
}

/// Only the billing email decides whether an order can be built: setting it
/// makes the draft complete exactly when the text is not empty, and setting
/// any other leaf, of either address, changes nothing about that.
pub proof fn lemma_only_billing_email_completes(
    draft: OrderDraft,
    leaf: BillingLeaf,
    shipping_leaf: ShippingLeaf,
    text: Seq<char>,
)
    ensures
        draft.set_billing(BillingLeaf::Email, text).has_billing_email() <==> text.len() > 0,
        leaf != BillingLeaf::Email ==> (draft.set_billing(leaf, text).has_billing_email()
            <==> draft.has_billing_email()),
        draft.set_shipping(shipping_leaf, text).has_billing_email() <==> draft.has_billing_email(),
        !OrderDraft::empty().has_billing_email(),
{
}

/// The order built from a complete draft has the draft's billing email, which
/// is not empty.
pub proof fn lemma_created_order_has_billing_email(draft: OrderDraft)
    requires
        draft.has_billing_email(),
    ensures
        draft.create_order().billing == draft.billing->0,
        draft.create_order().billing.email.len() > 0,
{
}

/// An order for which only the mandatory field was supplied: it can be built,
/// its three optional fields are absent, its lists are empty, and everything
/// else has its default.
pub proof fn lemma_minimal_order(email: Seq<char>)
    requires
        email.len() > 0,
    ensures
        OrderDraft::empty().set_billing(BillingLeaf::Email, email).has_billing_email(),
        OrderDraft::empty().set_billing(BillingLeaf::Email, email).create_order() == (
        CreateOrderView {
            parent_id: None,
            status: OrderStatus::Pending,
            currency: CurrencyISO::USD,
            customer_id: 0,
            customer_note: None,
            billing: BillingView { email, ..BillingView::empty() },
            shipping: ShippingView::empty(),
            payment_method: Seq::empty(),
            payment_method_title: Seq::empty(),
            transaction_id: None,
            meta_data: Seq::empty(),
            line_items: Seq::empty(),
            shipping_lines: Seq::empty(),
            fee_lines: Seq::empty(),
            coupon_lines: Seq::empty(),
            set_paid: false,
        }),
{
}

/// Product lines come out in the order they went in: after adding `a`, `b`
/// and `c`, the list is what it was, followed by exactly `a`, `b`, `c`. None
/// is dropped, even if two of them are equal. The built order has the same
/// list.
pub proof fn lemma_line_items_keep_order(
    draft: OrderDraft,
    a: OrderLineItemView,
    b: OrderLineItemView,
    c: OrderLineItemView,
)
    ensures
        draft.push_line_item(a).push_line_item(b).push_line_item(c).line_items == Some(
            or_empty(draft.line_items) + seq![a, b, c],
        ),
        draft.push_line_item(a).push_line_item(b).push_line_item(c).create_order().line_items
            == or_empty(draft.line_items) + seq![a, b, c],
        OrderDraft::empty().push_line_item(a).push_line_item(b).push_line_item(
            c,
        ).create_order().line_items == seq![a, b, c],
{
}

/// Adding to one list leaves the other lists, and every scalar, as they
/// were.
pub proof fn lemma_lists_are_independent(
    draft: OrderDraft,
    item: OrderLineItemView,
    entry: MetaDataView,
)
    ensures
        draft.push_line_item(item).meta_data == draft.meta_data,
        draft.push_meta_data(entry).line_items == draft.line_items,
        draft.push_line_item(item).push_meta_data(entry) == draft.push_meta_data(
            entry,
        ).push_line_item(item),
        draft.push_line_item(item) == (OrderDraft {
            line_items: draft.push_line_item(item).line_items,
            ..draft
        }),
{
}

} // verus!
