//! Postal addresses attached to an order.
use vstd::prelude::*;

verus! {

/// Where the invoice goes.
#[derive(Debug, PartialEq, Eq)]
pub struct Billing {
    /// First name.
    pub first_name: String,
    /// Last name.
    pub last_name: String,
    /// Company name.
    pub company: String,
    /// Address line 1.
    pub address_1: String,
    /// Address line 2.
    pub address_2: String,
    /// City name.
    pub city: String,
    /// ISO code or name of the state, province or district.
    pub state: String,
    /// Postal code.
    pub postcode: String,
    /// ISO code of the country.
    pub country: String,
    /// Email address.
    pub email: String,
    /// Phone number.
    pub phone: String,
}

/// What a [`Billing`] holds: each leaf as the sequence of its characters.
#[verifier::ext_equal]
pub struct BillingView {
    pub first_name: Seq<char>,
    pub last_name: Seq<char>,
    pub company: Seq<char>,
    pub address_1: Seq<char>,
    pub address_2: Seq<char>,
    pub city: Seq<char>,
    pub state: Seq<char>,
    pub postcode: Seq<char>,
    pub country: Seq<char>,
    pub email: Seq<char>,
    pub phone: Seq<char>,
}

/// The leaves of a [`Billing`] address, by name.
#[derive(Clone, Copy, Debug, PartialEq, Eq)]
pub enum BillingLeaf {
    FirstName,
    LastName,
    Company,
    Address1,
    Address2,
    City,
    State,
    Postcode,
    Country,
    Email,
    Phone,
}

impl BillingView {
    /// The address with every leaf empty.
    pub open spec fn empty() -> BillingView {
        BillingView {
            first_name: Seq::empty(),
            last_name: Seq::empty(),
            company: Seq::empty(),
            address_1: Seq::empty(),
            address_2: Seq::empty(),
            city: Seq::empty(),
            state: Seq::empty(),
            postcode: Seq::empty(),
            country: Seq::empty(),
            email: Seq::empty(),
            phone: Seq::empty(),
        }
    }

    /// What the leaf `leaf` holds.
    pub open spec fn leaf(self, leaf: BillingLeaf) -> Seq<char> {
        match leaf {
            BillingLeaf::FirstName => self.first_name,
            BillingLeaf::LastName => self.last_name,
            BillingLeaf::Company => self.company,
            BillingLeaf::Address1 => self.address_1,
            BillingLeaf::Address2 => self.address_2,
            BillingLeaf::City => self.city,
            BillingLeaf::State => self.state,
            BillingLeaf::Postcode => self.postcode,
            BillingLeaf::Country => self.country,
            BillingLeaf::Email => self.email,
            BillingLeaf::Phone => self.phone,
        }
    }

    /// The address with `text` in the leaf `leaf` and every other leaf as it
    /// is.
    pub open spec fn with(self, leaf: BillingLeaf, text: Seq<char>) -> BillingView {
        match leaf {
            BillingLeaf::FirstName => BillingView { first_name: text, ..self },
            BillingLeaf::LastName => BillingView { last_name: text, ..self },
            BillingLeaf::Company => BillingView { company: text, ..self },
            BillingLeaf::Address1 => BillingView { address_1: text, ..self },
            BillingLeaf::Address2 => BillingView { address_2: text, ..self },
            BillingLeaf::City => BillingView { city: text, ..self },
            BillingLeaf::State => BillingView { state: text, ..self },
            BillingLeaf::Postcode => BillingView { postcode: text, ..self },
            BillingLeaf::Country => BillingView { country: text, ..self },
            BillingLeaf::Email => BillingView { email: text, ..self },
            BillingLeaf::Phone => BillingView { phone: text, ..self },
        }
    }
}

impl View for Billing {
    type V = BillingView;

    open spec fn view(&self) -> BillingView {
        BillingView {
            first_name: self.first_name@,
            last_name: self.last_name@,
            company: self.company@,
            address_1: self.address_1@,
            address_2: self.address_2@,
            city: self.city@,
            state: self.state@,
            postcode: self.postcode@,
            country: self.country@,
            email: self.email@,
            phone: self.phone@,
        }
    }
}

impl DeepView for Billing {
    type V = BillingView;

    open spec fn deep_view(&self) -> BillingView {
        self@
    }
}

impl Default for Billing {
    /// Every leaf empty.
    fn default() -> (res: Self)
        ensures
            res@ == BillingView::empty(),
    {
        Billing {
            first_name: String::new(),
            last_name: String::new(),
            company: String::new(),
            address_1: String::new(),
            address_2: String::new(),
            city: String::new(),
            state: String::new(),
            postcode: String::new(),
            country: String::new(),
            email: String::new(),
            phone: String::new(),
        }
    }
}

impl Clone for Billing {
    fn clone(&self) -> (res: Self)
        ensures
            res@ == self@,
    {
        Billing {
            first_name: self.first_name.clone(),
            last_name: self.last_name.clone(),
            company: self.company.clone(),
            address_1: self.address_1.clone(),
            address_2: self.address_2.clone(),
            city: self.city.clone(),
            state: self.state.clone(),
            postcode: self.postcode.clone(),
            country: self.country.clone(),
            email: self.email.clone(),
            phone: self.phone.clone(),
        }
    }
}

/// Where the goods go.
#[derive(Debug, PartialEq, Eq)]
pub struct Shipping {
    /// First name.
    pub first_name: String,
    /// Last name.
    pub last_name: String,
    /// Company name.
    pub company: String,
    /// Address line 1.
    pub address_1: String,
    /// Address line 2.
    pub address_2: String,
    /// City name.
    pub city: String,
    /// ISO code or name of the state, province or district.
    pub state: String,
    /// Postal code.
    pub postcode: String,
    /// ISO code of the country.
    pub country: String,
}

/// What a [`Shipping`] holds: each leaf as the sequence of its characters.
#[verifier::ext_equal]
pub struct ShippingView {
    pub first_name: Seq<char>,
    pub last_name: Seq<char>,
    pub company: Seq<char>,
    pub address_1: Seq<char>,
    pub address_2: Seq<char>,
    pub city: Seq<char>,
    pub state: Seq<char>,
    pub postcode: Seq<char>,
    pub country: Seq<char>,
}

/// The leaves of a [`Shipping`] address, by name.
#[derive(Clone, Copy, Debug, PartialEq, Eq)]
pub enum ShippingLeaf {
    FirstName,
    LastName,
    Company,
    Address1,
    Address2,
    City,
    State,
    Postcode,
    Country,
}

impl ShippingView {
    /// The address with every leaf empty.
    pub open spec fn empty() -> ShippingView {
        ShippingView {
            first_name: Seq::empty(),
            last_name: Seq::empty(),
            company: Seq::empty(),
            address_1: Seq::empty(),
            address_2: Seq::empty(),
            city: Seq::empty(),
            state: Seq::empty(),
            postcode: Seq::empty(),
            country: Seq::empty(),
        }
    }

    /// What the leaf `leaf` holds.
    pub open spec fn leaf(self, leaf: ShippingLeaf) -> Seq<char> {
        match leaf {
            ShippingLeaf::FirstName => self.first_name,
            ShippingLeaf::LastName => self.last_name,
            ShippingLeaf::Company => self.company,
            ShippingLeaf::Address1 => self.address_1,
            ShippingLeaf::Address2 => self.address_2,
            ShippingLeaf::City => self.city,
            ShippingLeaf::State => self.state,
            ShippingLeaf::Postcode => self.postcode,
            ShippingLeaf::Country => self.country,
        }
    }

    /// The address with `text` in the leaf `leaf` and every other leaf as it
    /// is.
    pub open spec fn with(self, leaf: ShippingLeaf, text: Seq<char>) -> ShippingView {
        match leaf {
            ShippingLeaf::FirstName => ShippingView { first_name: text, ..self },
            ShippingLeaf::LastName => ShippingView { last_name: text, ..self },
            ShippingLeaf::Company => ShippingView { company: text, ..self },
            ShippingLeaf::Address1 => ShippingView { address_1: text, ..self },
            ShippingLeaf::Address2 => ShippingView { address_2: text, ..self },
            ShippingLeaf::City => ShippingView { city: text, ..self },
            ShippingLeaf::State => ShippingView { state: text, ..self },
            ShippingLeaf::Postcode => ShippingView { postcode: text, ..self },
            ShippingLeaf::Country => ShippingView { country: text, ..self },
        }
    }
}

impl View for Shipping {
    type V = ShippingView;

    open spec fn view(&self) -> ShippingView {
        ShippingView {
            first_name: self.first_name@,
            last_name: self.last_name@,
            company: self.company@,
            address_1: self.address_1@,
            address_2: self.address_2@,
            city: self.city@,
            state: self.state@,
            postcode: self.postcode@,
            country: self.country@,
        }
    }
}

impl DeepView for Shipping {
    type V = ShippingView;

    open spec fn deep_view(&self) -> ShippingView {
        self@
    }
}

impl Default for Shipping {
    /// Every leaf empty.
    fn default() -> (res: Self)
        ensures
            res@ == ShippingView::empty(),
    {
        Shipping {
            first_name: String::new(),
            last_name: String::new(),
            company: String::new(),
            address_1: String::new(),
            address_2: String::new(),
            city: String::new(),
            state: String::new(),
            postcode: String::new(),
            country: String::new(),
        }
    }
}

impl Clone for Shipping {
    fn clone(&self) -> (res: Self)
        ensures
            res@ == self@,
    {
        Shipping {
            first_name: self.first_name.clone(),
            last_name: self.last_name.clone(),
            company: self.company.clone(),
            address_1: self.address_1.clone(),
            address_2: self.address_2.clone(),
            city: self.city.clone(),
            state: self.state.clone(),
            postcode: self.postcode.clone(),
            country: self.country.clone(),
        }
    }
}

} // verus!
