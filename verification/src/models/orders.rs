//! Vocabulary of the order resource.
use vstd::prelude::*;

verus! {

/// Where an order stands.
#[derive(Clone, Copy, Debug, PartialEq, Eq, Structural)]
pub enum OrderStatus {
    Pending,
    Processing,
    OnHold,
    Completed,
    Cancelled,
    Refunded,
    Failed,
    Trash,
}

impl OrderStatus {
    /// The token the store uses for this status.
    pub open spec fn token(self) -> Seq<char> {
        match self {
            OrderStatus::Pending => "pending"@,
            OrderStatus::Processing => "processing"@,
            OrderStatus::OnHold => "on-hold"@,
            OrderStatus::Completed => "completed"@,
            OrderStatus::Cancelled => "cancelled"@,
            OrderStatus::Refunded => "refunded"@,
            OrderStatus::Failed => "failed"@,
            OrderStatus::Trash => "trash"@,
        }
    }

    /// The token the store uses for this status.
    pub fn as_str(&self) -> (res: &'static str)
        ensures
            res@ == self.token(),
    {
        match self {
            OrderStatus::Pending => "pending",
            OrderStatus::Processing => "processing",
            OrderStatus::OnHold => "on-hold",
            OrderStatus::Completed => "completed",
            OrderStatus::Cancelled => "cancelled",
            OrderStatus::Refunded => "refunded",
            OrderStatus::Failed => "failed",
            OrderStatus::Trash => "trash",
        }
    }
}

impl Default for OrderStatus {
    /// An order that was given no status is pending.
    fn default() -> (res: Self)
        ensures
            res == OrderStatus::Pending,
    {
        OrderStatus::Pending
    }
}

/// Whether a fee is taxed.
#[derive(Clone, Copy, Debug, PartialEq, Eq, Structural)]
pub enum TaxStatus {
    /// Tax is charged on the fee.
    Taxable,
    /// No tax is charged on the fee; the store's token for it is `none`.
    NotTaxable,
}

impl TaxStatus {
    /// The token the store uses for this tax status.
    pub open spec fn token(self) -> Seq<char> {
        match self {
            TaxStatus::Taxable => "taxable"@,
            TaxStatus::NotTaxable => "none"@,
        }
    }

    /// The token the store uses for this tax status.
    pub fn as_str(&self) -> (res: &'static str)
        ensures
            res@ == self.token(),
    {
        match self {
            TaxStatus::Taxable => "taxable",
            TaxStatus::NotTaxable => "none",
        }
    }
}

} // verus!
