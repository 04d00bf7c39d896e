//! Vocabulary of the product review resource.
use vstd::prelude::*;

verus! {

/// Moderation state of a review.
#[derive(Clone, Copy, Debug, PartialEq, Eq, Structural)]
pub enum ReviewStatus {
    Approved,
    Hold,
    Spam,
    Unspam,
    Trash,
    Untrash,
}

impl ReviewStatus {
    /// The token the store uses for this state.
    pub open spec fn token(self) -> Seq<char> {
        match self {
            ReviewStatus::Approved => "approved"@,
            ReviewStatus::Hold => "hold"@,
            ReviewStatus::Spam => "spam"@,
            ReviewStatus::Unspam => "unspam"@,
            ReviewStatus::Trash => "trash"@,
            ReviewStatus::Untrash => "untrash"@,
        }
    }

    /// The token the store uses for this state.
    pub fn as_str(&self) -> (res: &'static str)
        ensures
            res@ == self.token(),
    {
        match self {
            ReviewStatus::Approved => "approved",
            ReviewStatus::Hold => "hold",
            ReviewStatus::Spam => "spam",
            ReviewStatus::Unspam => "unspam",
            ReviewStatus::Trash => "trash",
            ReviewStatus::Untrash => "untrash",
        }
    }
}

impl Default for ReviewStatus {
    /// A review that was given no status is approved.
    fn default() -> (res: Self)
        ensures
            res == ReviewStatus::Approved,
    {
        ReviewStatus::Approved
    }
}

} // verus!
