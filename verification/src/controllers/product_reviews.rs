//! Product reviews: the request models for creating and updating one, and
//! their builders.
//!
//! A new review needs a product and its author's email. The create-builder
//! records in its own type which of the two it has been given, and `build`
//! exists only on the type that has both: leaving one out is a compile error,
//! not a run-time one.
use crate::models::product_reviews::ReviewStatus;
use vstd::prelude::*;

verus! {

/// The rating that is stored for a rating that was asked for: the nearest
/// whole number from 0 to 5.
pub open spec fn clamped_rating(rating: i32) -> i32 {
    if rating >= 5 {
        5
    } else if rating <= 0 {
        0
    } else {
        rating
    }
}

/// Brings a rating into the range from 0 to 5. A rating outside the range is
/// never refused: it becomes the nearest bound.
pub fn clamp_rating(rating: i32) -> (res: i32)
    ensures
        res == clamped_rating(rating),
{
    if rating >= 5 {
        5
    } else if rating <= 0 {
        0
    } else {
        rating
    }
}

/// What a review builder has been told so far. `None` means "never
/// supplied".
#[verifier::ext_equal]
pub struct ReviewDraft {
    /// The review to change; never supplied while creating one.
    pub id: Option<i32>,
    pub product_id: Option<i32>,
    pub status: Option<ReviewStatus>,
    pub reviewer: Option<Seq<char>>,
    pub reviewer_email: Option<Seq<char>>,
    pub review: Option<Seq<char>>,
    pub rating: Option<i32>,
    pub verified: Option<bool>,
}

impl ReviewDraft {
    /// The draft of a builder that has been told nothing.
    pub open spec fn empty() -> ReviewDraft {
        ReviewDraft {
            id: None,
            product_id: None,
            status: None,
            reviewer: None,
            reviewer_email: None,
            review: None,
            rating: None,
            verified: None,
        }
    }

    /// Whether both mandatory fields of a new review were supplied.
    pub open spec fn is_complete(self) -> bool {
        self.product_id is Some && self.reviewer_email is Some
    }

    /// Whether the rating, if there is one, lies in the range from 0 to 5.
    pub open spec fn rating_in_range(self) -> bool {
        self.rating matches Some(rating) ==> 0 <= rating <= 5
    }

    /// The review that a complete draft stands for. Nothing is defaulted:
    /// what was not supplied stays absent.
    pub open spec fn create_review(self) -> ProductReviewCreateView
        recommends
            self.is_complete(),
    {
        ProductReviewCreateView {
            product_id: self.product_id->0,
            status: self.status,
            reviewer: self.reviewer,
            reviewer_email: self.reviewer_email->0,
            review: self.review,
            rating: self.rating,
            verified: self.verified,
        }
    }
}

/// The request that creates a review. A value of this type can only come out
/// of a builder that was given both mandatory fields, and its rating, if it has
/// one, lies in the range from 0 to 5.
#[derive(Debug, PartialEq, Eq)]
pub struct ProductReviewCreate {
    product_id: i32,
    status: Option<ReviewStatus>,
    reviewer: Option<String>,
    reviewer_email: String,
    review: Option<String>,
    rating: Option<i32>,
    verified: Option<bool>,
}

/// What a [`ProductReviewCreate`] holds. Optional fields are sent only when
/// they are present.
#[verifier::ext_equal]
pub struct ProductReviewCreateView {
    pub product_id: i32,
    pub status: Option<ReviewStatus>,
    pub reviewer: Option<Seq<char>>,
    pub reviewer_email: Seq<char>,
    pub review: Option<Seq<char>>,
    pub rating: Option<i32>,
    pub verified: Option<bool>,
}

impl View for ProductReviewCreate {
    type V = ProductReviewCreateView;

    closed spec fn view(&self) -> ProductReviewCreateView {
        ProductReviewCreateView {
            product_id: self.product_id,
            status: self.status,
            reviewer: self.reviewer.deep_view(),
            reviewer_email: self.reviewer_email@,
            review: self.review.deep_view(),
            rating: self.rating,
            verified: self.verified,
        }
    }
}

impl Clone for ProductReviewCreate {
    fn clone(&self) -> (res: Self)
        ensures
            res@ == self@,
    {
        proof {
            use_type_invariant(self);
        }
        ProductReviewCreate {
            product_id: self.product_id,
            status: self.status,
            reviewer: self.reviewer.clone(),
            reviewer_email: self.reviewer_email.clone(),
            review: self.review.clone(),
            rating: self.rating,
            verified: self.verified,
        }
    }
}

impl ProductReviewCreate {
    /// The rating was clamped when it was set.
    #[verifier::type_invariant]
    spec fn rating_clamped(self) -> bool {
        self.rating matches Some(rating) ==> 0 <= rating <= 5
    }

    /// Unique identifier for the product that the review belongs to.
    pub fn product_id(&self) -> (res: i32)
        ensures
            res == self@.product_id,
    {
        self.product_id
    }

    /// Status of the review, if one was given.
    pub fn status(&self) -> (res: Option<ReviewStatus>)
        ensures
            res == self@.status,
    {
        self.status
    }

    /// Name of the review's author, if one was given.
    pub fn reviewer(&self) -> (res: Option<&String>)
        ensures
            res.deep_view() == self@.reviewer,
    {
        self.reviewer.as_ref()
    }

    /// Email of the review's author.
    pub fn reviewer_email(&self) -> (res: &str)
        ensures
            res@ == self@.reviewer_email,
    {
        self.reviewer_email.as_str()
    }

    /// The content of the review, if there is any.
    pub fn review(&self) -> (res: Option<&String>)
        ensures
            res.deep_view() == self@.review,
    {
        self.review.as_ref()
    }

    /// Review rating, if one was given: a number from 0 to 5.
    pub fn rating(&self) -> (res: Option<i32>)
        ensures
            res == self@.rating,
            res matches Some(rating) ==> 0 <= rating <= 5,
    {
        proof {
            use_type_invariant(self);
        }
        self.rating
    }

    /// Whether the author bought the product, if that was said.
    pub fn verified(&self) -> (res: Option<bool>)
        ensures
            res == self@.verified,
    {
        self.verified
    }
}

/// State of a create-builder that was given the product.
pub struct WithId(i32);

/// State of a create-builder that was not given the product.
pub struct NoId;

/// State of a create-builder that was given the author's email.
pub struct WithEmail(String);

/// State of a create-builder that was not given the author's email.
pub struct NoEmail;

impl View for WithId {
    type V = Option<i32>;

    closed spec fn view(&self) -> Option<i32> {
        Some(self.0)
    }
}

impl View for NoId {
    type V = Option<i32>;

    open spec fn view(&self) -> Option<i32> {
        None
    }
}

impl View for WithEmail {
    type V = Option<Seq<char>>;

    closed spec fn view(&self) -> Option<Seq<char>> {
        Some(self.0@)
    }
}

impl View for NoEmail {
    type V = Option<Seq<char>>;

    open spec fn view(&self) -> Option<Seq<char>> {
        None
    }
}

/// Collects the fields of a new review. `I` says whether the product was
/// given, `E` whether the author's email was.
pub struct ProductReviewCreateBuilder<I, E> {
    product_id: I,
    status: Option<ReviewStatus>,
    reviewer: Option<String>,
    reviewer_email: E,
    review: Option<String>,
    rating: Option<i32>,
    verified: Option<bool>,
}

impl<I: View<V = Option<i32>>, E: View<V = Option<Seq<char>>>> View for ProductReviewCreateBuilder<
    I,
    E,
> {
    type V = ReviewDraft;

    closed spec fn view(&self) -> ReviewDraft {
        ReviewDraft {
            id: None,
            product_id: self.product_id@,
            status: self.status,
            reviewer: self.reviewer.deep_view(),
            reviewer_email: self.reviewer_email@,
            review: self.review.deep_view(),
            rating: self.rating,
            verified: self.verified,
        }
    }
}

impl Default for ProductReviewCreateBuilder<NoId, NoEmail> {
    /// A builder that has been told nothing.
    fn default() -> (res: Self)
        ensures
            res@ == ReviewDraft::empty(),
    {
        ProductReviewCreateBuilder::new()
    }
}

impl ProductReviewCreateBuilder<NoId, NoEmail> {
    /// A builder that has been told nothing.
    pub fn new() -> (res: Self)
        ensures
            res@ == ReviewDraft::empty(),
    {
        ProductReviewCreateBuilder {
            product_id: NoId,
            status: None,
            reviewer: None,
            reviewer_email: NoEmail,
            review: None,
            rating: None,
            verified: None,
        }
    }
}

impl<I, E> ProductReviewCreateBuilder<I, E> {
    /// The rating was clamped when it was set.
    #[verifier::type_invariant]
    spec fn rating_clamped(self) -> bool {
        self.rating matches Some(rating) ==> 0 <= rating <= 5
    }
}

impl<I: View<V = Option<i32>>, E: View<V = Option<Seq<char>>>> ProductReviewCreateBuilder<I, E> {
    /// Unique identifier for the product that the review belongs to.
    pub fn product_id(self, id: i32) -> (res: ProductReviewCreateBuilder<WithId, E>)
        ensures
            res@ == (ReviewDraft { product_id: Some(id), ..self@ }),
    {
        proof {
            use_type_invariant(&self);
        }
        ProductReviewCreateBuilder {
            product_id: WithId(id),
            status: self.status,
            reviewer: self.reviewer,
            reviewer_email: self.reviewer_email,
            review: self.review,
            rating: self.rating,
            verified: self.verified,
        }
    }

    /// Status of the review.
    pub fn status(self, status: ReviewStatus) -> (res: Self)
        ensures
            res@ == (ReviewDraft { status: Some(status), ..self@ }),
    {
        let mut builder = self;
        proof {
            use_type_invariant(&builder);
        }
        builder.status = Some(status);
        builder
    }

    /// Name of the review's author.
    pub fn reviewer(self, reviewer: &str) -> (res: Self)
        ensures
            res@ == (ReviewDraft { reviewer: Some(reviewer@), ..self@ }),
    {
        let mut builder = self;
        proof {
            use_type_invariant(&builder);
        }
        builder.reviewer = Some(reviewer.to_owned());
        builder
    }

    /// Email of the review's author.
    pub fn reviewer_email(self, reviewer_email: &str) -> (res: ProductReviewCreateBuilder<
        I,
        WithEmail,
    >)
        ensures
            res@ == (ReviewDraft { reviewer_email: Some(reviewer_email@), ..self@ }),
    {
        proof {
            use_type_invariant(&self);
        }
        ProductReviewCreateBuilder {
            product_id: self.product_id,
            status: self.status,
            reviewer: self.reviewer,
            reviewer_email: WithEmail(reviewer_email.to_owned()),
            review: self.review,
            rating: self.rating,
            verified: self.verified,
        }
    }

    /// The content of the review.
    pub fn review(self, review: &str) -> (res: Self)
        ensures
            res@ == (ReviewDraft { review: Some(review@), ..self@ }),
    {
        let mut builder = self;
        proof {
            use_type_invariant(&builder);
        }
        builder.review = Some(review.to_owned());
        builder
    }

    /// Review rating. What is stored is the rating brought into the range from
    /// 0 to 5, at once and not when the review is built.
    pub fn rating(self, rating: i32) -> (res: Self)
        ensures
            res@ == (ReviewDraft { rating: Some(clamped_rating(rating)), ..self@ }),
    {
        let mut builder = self;
        proof {
            use_type_invariant(&builder);
        }
        builder.rating = Some(clamp_rating(rating));
        builder
    }

    /// Whether the author bought the product.
    pub fn verified(self, verified: bool) -> (res: Self)
        ensures
            res@ == (ReviewDraft { verified: Some(verified), ..self@ }),
    {
        let mut builder = self;
        proof {
            use_type_invariant(&builder);
        }
        builder.verified = Some(verified);
        builder
    }
}

impl ProductReviewCreateBuilder<WithId, WithEmail> {
    /// The request for what has been supplied. Both mandatory fields are
    /// there, so this cannot fail; the rating, if there is one, lies in the
    /// range from 0 to 5.
    pub fn build(self) -> (res: ProductReviewCreate)
        ensures
            self@.is_complete(),
            res@ == self@.create_review(),
            res@.rating matches Some(rating) ==> 0 <= rating <= 5,
    {
        proof {
            use_type_invariant(&self);
        }
        ProductReviewCreate {
            product_id: self.product_id.0,
            status: self.status,
            reviewer: self.reviewer,
            reviewer_email: self.reviewer_email.0,
            review: self.review,
            rating: self.rating,
            verified: self.verified,
        }
    }
}

/// The request that changes a review. It carries only what was supplied.
#[derive(Debug, PartialEq, Eq)]
pub struct ProductReviewUpdate {
    /// Unique identifier for the resource.
    pub id: Option<i32>,
    /// Unique identifier for the product that the review belongs to.
    pub product_id: Option<i32>,
    /// Status of the review.
    pub status: Option<ReviewStatus>,
    /// Name of the review's author.
    pub reviewer: Option<String>,
    /// Email of the review's author.
    pub reviewer_email: Option<String>,
    /// The content of the review.
    pub review: Option<String>,
    /// Review rating (0 to 5).
    pub rating: Option<i32>,
    /// Whether the author bought the product.
    pub verified: Option<bool>,
}

impl View for ProductReviewUpdate {
    type V = ReviewDraft;

    open spec fn view(&self) -> ReviewDraft {
        ReviewDraft {
            id: self.id,
            product_id: self.product_id,
            status: self.status,
            reviewer: self.reviewer.deep_view(),
            reviewer_email: self.reviewer_email.deep_view(),
            review: self.review.deep_view(),
            rating: self.rating,
            verified: self.verified,
        }
    }
}

impl Clone for ProductReviewUpdate {
    fn clone(&self) -> (res: Self)
        ensures
            res@ == self@,
    {
        ProductReviewUpdate {
            id: self.id,
            product_id: self.product_id,
            status: self.status,
            reviewer: self.reviewer.clone(),
            reviewer_email: self.reviewer_email.clone(),
            review: self.review.clone(),
            rating: self.rating,
            verified: self.verified,
        }
    }
}

/// Collects the changes to a review.
pub struct ProductReviewUpdateBuilder {
    /// Unique identifier for the resource.
    pub id: Option<i32>,
    /// Unique identifier for the product that the review belongs to.
    pub product_id: Option<i32>,
    /// Status of the review.
    pub status: Option<ReviewStatus>,
    /// Name of the review's author.
    pub reviewer: Option<String>,
    /// Email of the review's author.
    pub reviewer_email: Option<String>,
    /// The content of the review.
    pub review: Option<String>,
    /// Review rating (0 to 5).
    pub rating: Option<i32>,
    /// Whether the author bought the product.
    pub verified: Option<bool>,
}

impl View for ProductReviewUpdateBuilder {
    type V = ReviewDraft;

    open spec fn view(&self) -> ReviewDraft {
        ReviewDraft {
            id: self.id,
            product_id: self.product_id,
            status: self.status,
            reviewer: self.reviewer.deep_view(),
            reviewer_email: self.reviewer_email.deep_view(),
            review: self.review.deep_view(),
            rating: self.rating,
            verified: self.verified,
        }
    }
}

impl Default for ProductReviewUpdateBuilder {
    /// A builder that has been told nothing.
    fn default() -> (res: Self)
        ensures
            res@ == ReviewDraft::empty(),
    {
        ProductReviewUpdateBuilder::new()
    }
}

impl ProductReviewUpdateBuilder {
    /// A builder that has been told nothing.
    pub fn new() -> (res: Self)
        ensures
            res@ == ReviewDraft::empty(),
    {
        ProductReviewUpdateBuilder {
            id: None,
            product_id: None,
            status: None,
            reviewer: None,
            reviewer_email: None,
            review: None,
            rating: None,
            verified: None,
        }
    }

    /// Unique identifier for the resource.
    pub fn id(self, id: i32) -> (res: Self)
        ensures
            res@ == (ReviewDraft { id: Some(id), ..self@ }),
    {
        let mut builder = self;
        builder.id = Some(id);
        builder
    }

    /// Unique identifier for the product that the review belongs to.
    pub fn product_id(self, product_id: i32) -> (res: Self)
        ensures
            res@ == (ReviewDraft { product_id: Some(product_id), ..self@ }),
    {
        let mut builder = self;
        builder.product_id = Some(product_id);
        builder
    }

    /// Status of the review.
    pub fn status(self, status: ReviewStatus) -> (res: Self)
        ensures
            res@ == (ReviewDraft { status: Some(status), ..self@ }),
    {
        let mut builder = self;
        builder.status = Some(status);
        builder
    }

    /// Name of the review's author.
    pub fn reviewer(self, reviewer: &str) -> (res: Self)
        ensures
            res@ == (ReviewDraft { reviewer: Some(reviewer@), ..self@ }),
    {
        let mut builder = self;
        builder.reviewer = Some(reviewer.to_owned());
        builder
    }

    /// Email of the review's author.
    pub fn reviewer_email(self, reviewer_email: &str) -> (res: Self)
        ensures
            res@ == (ReviewDraft { reviewer_email: Some(reviewer_email@), ..self@ }),
    {
        let mut builder = self;
        builder.reviewer_email = Some(reviewer_email.to_owned());
        builder
    }

    /// The content of the review.
    pub fn review(self, review: &str) -> (res: Self)
        ensures
            res@ == (ReviewDraft { review: Some(review@), ..self@ }),
    {
        let mut builder = self;
        builder.review = Some(review.to_owned());
        builder
    }

    /// Review rating. What is stored is the rating brought into the range from
    /// 0 to 5, at once and not when the review is built.
    pub fn rating(self, rating: i32) -> (res: Self)
        ensures
            res@ == (ReviewDraft { rating: Some(clamped_rating(rating)), ..self@ }),
    {
        let mut builder = self;
        builder.rating = Some(clamp_rating(rating));
        builder
    }

    /// Whether the author bought the product.
    pub fn verified(self, verified: bool) -> (res: Self)
        ensures
            res@ == (ReviewDraft { verified: Some(verified), ..self@ }),
    {
        let mut builder = self;
        builder.verified = Some(verified);
        builder
    }

    /// The request for what has been supplied. There is nothing an update
    /// must hold, so this never fails, whatever was or was not set: the request
    /// models exactly the builder's draft.
    pub fn build(self) -> (res: ProductReviewUpdate)
        ensures
            res@ == self@,
    {
        ProductReviewUpdate {
            id: self.id,
            product_id: self.product_id,
            status: self.status,
            reviewer: self.reviewer,
            reviewer_email: self.reviewer_email,
            review: self.review,
            rating: self.rating,
            verified: self.verified,
        }
    }
}

/// A stored rating always lies in the range from 0 to 5, whatever was asked
/// for. A rating already in the range is stored as it is, so clamping twice
/// is the same as clamping once.
pub proof fn lemma_clamped_rating_in_range(rating: i32)
    ensures
        0 <= clamped_rating(rating) <= 5,
        0 <= rating <= 5 ==> clamped_rating(rating) == rating,
        rating < 0 ==> clamped_rating(rating) == 0,
        rating > 5 ==> clamped_rating(rating) == 5,
        clamped_rating(clamped_rating(rating)) == clamped_rating(rating),
{
}

/// Clamping keeps the order of ratings: a rating that is not larger is not
/// stored as a larger one.
pub proof fn lemma_clamped_rating_monotonic(lower: i32, higher: i32)
    requires
        lower <= higher,
    ensures
        clamped_rating(lower) <= clamped_rating(higher),
{
}

/// Whatever a draft held, after its rating was set the rating lies in the
/// range from 0 to 5.
pub proof fn lemma_rating_setter_keeps_range(draft: ReviewDraft, rating: i32)
    ensures
        (ReviewDraft { rating: Some(clamped_rating(rating)), ..draft }).rating_in_range(),
{
}

/// A create-builder whose type says that both mandatory fields were given
/// models a complete draft. This is the only type that has `build`.
pub proof fn lemma_both_given_is_complete(builder: ProductReviewCreateBuilder<WithId, WithEmail>)
    ensures
        builder@.is_complete(),
{
}

/// A create-builder whose type says that the product was not given models an
/// incomplete draft, whatever else it was told. Such a builder has no
/// `build`.
pub proof fn lemma_without_product_is_incomplete<E: View<V = Option<Seq<char>>>>(
    builder: ProductReviewCreateBuilder<NoId, E>,
)
    ensures
        !builder@.is_complete(),
{
}

/// A create-builder whose type says that the author's email was not given
/// models an incomplete draft, whatever else it was told. Such a builder has
/// no `build`.
pub proof fn lemma_without_email_is_incomplete<I: View<V = Option<i32>>>(
    builder: ProductReviewCreateBuilder<I, NoEmail>,
)
    ensures
        !builder@.is_complete(),
{
}

/// A review for which only the two mandatory fields were supplied: every
/// optional field of the request is absent.
pub proof fn lemma_minimal_review(product_id: i32, reviewer_email: Seq<char>)
    ensures
        (ReviewDraft {
            reviewer_email: Some(reviewer_email),
            ..(ReviewDraft { product_id: Some(product_id), ..ReviewDraft::empty() })
        }).is_complete(),
        (ReviewDraft {
            reviewer_email: Some(reviewer_email),
            ..(ReviewDraft { product_id: Some(product_id), ..ReviewDraft::empty() })
        }).create_review() == (ProductReviewCreateView {
            product_id,
            status: None,
            reviewer: None,
            reviewer_email,
            review: None,
            rating: None,
            verified: None,
        }),
{
}

} // verus!
