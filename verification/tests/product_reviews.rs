use store_requests::controllers::product_reviews::clamp_rating;
use store_requests::controllers::product_reviews::ProductReviewCreateBuilder;
use store_requests::controllers::product_reviews::ProductReviewUpdateBuilder;
use store_requests::models::product_reviews::ReviewStatus;

#[test]
fn test_create_update_batch_update_delete_product_review() {
    let create = ProductReviewCreateBuilder::new()
        .product_id(3982)
        .reviewer_email("president@world.ua")
        .review("Cool test review")
        .rating(5)
        .status(ReviewStatus::Approved)
        .reviewer("Zorro")
        .verified(true)
        .build();
    assert_eq!(create.product_id(), 3982);
    assert_eq!(create.reviewer_email(), "president@world.ua");
    assert_eq!(create.review().map(|s| s.as_str()), Some("Cool test review"));
    assert_eq!(create.rating(), Some(5));
    assert_eq!(create.status(), Some(ReviewStatus::Approved));
    assert_eq!(create.reviewer().map(|s| s.as_str()), Some("Zorro"));
    assert_eq!(create.verified(), Some(true));
    let update = ProductReviewUpdateBuilder::new().rating(4).build();
    assert_eq!(update.rating, Some(4));
    assert_eq!(update.id, None);
    let update_to_batch = ProductReviewUpdateBuilder::new().rating(5).id(17).build();
    assert_eq!(update_to_batch.rating, Some(5));
    assert_eq!(update_to_batch.id, Some(17));
}

#[test]
fn rating_is_clamped_into_zero_to_five() {
    assert_eq!(clamp_rating(-3), 0);
    assert_eq!(clamp_rating(0), 0);
    assert_eq!(clamp_rating(5), 5);
    assert_eq!(clamp_rating(9), 5);
    assert_eq!(clamp_rating(3), 3);
    assert_eq!(clamp_rating(1), 1);
    assert_eq!(clamp_rating(4), 4);
    assert_eq!(clamp_rating(6), 5);
    assert_eq!(clamp_rating(-1), 0);
    assert_eq!(clamp_rating(i32::MIN), 0);
    assert_eq!(clamp_rating(i32::MAX), 5);
}

#[test]
fn update_builder_stores_the_clamped_rating_at_once() {
    for (asked, stored) in [(-3, 0), (0, 0), (5, 5), (5, 5), (9, 5)] {
        let builder = ProductReviewUpdateBuilder::new().rating(asked);
        assert_eq!(builder.rating, Some(stored));
        assert_eq!(builder.build().rating, Some(stored));
    }
}

#[test]
fn create_builder_stores_the_clamped_rating() {
    for (asked, stored) in [(-3, 0), (0, 0), (5, 5), (5, 5), (9, 5), (2, 2)] {
        let review = ProductReviewCreateBuilder::new()
            .rating(asked)
            .product_id(1)
            .reviewer_email("x@y.com")
            .build();
        assert_eq!(review.rating(), Some(stored));
    }
}

#[test]
fn end_to_end_review_with_rating_seven() {
    let review = ProductReviewCreateBuilder::new()
        .product_id(42)
        .reviewer_email("x@y.com")
        .rating(7)
        .build();
    assert_eq!(review.rating(), Some(5));
    assert_eq!(review.product_id(), 42);
    assert_eq!(review.reviewer_email(), "x@y.com");
}

#[test]
fn minimal_review_has_no_optional_fields() {
    let review =
        ProductReviewCreateBuilder::new().product_id(42).reviewer_email("x@y.com").build();
    assert_eq!(review.product_id(), 42);
    assert_eq!(review.reviewer_email(), "x@y.com");
    assert_eq!(review.status(), None);
    assert_eq!(review.reviewer(), None);
    assert_eq!(review.review(), None);
    assert_eq!(review.rating(), None);
    assert_eq!(review.verified(), None);
}

#[test]
fn mandatory_fields_may_come_in_either_order() {
    let one = ProductReviewCreateBuilder::new().product_id(1).reviewer_email("x@y.com").build();
    let other = ProductReviewCreateBuilder::default().reviewer_email("x@y.com").product_id(1).build();
    assert_eq!(one, other);
    assert_eq!(one.clone(), one);
}

#[test]
fn mandatory_fields_keep_the_last_value() {
    let review = ProductReviewCreateBuilder::new()
        .product_id(1)
        .reviewer_email("first@y.com")
        .product_id(2)
        .reviewer_email("last@y.com")
        .build();
    assert_eq!(review.product_id(), 2);
    assert_eq!(review.reviewer_email(), "last@y.com");
}

#[test]
fn empty_email_counts_as_set() {
    let review = ProductReviewCreateBuilder::new().product_id(1).reviewer_email("").build();
    assert_eq!(review.reviewer_email(), "");
}

#[test]
fn review_update_with_nothing_set_is_empty() {
    let update = ProductReviewUpdateBuilder::new().build();
    assert_eq!(update.id, None);
    assert_eq!(update.product_id, None);
    assert_eq!(update.status, None);
    assert_eq!(update.reviewer, None);
    assert_eq!(update.reviewer_email, None);
    assert_eq!(update.review, None);
    assert_eq!(update.rating, None);
    assert_eq!(update.verified, None);
    assert_eq!(ProductReviewUpdateBuilder::default().build(), update);
}

#[test]
fn review_update_carries_what_was_set() {
    let update = ProductReviewUpdateBuilder::new()
        .id(3)
        .product_id(4)
        .status(ReviewStatus::Spam)
        .reviewer("Zorro")
        .reviewer_email("z@y.com")
        .review("text")
        .rating(2)
        .verified(false)
        .build();
    assert_eq!(update.id, Some(3));
    assert_eq!(update.product_id, Some(4));
    assert_eq!(update.status, Some(ReviewStatus::Spam));
    assert_eq!(update.reviewer.as_deref(), Some("Zorro"));
    assert_eq!(update.reviewer_email.as_deref(), Some("z@y.com"));
    assert_eq!(update.review.as_deref(), Some("text"));
    assert_eq!(update.rating, Some(2));
    assert_eq!(update.verified, Some(false));
    assert_eq!(update.clone(), update);
}
