//! Request models and the builders that produce them.
pub mod orders;
pub mod product_categories;
pub mod product_reviews;
