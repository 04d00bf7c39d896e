//! Plain data shared by the request builders.
pub mod customers;
pub mod data;
pub mod meta_data;
pub mod orders;
pub mod product_categories;
pub mod product_reviews;
pub mod products;

pub use meta_data::MetaData;
pub use meta_data::MetaDataView;
