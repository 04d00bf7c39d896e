//! The product category resource.
use crate::controllers::product_categories::CategoryCreateBuilder;
use crate::controllers::product_categories::CategoryDraft;
use crate::controllers::product_categories::CategoryUpdateBuilder;
use crate::controllers::product_categories::NoName;
use crate::models::products::ProductImage;
use vstd::prelude::*;

verus! {

/// A product category as the store reports it.
#[derive(Debug, PartialEq, Eq)]
pub struct Category {
    /// Unique identifier for the resource.
    pub id: i32,
    /// Category name.
    pub name: String,
    /// An alphanumeric identifier for the resource unique to its type.
    pub slug: String,
    /// The ID for the parent of the resource.
    pub parent: i32,
    /// HTML description of the resource.
    pub description: String,
    /// Category archive display type.
    pub display: DisplayOption,
    /// Image data.
    pub image: Option<ProductImage>,
    /// Menu order, used to custom sort the resource.
    pub menu_order: i32,
    /// Number of published products for the resource. Read-only.
    pub count: i32,
}

impl Category {
    /// Starts the request that creates a category: a builder that has been
    /// told nothing, and cannot build before it is given a name.
    pub fn create() -> (res: CategoryCreateBuilder<NoName>)
        ensures
            res@ == CategoryDraft::empty(),
    {
        CategoryCreateBuilder::new()
    }

    /// Starts the request that changes a category: a builder that has been
    /// told nothing.
    pub fn update() -> (res: CategoryUpdateBuilder)
        ensures
            res@ == CategoryDraft::empty(),
    {
        CategoryUpdateBuilder::new()
    }
}

/// How a category's archive page is laid out.
#[derive(Clone, Copy, Debug, PartialEq, Eq, Structural)]
pub enum DisplayOption {
    Default,
    Products,
    Subcategories,
    Both,
}

impl DisplayOption {
    /// The token the store uses for this layout.
    pub open spec fn token(self) -> Seq<char> {
        match self {
            DisplayOption::Default => "default"@,
            DisplayOption::Products => "products"@,
            DisplayOption::Subcategories => "subcategories"@,
            DisplayOption::Both => "both"@,
        }
    }

    /// The token the store uses for this layout.
    pub fn as_str(&self) -> (res: &'static str)
        ensures
            res@ == self.token(),
    {
        match self {
            DisplayOption::Default => "default",
            DisplayOption::Products => "products",
            DisplayOption::Subcategories => "subcategories",
            DisplayOption::Both => "both",
        }
    }
}

impl Default for DisplayOption {
    /// A category that was given no layout uses the store's default one.
    fn default() -> (res: Self)
        ensures
            res == DisplayOption::Default,
    {
        DisplayOption::Default
    }
}

} // verus!
