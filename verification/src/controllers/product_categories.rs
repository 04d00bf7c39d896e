//! Product categories: the request models for creating and updating one, and
//! their builders.
//!
//! A new category needs a name. The create-builder records in its own type
//! whether it has been given one, and `build` exists only on the type that
//! has.
use crate::models::product_categories::DisplayOption;
use crate::models::products::ProductImage;
use crate::models::products::ProductImageView;
use vstd::prelude::*;

verus! {

/// What a category builder has been told so far. `None` means "never
/// supplied".
#[verifier::ext_equal]
pub struct CategoryDraft {
    /// The category to change; never supplied while creating one.
    pub id: Option<i32>,
    pub name: Option<Seq<char>>,
    pub slug: Option<Seq<char>>,
    pub parent: Option<i32>,
    pub description: Option<Seq<char>>,
    pub display: Option<DisplayOption>,
    pub image: Option<ProductImageView>,
    pub menu_order: Option<i32>,
}

impl CategoryDraft {
    /// The draft of a builder that has been told nothing.
    pub open spec fn empty() -> CategoryDraft {
        CategoryDraft {
            id: None,
            name: None,
            slug: None,
            parent: None,
            description: None,
            display: None,
            image: None,
            menu_order: None,
        }
    }

    /// Whether the mandatory field of a new category was supplied.
    pub open spec fn is_complete(self) -> bool {
        self.name is Some
    }

    /// The category that a complete draft stands for. Nothing is defaulted:
    /// what was not supplied stays absent.
    pub open spec fn create_category(self) -> CategoryCreateView
        recommends
            self.is_complete(),
    {
        CategoryCreateView {
            name: self.name->0,
            slug: self.slug,
            parent: self.parent,
            description: self.description,
            display: self.display,
            image: self.image,
            menu_order: self.menu_order,
        }
    }
}

/// The request that creates a category.
#[derive(Debug, PartialEq, Eq)]
pub struct CategoryCreate {
    /// Category name.
    pub name: String,
    /// An alphanumeric identifier for the resource unique to its type.
    pub slug: Option<String>,
    /// The ID for the parent of the resource.
    pub parent: Option<i32>,
    /// HTML description of the resource.
    pub description: Option<String>,
    /// Category archive display type.
    pub display: Option<DisplayOption>,
    /// Image data.
    pub image: Option<ProductImage>,
    /// Menu order, used to custom sort the resource.
    pub menu_order: Option<i32>,
}

/// What a [`CategoryCreate`] holds. Optional fields are sent only when they
/// are present.
#[verifier::ext_equal]
pub struct CategoryCreateView {
    pub name: Seq<char>,
    pub slug: Option<Seq<char>>,
    pub parent: Option<i32>,
    pub description: Option<Seq<char>>,
    pub display: Option<DisplayOption>,
    pub image: Option<ProductImageView>,
    pub menu_order: Option<i32>,
}

impl View for CategoryCreate {
    type V = CategoryCreateView;

    open spec fn view(&self) -> CategoryCreateView {
        CategoryCreateView {
            name: self.name@,
            slug: self.slug.deep_view(),
            parent: self.parent,
            description: self.description.deep_view(),
            display: self.display,
            image: self.image.deep_view(),
            menu_order: self.menu_order,
        }
    }
}

impl Clone for CategoryCreate {
    fn clone(&self) -> (res: Self)
        ensures
            res@ == self@,
    {
        CategoryCreate {
            name: self.name.clone(),
            slug: self.slug.clone(),
            parent: self.parent,
            description: self.description.clone(),
            display: self.display,
            image: self.image.clone(),
            menu_order: self.menu_order,
        }
    }
}

/// State of a create-builder that was given the name.
pub struct WithName(String);

/// State of a create-builder that was not given the name.
pub struct NoName;

impl View for WithName {
    type V = Option<Seq<char>>;

    closed spec fn view(&self) -> Option<Seq<char>> {
        Some(self.0@)
    }
}

impl View for NoName {
    type V = Option<Seq<char>>;

    open spec fn view(&self) -> Option<Seq<char>> {
        None
    }
}

/// Collects the fields of a new category. `N` says whether the name was
/// given.
pub struct CategoryCreateBuilder<N> {
    name: N,
    slug: Option<String>,
    parent: Option<i32>,
    description: Option<String>,
    display: Option<DisplayOption>,
    image: Option<ProductImage>,
    menu_order: Option<i32>,
}

impl<N: View<V = Option<Seq<char>>>> View for CategoryCreateBuilder<N> {
    type V = CategoryDraft;

    closed spec fn view(&self) -> CategoryDraft {
        CategoryDraft {
            id: None,
            name: self.name@,
            slug: self.slug.deep_view(),
            parent: self.parent,
            description: self.description.deep_view(),
            display: self.display,
            image: self.image.deep_view(),
            menu_order: self.menu_order,
        }
    }
}

impl Default for CategoryCreateBuilder<NoName> {
    /// A builder that has been told nothing.
    fn default() -> (res: Self)
        ensures
            res@ == CategoryDraft::empty(),
    {
        CategoryCreateBuilder::new()
    }
}

impl CategoryCreateBuilder<NoName> {
    /// A builder that has been told nothing.
    pub fn new() -> (res: Self)
        ensures
            res@ == CategoryDraft::empty(),
    {
        CategoryCreateBuilder {
            name: NoName,
            slug: None,
            parent: None,
            description: None,
            display: None,
            image: None,
            menu_order: None,
        }
    }
}

impl<N: View<V = Option<Seq<char>>>> CategoryCreateBuilder<N> {
    /// Category name.
    pub fn name(self, name: &str) -> (res: CategoryCreateBuilder<WithName>)
        ensures
            res@ == (CategoryDraft { name: Some(name@), ..self@ }),
    {
        CategoryCreateBuilder {
            name: WithName(name.to_owned()),
            slug: self.slug,
            parent: self.parent,
            description: self.description,
            display: self.display,
            image: self.image,
            menu_order: self.menu_order,
        }
    }

    /// An alphanumeric identifier for the resource unique to its type.
    pub fn slug(self, slug: &str) -> (res: Self)
        ensures
            res@ == (CategoryDraft { slug: Some(slug@), ..self@ }),
    {
        let mut builder = self;
        builder.slug = Some(slug.to_owned());
        builder
    }

    /// The ID for the parent of the resource.
    pub fn parent(self, parent: i32) -> (res: Self)
        ensures
            res@ == (CategoryDraft { parent: Some(parent), ..self@ }),
    {
        let mut builder = self;
        builder.parent = Some(parent);
        builder
    }

    /// HTML description of the resource.
    pub fn description(self, description: &str) -> (res: Self)
        ensures
            res@ == (CategoryDraft { description: Some(description@), ..self@ }),
    {
        let mut builder = self;
        builder.description = Some(description.to_owned());
        builder
    }

    /// Category archive display type.
    pub fn display(self, display: DisplayOption) -> (res: Self)
        ensures
            res@ == (CategoryDraft { display: Some(display), ..self@ }),
    {
        let mut builder = self;
        builder.display = Some(display);
        builder
    }

    /// The category's image, by the address it is served from.
    pub fn image(self, src: &str) -> (res: Self)
        ensures
            res@ == (CategoryDraft { image: Some(ProductImageView::from_src(src@)), ..self@ }),
    {
        let mut builder = self;
        builder.image = Some(ProductImage::from_src(src));
        builder
    }

    /// Menu order, used to custom sort the resource.
    pub fn menu_order(self, menu_order: i32) -> (res: Self)
        ensures
            res@ == (CategoryDraft { menu_order: Some(menu_order), ..self@ }),
    {
        let mut builder = self;
        builder.menu_order = Some(menu_order);
        builder
    }
}

impl CategoryCreateBuilder<WithName> {
    /// The request for what has been supplied. The name is there, so this
    /// cannot fail.
    pub fn build(self) -> (res: CategoryCreate)
        ensures
            self@.is_complete(),
            res@ == self@.create_category(),
    {
        CategoryCreate {
            name: self.name.0,
            slug: self.slug,
            parent: self.parent,
            description: self.description,
            display: self.display,
            image: self.image,
            menu_order: self.menu_order,
        }
    }
}

/// The request that changes a category. It carries only what was supplied.
#[derive(Debug, PartialEq, Eq)]
pub struct CategoryUpdate {
    /// Unique identifier for the resource.
    pub id: Option<i32>,
    /// Category name.
    pub name: Option<String>,
    /// An alphanumeric identifier for the resource unique to its type.
    pub slug: Option<String>,
    /// The ID for the parent of the resource.
    pub parent: Option<i32>,
    /// HTML description of the resource.
    pub description: Option<String>,
    /// Category archive display type.
    pub display: Option<DisplayOption>,
    /// Image data.
    pub image: Option<ProductImage>,
    /// Menu order, used to custom sort the resource.
    pub menu_order: Option<i32>,
}

impl View for CategoryUpdate {
    type V = CategoryDraft;

    open spec fn view(&self) -> CategoryDraft {
        CategoryDraft {
            id: self.id,
            name: self.name.deep_view(),
            slug: self.slug.deep_view(),
            parent: self.parent,
            description: self.description.deep_view(),
            display: self.display,
            image: self.image.deep_view(),
            menu_order: self.menu_order,
        }
    }
}

impl Clone for CategoryUpdate {
    fn clone(&self) -> (res: Self)
        ensures
            res@ == self@,
    {
        CategoryUpdate {
            id: self.id,
            name: self.name.clone(),
            slug: self.slug.clone(),
            parent: self.parent,
            description: self.description.clone(),
            display: self.display,
            image: self.image.clone(),
            menu_order: self.menu_order,
        }
    }
}

/// Collects the changes to a category.
pub struct CategoryUpdateBuilder {
    id: Option<i32>,
    name: Option<String>,
    slug: Option<String>,
    parent: Option<i32>,
    description: Option<String>,
    display: Option<DisplayOption>,
    image: Option<ProductImage>,
    menu_order: Option<i32>,
}

impl View for CategoryUpdateBuilder {
    type V = CategoryDraft;

    closed spec fn view(&self) -> CategoryDraft {
        CategoryDraft {
            id: self.id,
            name: self.name.deep_view(),
            slug: self.slug.deep_view(),
            parent: self.parent,
            description: self.description.deep_view(),
            display: self.display,
            image: self.image.deep_view(),
            menu_order: self.menu_order,
        }
    }
}

impl Default for CategoryUpdateBuilder {
    /// A builder that has been told nothing.
    fn default() -> (res: Self)
        ensures
            res@ == CategoryDraft::empty(),
    {
        CategoryUpdateBuilder::new()
    }
}

impl CategoryUpdateBuilder {
    /// A builder that has been told nothing.
    pub fn new() -> (res: Self)
        ensures
            res@ == CategoryDraft::empty(),
    {
        CategoryUpdateBuilder {
            id: None,
            name: None,
            slug: None,
            parent: None,
            description: None,
            display: None,
            image: None,
            menu_order: None,
        }
    }

    /// Unique identifier for the resource.
    pub fn id(self, id: i32) -> (res: Self)
        ensures
            res@ == (CategoryDraft { id: Some(id), ..self@ }),
    {
        let mut builder = self;
        builder.id = Some(id);
        builder
    }

    /// Category name.
    pub fn name(self, name: &str) -> (res: Self)
        ensures
            res@ == (CategoryDraft { name: Some(name@), ..self@ }),
    {
        let mut builder = self;
        builder.name = Some(name.to_owned());
        builder
    }

    /// An alphanumeric identifier for the resource unique to its type.
    pub fn slug(self, slug: &str) -> (res: Self)
        ensures
            res@ == (CategoryDraft { slug: Some(slug@), ..self@ }),
    {
        let mut builder = self;
        builder.slug = Some(slug.to_owned());
        builder
    }

    /// The ID for the parent of the resource.
    pub fn parent(self, parent: i32) -> (res: Self)
        ensures
            res@ == (CategoryDraft { parent: Some(parent), ..self@ }),
    {
        let mut builder = self;
        builder.parent = Some(parent);
        builder
    }

    /// HTML description of the resource.
    pub fn description(self, description: &str) -> (res: Self)
        ensures
            res@ == (CategoryDraft { description: Some(description@), ..self@ }),
    {
        let mut builder = self;
        builder.description = Some(description.to_owned());
        builder
    }

    /// Category archive display type.
    pub fn display(self, display: DisplayOption) -> (res: Self)
        ensures
            res@ == (CategoryDraft { display: Some(display), ..self@ }),
    {
        let mut builder = self;
        builder.display = Some(display);
        builder
    }

    /// The category's image, by the address it is served from.
    pub fn image(self, src: &str) -> (res: Self)
        ensures
            res@ == (CategoryDraft { image: Some(ProductImageView::from_src(src@)), ..self@ }),
    {
        let mut builder = self;
        builder.image = Some(ProductImage::from_src(src));
        builder
    }

    /// Menu order, used to custom sort the resource.
    pub fn menu_order(self, menu_order: i32) -> (res: Self)
        ensures
            res@ == (CategoryDraft { menu_order: Some(menu_order), ..self@ }),
    {
        let mut builder = self;
        builder.menu_order = Some(menu_order);
        builder
    }

    /// The request for what has been supplied. There is nothing an update
    /// must hold, so this never fails, whatever was or was not set: the request
    /// models exactly the builder's draft.
    pub fn build(self) -> (res: CategoryUpdate)
        ensures
            res@ == self@,
    {
        CategoryUpdate {
            id: self.id,
            name: self.name,
            slug: self.slug,
            parent: self.parent,
            description: self.description,
            display: self.display,
            image: self.image,
            menu_order: self.menu_order,
        }
    }
}

/// A create-builder whose type says that the name was given models a
/// complete draft. This is the only type that has `build`.
pub proof fn lemma_named_is_complete(builder: CategoryCreateBuilder<WithName>)
    ensures
        builder@.is_complete(),
{
}

/// A create-builder whose type says that the name was not given models an
/// incomplete draft, whatever else it was told. Such a builder has no
/// `build`.
pub proof fn lemma_unnamed_is_incomplete(builder: CategoryCreateBuilder<NoName>)
    ensures
        !builder@.is_complete(),
{
}

/// A category for which only the name was supplied: every optional field of
/// the request is absent.
pub proof fn lemma_minimal_category(name: Seq<char>)
    ensures
        (CategoryDraft { name: Some(name), ..CategoryDraft::empty() }).is_complete(),
        (CategoryDraft { name: Some(name), ..CategoryDraft::empty() }).create_category() == (
        CategoryCreateView {
            name,
            slug: None,
            parent: None,
            description: None,
            display: None,
            image: None,
            menu_order: None,
        }),
{
}

} // verus!
