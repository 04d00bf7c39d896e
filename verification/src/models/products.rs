//! Parts of the product resource that other resources refer to.
use vstd::prelude::*;

verus! {

/// An image in the store's media library.
#[derive(Debug, PartialEq, Eq)]
pub struct ProductImage {
    /// Identifier of the image; 0 for one that is not in the library yet.
    pub id: i32,
    /// Address the image is served from.
    pub src: String,
    /// Name of the image.
    pub name: String,
    /// Alternative text.
    pub alt: String,
}

/// What a [`ProductImage`] holds.
#[verifier::ext_equal]
pub struct ProductImageView {
    pub id: i32,
    pub src: Seq<char>,
    pub name: Seq<char>,
    pub alt: Seq<char>,
}

impl ProductImageView {
    /// An image known only by its address.
    pub open spec fn from_src(src: Seq<char>) -> ProductImageView {
        ProductImageView { id: 0, src, name: Seq::empty(), alt: Seq::empty() }
    }
}

impl View for ProductImage {
    type V = ProductImageView;

    open spec fn view(&self) -> ProductImageView {
        ProductImageView { id: self.id, src: self.src@, name: self.name@, alt: self.alt@ }
    }
}

impl DeepView for ProductImage {
    type V = ProductImageView;

    open spec fn deep_view(&self) -> ProductImageView {
        self@
    }
}

impl Clone for ProductImage {
    fn clone(&self) -> (res: Self)
        ensures
            res@ == self@,
    {
        ProductImage {
            id: self.id,
            src: self.src.clone(),
            name: self.name.clone(),
            alt: self.alt.clone(),
        }
    }
}

impl ProductImage {
    /// An image known only by its address.
    pub fn from_src(src: &str) -> (res: Self)
        ensures
            res@ == ProductImageView::from_src(src@),
    {
        ProductImage { id: 0, src: src.to_owned(), name: String::new(), alt: String::new() }
    }
}

} // verus!
