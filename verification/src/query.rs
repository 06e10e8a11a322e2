//! Which documents a request reads or changes: equality filters over a
//! document's fields, and the change that files a product under a category.
use vstd::prelude::*;
use crate::model::{CategoryView, ProductView};

verus! {

/// Name of the database that holds the service's collections.
pub const DATABASE: &'static str = "backend";

/// Name of the collection of products.
pub const PRODUCT_COLLECTION: &'static str = "product";

/// Name of the collection of categories.
pub const CATEGORY_COLLECTION: &'static str = "category";

/// An equality filter: each field that is set must equal the document's field
/// of that name; a field that is not set matches anything.
#[derive(Debug, PartialEq, Eq)]
pub struct Filter {
    pub owner: Option<String>,
    pub title: Option<String>,
    pub category: Option<String>,
}

/// Mathematical value of a [`Filter`].
pub struct FilterView {
    pub owner: Option<Seq<char>>,
    pub title: Option<Seq<char>>,
    pub category: Option<Seq<char>>,
}

pub open spec fn opt_view(s: Option<String>) -> Option<Seq<char>> {
    match s {
        Some(v) => Some(v@),
        None => None,
    }
}

impl View for Filter {
    type V = FilterView;

    open spec fn view(&self) -> FilterView {
        FilterView {
            owner: opt_view(self.owner),
            title: opt_view(self.title),
            category: opt_view(self.category),
        }
    }
}

/// A document field of value `value` meets the condition `cond`.
pub open spec fn meets(cond: Option<Seq<char>>, value: Seq<char>) -> bool {
    match cond {
        Some(wanted) => wanted == value,
        None => true,
    }
}

impl FilterView {
    /// The filter selects the product `p`.
    pub open spec fn selects_product(self, p: ProductView) -> bool {
        meets(self.owner, p.owner) && meets(self.title, p.title) && meets(self.category, p.category)
    }

    /// The filter selects the category `c` (a category has no `category`
    /// field, so a filter on that field selects no category).
    pub open spec fn selects_category(self, c: CategoryView) -> bool {
        meets(self.owner, c.owner) && meets(self.title, c.title) && self.category is None
    }
}

/// The filter that selects the documents of `owner`.
pub fn owned_by(owner: &str) -> (res: Filter)
    ensures
        res@ == (FilterView { owner: Some(owner@), title: None, category: None }),
        forall|p: ProductView| res@.selects_product(p) <==> p.owner == owner@,
        forall|c: CategoryView| res@.selects_category(c) <==> c.owner == owner@,
{
    Filter { owner: Some(String::from_str(owner)), title: None, category: None }
}

/// The filter that selects the documents titled `title`.
pub fn titled(title: &str) -> (res: Filter)
    ensures
        res@ == (FilterView { owner: None, title: Some(title@), category: None }),
        forall|p: ProductView| res@.selects_product(p) <==> p.title == title@,
        forall|c: CategoryView| res@.selects_category(c) <==> c.title == title@,
{
    Filter { owner: None, title: Some(String::from_str(title)), category: None }
}

/// The filter that selects the products of `owner` listed under the category
/// titled `category`.
pub fn owned_in_category(owner: &str, category: &str) -> (res: Filter)
    ensures
        res@ == (FilterView { owner: Some(owner@), title: None, category: Some(category@) }),
        forall|p: ProductView|
            res@.selects_product(p) <==> (p.owner == owner@ && p.category == category@),
{
    Filter {
        owner: Some(String::from_str(owner)),
        title: None,
        category: Some(String::from_str(category)),
    }
}

/// The change that files a product under the category titled `category`
/// (in the database: set the product's `category` field).
#[derive(Debug, PartialEq, Eq)]
pub struct CategoryAssignment {
    pub category: String,
}

/// Files a product under the category titled `category`.
pub fn assign_category(category: &str) -> (res: CategoryAssignment)
    ensures
        res@ == category@,
{
    CategoryAssignment { category: String::from_str(category) }
}

impl View for CategoryAssignment {
    type V = Seq<char>;

    open spec fn view(&self) -> Seq<char> {
        self.category@
    }
}

} // verus!
