use vstd::prelude::*;

verus! {

/// A product on an owner's menu.
#[derive(Debug, PartialEq, Eq)]
pub struct Product {
    pub title: String,
    pub description: String,
    pub price: u32,
    /// Title of the category the product is listed under.
    pub category: String,
    pub owner: String,
}

/// Mathematical value of a [`Product`].
pub struct ProductView {
    pub title: Seq<char>,
    pub description: Seq<char>,
    pub price: u32,
    pub category: Seq<char>,
    pub owner: Seq<char>,
}

impl View for Product {
    type V = ProductView;

    open spec fn view(&self) -> ProductView {
        ProductView {
            title: self.title@,
            description: self.description@,
            price: self.price,
            category: self.category@,
            owner: self.owner@,
        }
    }
}

impl Clone for Product {
    fn clone(&self) -> (res: Self)
        ensures
            res == *self,
    {
        Product {
            title: self.title.clone(),
            description: self.description.clone(),
            price: self.price,
            category: self.category.clone(),
            owner: self.owner.clone(),
        }
    }
}

/// A category of an owner's menu.
#[derive(Debug, PartialEq, Eq)]
pub struct Category {
    pub title: String,
    pub description: String,
    pub owner: String,
}

/// Mathematical value of a [`Category`].
pub struct CategoryView {
    pub title: Seq<char>,
    pub description: Seq<char>,
    pub owner: Seq<char>,
}

impl View for Category {
    type V = CategoryView;

    open spec fn view(&self) -> CategoryView {
        CategoryView { title: self.title@, description: self.description@, owner: self.owner@ }
    }
}

impl Clone for Category {
    fn clone(&self) -> (res: Self)
        ensures
            res == *self,
    {
        Category {
            title: self.title.clone(),
            description: self.description.clone(),
            owner: self.owner.clone(),
        }
    }
}

/// A product as it is shown inside a catalog: without its owner and
/// category, which the catalog entry already gives.
#[derive(Debug, PartialEq, Eq)]
pub struct StreamlinedProduct {
    pub title: String,
    pub description: String,
    pub price: u32,
}

/// Mathematical value of a [`StreamlinedProduct`].
pub struct StreamlinedView {
    pub title: Seq<char>,
    pub description: Seq<char>,
    pub price: u32,
}

impl View for StreamlinedProduct {
    type V = StreamlinedView;

    open spec fn view(&self) -> StreamlinedView {
        StreamlinedView { title: self.title@, description: self.description@, price: self.price }
    }
}

/// What a product keeps when it is shown in a catalog.
pub open spec fn streamline(p: ProductView) -> StreamlinedView {
    StreamlinedView { title: p.title, description: p.description, price: p.price }
}

impl From<Product> for StreamlinedProduct {
    fn from(product: Product) -> (res: Self)
        ensures
            res@ == streamline(product@),
            res.title@ == product.title@,
            res.description@ == product.description@,
            res.price == product.price,
    {
        StreamlinedProduct {
            title: product.title,
            description: product.description,
            price: product.price,
        }
    }
}

impl vstd::std_specs::convert::FromSpecImpl<Product> for StreamlinedProduct {
    open spec fn obeys_from_spec() -> bool {
        true
    }

    open spec fn from_spec(product: Product) -> StreamlinedProduct {
        StreamlinedProduct {
            title: product.title,
            description: product.description,
            price: product.price,
        }
    }
}


/// The products of one category, as the catalog lists them.
#[derive(Debug, PartialEq, Eq)]
pub struct CatalogEntry {
    pub category_title: String,
    pub category_description: String,
    pub items: Vec<StreamlinedProduct>,
}

/// Mathematical value of a [`CatalogEntry`].
pub struct EntryView {
    pub category_title: Seq<char>,
    pub category_description: Seq<char>,
    pub items: Seq<StreamlinedView>,
}

impl View for CatalogEntry {
    type V = EntryView;

    open spec fn view(&self) -> EntryView {
        EntryView {
            category_title: self.category_title@,
            category_description: self.category_description@,
            items: self.items@.map_values(|s: StreamlinedProduct| s@),
        }
    }
}

/// An owner's catalog: one entry per category of the owner.
#[derive(Debug, PartialEq, Eq)]
pub struct Catalog {
    pub owner: String,
    pub catalog: Vec<CatalogEntry>,
}

/// Mathematical value of a [`Catalog`].
pub struct CatalogView {
    pub owner: Seq<char>,
    pub catalog: Seq<EntryView>,
}

impl View for Catalog {
    type V = CatalogView;

    open spec fn view(&self) -> CatalogView {
        CatalogView { owner: self.owner@, catalog: self.catalog@.map_values(|e: CatalogEntry| e@) }
    }
}

/// The values of a sequence of products.
pub open spec fn products_view(ps: Seq<Product>) -> Seq<ProductView> {
    ps.map_values(|p: Product| p@)
}

/// The values of a sequence of categories.
pub open spec fn categories_view(cs: Seq<Category>) -> Seq<CategoryView> {
    cs.map_values(|c: Category| c@)
}

/// The catalog entry of category `c` that lists `products`, in their order.
pub open spec fn entry_for(c: CategoryView, products: Seq<ProductView>) -> EntryView {
    EntryView {
        category_title: c.title,
        category_description: c.description,
        items: products.map_values(|p: ProductView| streamline(p)),
    }
}

/// The catalog of `owner` whose `i`-th entry lists `listed[i]` under the
/// `i`-th of `categories`.
pub open spec fn catalog_for(
    owner: Seq<char>,
    categories: Seq<CategoryView>,
    listed: Seq<Seq<ProductView>>,
) -> CatalogView {
    CatalogView {
        owner,
        catalog: Seq::new(categories.len(), |i: int| entry_for(categories[i], listed[i])),
    }
}

/// A product shown in a catalog keeps its own title, description and price.
pub proof fn law_streamline_keeps_fields(p: ProductView)
    ensures
        streamline(p).title == p.title,
        streamline(p).description == p.description,
        streamline(p).price == p.price,
{
}

/// An entry names its category and lists each of the given products exactly
/// once, in their order, with the product's own title, description and price.
pub proof fn law_entry_lists_each_product_once(c: CategoryView, products: Seq<ProductView>)
    ensures
        entry_for(c, products).category_title == c.title,
        entry_for(c, products).category_description == c.description,
        entry_for(c, products).items.len() == products.len(),
        forall|j: int|
            0 <= j < products.len() ==> {
                &&& (#[trigger] entry_for(c, products).items[j]).title == products[j].title
                &&& entry_for(c, products).items[j].description == products[j].description
                &&& entry_for(c, products).items[j].price == products[j].price
            },
{
}

/// A catalog belongs to its owner and has one entry per category, in order;
/// the `i`-th entry names the `i`-th category and lists each product of the
/// `i`-th listing exactly once, in order, with its own title, description
/// and price.
pub proof fn law_catalog_has_one_entry_per_category(
    owner: Seq<char>,
    categories: Seq<CategoryView>,
    listed: Seq<Seq<ProductView>>,
)
    requires
        listed.len() == categories.len(),
    ensures
        catalog_for(owner, categories, listed).owner == owner,
        catalog_for(owner, categories, listed).catalog.len() == categories.len(),
        forall|i: int|
            0 <= i < categories.len() ==> {
                let e = #[trigger] catalog_for(owner, categories, listed).catalog[i];
                &&& e.category_title == categories[i].title
                &&& e.category_description == categories[i].description
                &&& e.items.len() == listed[i].len()
                &&& forall|j: int|
                    0 <= j < listed[i].len() ==> {
                        &&& (#[trigger] e.items[j]).title == listed[i][j].title
                        &&& e.items[j].description == listed[i][j].description
                        &&& e.items[j].price == listed[i][j].price
                    }
            },
{
}

/// Builds the catalog entry of `category` that lists `products`.
pub fn catalog_entry(category: &Category, products: &Vec<Product>) -> (res: CatalogEntry)
    ensures
        res@ == entry_for(category@, products_view(products@)),
        res.category_title@ == category.title@,
        res.category_description@ == category.description@,
        res.items@.len() == products@.len(),
        forall|j: int|
            0 <= j < products@.len() ==> {
                &&& (#[trigger] res.items@[j]).title@ == products@[j].title@
                &&& res.items@[j].description@ == products@[j].description@
                &&& res.items@[j].price == products@[j].price
            },
{
    let mut items: Vec<StreamlinedProduct> = Vec::new();
    let mut i: usize = 0;
    while i < products.len()
        invariant
            i <= products.len(),
            items@.map_values(|s: StreamlinedProduct| s@) =~= products_view(products@).take(
                i as int,
            ).map_values(|p: ProductView| streamline(p)),
        decreases products.len() - i,
    {
        let item = StreamlinedProduct::from(products[i].clone());
        assert(item@ == streamline(products@[i as int]@));
        let ghost before = items@;
        items.push(item);
        proof {
            let f = |s: StreamlinedProduct| s@;
            let g = |p: ProductView| streamline(p);
            let pv = products_view(products@);
            assert(items@ == before.push(item));
            assert(pv.take(i + 1) =~= pv.take(i as int).push(products@[i as int]@));
            assert(items@.map_values(f) =~= before.map_values(f).push(item@));
            assert(pv.take(i + 1).map_values(g) =~= pv.take(i as int).map_values(g).push(
                streamline(products@[i as int]@),
            ));
        }
        i = i + 1;
    }
    assert(products_view(products@).take(products.len() as int) =~= products_view(products@));
    proof {
        let f = |s: StreamlinedProduct| s@;
        assert(items@.map_values(f).len() == items@.len());
        assert forall|j: int| 0 <= j < products@.len() implies {
            &&& (#[trigger] items@[j]).title@ == products@[j].title@
            &&& items@[j].description@ == products@[j].description@
            &&& items@[j].price == products@[j].price
        } by {
            assert(items@.map_values(f)[j] == items@[j]@);
            assert(products_view(products@)[j] == products@[j]@);
        }
    }
    CatalogEntry {
        category_title: category.title.clone(),
        category_description: category.description.clone(),
        items,
    }
}

/// The owner whose catalog is asked for.
#[derive(Debug, PartialEq, Eq)]
pub struct Owner {
    pub owner: String,
}

/// The title of the product a request is about.
#[derive(Debug, PartialEq, Eq)]
pub struct ProductId {
    pub product: String,
}

/// The title of the category a request is about.
#[derive(Debug, PartialEq, Eq)]
pub struct CategoryId {
    pub category: String,
}

/// A request to file the product titled `product` under the category titled
/// `category`.
#[derive(Debug, PartialEq, Eq)]
pub struct ProductAssociation {
    pub product: String,
    pub category: String,
}

} // verus!
