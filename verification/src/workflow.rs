//! The service's requests as state machines. A request starts in a
//! [`Workflow`] together with its first [`Action`]; the application performs
//! each action against the database or the notification topic and hands the
//! outcome back as an [`Event`], until the action is a response.
use vstd::prelude::*;
use vstd::string::*;
use crate::model::{
    catalog_entry, categories_view, entry_for, products_view, Catalog, CatalogEntry, CatalogView,
    Category, CategoryId, CategoryView, EntryView, Owner, Product, ProductAssociation, ProductId,
    ProductView,
};
use crate::notice::{notice_for, owner_notice};
use crate::query::{
    assign_category, owned_by, owned_in_category, titled, CategoryAssignment, Filter, FilterView,
};

verus! {

/// The collection a lookup reads.
#[derive(Debug, PartialEq, Eq, Structural, Clone, Copy)]
pub enum Kind {
    Product,
    Category,
}

/// What a request answers when it succeeds.
#[derive(Debug, PartialEq, Eq)]
pub enum Reply {
    /// The change was made.
    Done,
    /// The document to remove does not exist.
    NotFound,
    /// The catalog that was asked for.
    Listing(Catalog),
}

pub enum ReplyView {
    Done,
    NotFound,
    Listing(CatalogView),
}

impl View for Reply {
    type V = ReplyView;

    open spec fn view(&self) -> ReplyView {
        match self {
            Reply::Done => ReplyView::Done,
            Reply::NotFound => ReplyView::NotFound,
            Reply::Listing(c) => ReplyView::Listing(c@),
        }
    }
}

impl ReplyView {
    /// The HTTP status of the answer.
    pub open spec fn status(self) -> u16 {
        match self {
            ReplyView::NotFound => 404,
            _ => 200,
        }
    }
}

impl Reply {
    /// The HTTP status of the answer.
    pub fn status(&self) -> (res: u16)
        ensures
            res == self@.status(),
    {
        match self {
            Reply::NotFound => 404,
            _ => 200,
        }
    }
}

/// Why a request failed.
#[derive(Debug, PartialEq, Eq)]
pub enum Failure {
    /// The database refused to store a new document; holds its error text.
    Insert(String),
    /// Another database operation failed; holds its error text.
    Store(String),
    /// There is no category of the given title.
    CategoryNotFound(String),
}

pub enum FailureView {
    Insert(Seq<char>),
    Store(Seq<char>),
    CategoryNotFound(Seq<char>),
}

impl View for Failure {
    type V = FailureView;

    open spec fn view(&self) -> FailureView {
        match self {
            Failure::Insert(e) => FailureView::Insert(e@),
            Failure::Store(e) => FailureView::Store(e@),
            Failure::CategoryNotFound(t) => FailureView::CategoryNotFound(t@),
        }
    }
}

impl FailureView {
    /// The text that describes the failure.
    pub open spec fn message(self) -> Seq<char> {
        match self {
            FailureView::Insert(e) => "Error: "@ + e,
            FailureView::Store(e) => e,
            FailureView::CategoryNotFound(t) => "Category not found: "@ + t,
        }
    }
}

impl Failure {
    /// The text that describes the failure.
    pub fn message(&self) -> (res: String)
        ensures
            res@ == self@.message(),
    {
        match self {
            Failure::Insert(e) => String::from_str("Error: ").concat(e.as_str()),
            Failure::Store(e) => e.clone(),
            Failure::CategoryNotFound(t) => String::from_str("Category not found: ").concat(
                t.as_str(),
            ),
        }
    }
}

/// What the application is asked to do next.
#[derive(Debug, PartialEq, Eq)]
pub enum Action {
    InsertProduct(Product),
    InsertCategory(Category),
    /// Look up one product that the filter selects.
    FindProduct(Filter),
    /// Look up one category that the filter selects.
    FindCategory(Filter),
    /// List all categories that the filter selects.
    ListCategories(Filter),
    /// List all products that the filter selects.
    ListProducts(Filter),
    /// Change one product that the filter selects.
    UpdateProduct(Filter, CategoryAssignment),
    /// Remove one product that the filter selects.
    DeleteProduct(Filter),
    /// Remove one category that the filter selects.
    DeleteCategory(Filter),
    /// Publish the notice on the topic that the publishing job listens to.
    Publish(String),
    /// Answer the request; the workflow is over.
    Respond(Result<Reply, Failure>),
}

pub enum ActionView {
    InsertProduct(ProductView),
    InsertCategory(CategoryView),
    FindProduct(FilterView),
    FindCategory(FilterView),
    ListCategories(FilterView),
    ListProducts(FilterView),
    UpdateProduct(FilterView, Seq<char>),
    DeleteProduct(FilterView),
    DeleteCategory(FilterView),
    Publish(Seq<char>),
    Respond(Result<ReplyView, FailureView>),
}

pub open spec fn outcome_view(r: Result<Reply, Failure>) -> Result<ReplyView, FailureView> {
    match r {
        Ok(reply) => Ok(reply@),
        Err(f) => Err(f@),
    }
}

impl View for Action {
    type V = ActionView;

    open spec fn view(&self) -> ActionView {
        match self {
            Action::InsertProduct(p) => ActionView::InsertProduct(p@),
            Action::InsertCategory(c) => ActionView::InsertCategory(c@),
            Action::FindProduct(f) => ActionView::FindProduct(f@),
            Action::FindCategory(f) => ActionView::FindCategory(f@),
            Action::ListCategories(f) => ActionView::ListCategories(f@),
            Action::ListProducts(f) => ActionView::ListProducts(f@),
            Action::UpdateProduct(f, u) => ActionView::UpdateProduct(f@, u@),
            Action::DeleteProduct(f) => ActionView::DeleteProduct(f@),
            Action::DeleteCategory(f) => ActionView::DeleteCategory(f@),
            Action::Publish(m) => ActionView::Publish(m@),
            Action::Respond(r) => ActionView::Respond(outcome_view(*r)),
        }
    }
}

/// The outcome of an action, as the application reports it. Database errors
/// are reported by their text.
#[derive(Debug, PartialEq, Eq)]
pub enum Event {
    Inserted(Result<(), String>),
    ProductFound(Result<Option<Product>, String>),
    CategoryFound(Result<Option<Category>, String>),
    CategoriesListed(Result<Vec<Category>, String>),
    ProductsListed(Result<Vec<Product>, String>),
    Updated(Result<(), String>),
    Deleted(Result<(), String>),
    /// The notice was handed to the topic (whether the topic took it or not:
    /// a failed publication does not fail the request).
    Published,
}

pub enum EventView {
    Inserted(Result<(), Seq<char>>),
    ProductFound(Result<Option<ProductView>, Seq<char>>),
    CategoryFound(Result<Option<CategoryView>, Seq<char>>),
    CategoriesListed(Result<Seq<CategoryView>, Seq<char>>),
    ProductsListed(Result<Seq<ProductView>, Seq<char>>),
    Updated(Result<(), Seq<char>>),
    Deleted(Result<(), Seq<char>>),
    Published,
}

pub open spec fn done_view(r: Result<(), String>) -> Result<(), Seq<char>> {
    match r {
        Ok(()) => Ok(()),
        Err(e) => Err(e@),
    }
}

impl View for Event {
    type V = EventView;

    open spec fn view(&self) -> EventView {
        match self {
            Event::Inserted(r) => EventView::Inserted(done_view(*r)),
            Event::ProductFound(r) => EventView::ProductFound(
                match r {
                    Ok(Some(p)) => Ok(Some(p@)),
                    Ok(None) => Ok(None),
                    Err(e) => Err(e@),
                },
            ),
            Event::CategoryFound(r) => EventView::CategoryFound(
                match r {
                    Ok(Some(c)) => Ok(Some(c@)),
                    Ok(None) => Ok(None),
                    Err(e) => Err(e@),
                },
            ),
            Event::CategoriesListed(r) => EventView::CategoriesListed(
                match r {
                    Ok(cs) => Ok(categories_view(cs@)),
                    Err(e) => Err(e@),
                },
            ),
            Event::ProductsListed(r) => EventView::ProductsListed(
                match r {
                    Ok(ps) => Ok(products_view(ps@)),
                    Err(e) => Err(e@),
                },
            ),
            Event::Updated(r) => EventView::Updated(done_view(*r)),
            Event::Deleted(r) => EventView::Deleted(done_view(*r)),
            Event::Published => EventView::Published,
        }
    }
}

/// Where a request stands.
#[derive(Debug, PartialEq, Eq)]
pub enum Workflow {
    /// A new document was sent to the database; its owner is to be notified.
    AwaitInsert { owner: String },
    /// The document titled `title` is looked up before it is removed.
    AwaitLookup { kind: Kind, title: String },
    /// The document was removed; `owner` is to be notified.
    AwaitDeletion { owner: String },
    /// The category titled `category` is looked up before the product titled
    /// `product` is filed under it.
    AwaitCategory { product: String, category: String },
    /// The product was filed; `owner` (the category's owner) is to be notified.
    AwaitUpdate { owner: String },
    /// The categories of `owner` are being listed.
    AwaitCategories { owner: String },
    /// The products of `current` are being listed; `pending` are the
    /// categories still to list and `entries` the entries made so far.
    Collecting {
        owner: String,
        current: Category,
        pending: Vec<Category>,
        entries: Vec<CatalogEntry>,
    },
    /// The notice is being published.
    AwaitPublish,
    /// The request was answered.
    Finished,
}

pub enum WorkflowView {
    AwaitInsert { owner: Seq<char> },
    AwaitLookup { kind: Kind, title: Seq<char> },
    AwaitDeletion { owner: Seq<char> },
    AwaitCategory { product: Seq<char>, category: Seq<char> },
    AwaitUpdate { owner: Seq<char> },
    AwaitCategories { owner: Seq<char> },
    Collecting {
        owner: Seq<char>,
        current: CategoryView,
        pending: Seq<CategoryView>,
        entries: Seq<EntryView>,
    },
    AwaitPublish,
    Finished,
}

impl View for Workflow {
    type V = WorkflowView;

    open spec fn view(&self) -> WorkflowView {
        match self {
            Workflow::AwaitInsert { owner } => WorkflowView::AwaitInsert { owner: owner@ },
            Workflow::AwaitLookup { kind, title } => WorkflowView::AwaitLookup {
                kind: *kind,
                title: title@,
            },
            Workflow::AwaitDeletion { owner } => WorkflowView::AwaitDeletion { owner: owner@ },
            Workflow::AwaitCategory { product, category } => WorkflowView::AwaitCategory {
                product: product@,
                category: category@,
            },
            Workflow::AwaitUpdate { owner } => WorkflowView::AwaitUpdate { owner: owner@ },
            Workflow::AwaitCategories { owner } => WorkflowView::AwaitCategories {
                owner: owner@,
            },
            Workflow::Collecting { owner, current, pending, entries } => WorkflowView::Collecting {
                owner: owner@,
                current: current@,
                pending: categories_view(pending@),
                entries: entries@.map_values(|e: CatalogEntry| e@),
            },
            Workflow::AwaitPublish => WorkflowView::AwaitPublish,
            Workflow::Finished => WorkflowView::Finished,
        }
    }
}

/// The filter on the owner `o`.
pub open spec fn owner_filter(o: Seq<char>) -> FilterView {
    FilterView { owner: Some(o), title: None, category: None }
}

/// The filter on the title `t`.
pub open spec fn title_filter(t: Seq<char>) -> FilterView {
    FilterView { owner: None, title: Some(t), category: None }
}

/// The filter on the owner `o` and the category `c`.
pub open spec fn owner_category_filter(o: Seq<char>, c: Seq<char>) -> FilterView {
    FilterView { owner: Some(o), title: None, category: Some(c) }
}

impl WorkflowView {
    /// The workflow waits for an outcome of the kind of `e`.
    pub open spec fn accepts(self, e: EventView) -> bool {
        match self {
            WorkflowView::AwaitInsert { .. } => e is Inserted,
            WorkflowView::AwaitLookup { kind, .. } => match kind {
                Kind::Product => e is ProductFound,
                Kind::Category => e is CategoryFound,
            },
            WorkflowView::AwaitDeletion { .. } => e is Deleted,
            WorkflowView::AwaitCategory { .. } => e is CategoryFound,
            WorkflowView::AwaitUpdate { .. } => e is Updated,
            WorkflowView::AwaitCategories { .. } => e is CategoriesListed,
            WorkflowView::Collecting { .. } => e is ProductsListed,
            WorkflowView::AwaitPublish => e is Published,
            WorkflowView::Finished => false,
        }
    }
}

/// A workflow that answers `outcome`.
pub open spec fn respond(outcome: Result<ReplyView, FailureView>) -> (WorkflowView, ActionView) {
    (WorkflowView::Finished, ActionView::Respond(outcome))
}

/// Where a workflow goes on the outcome `e`, and what it asks for next.
/// Only outcomes that the workflow [accepts](WorkflowView::accepts) are handed
/// in; on any other `next` leaves the workflow where it is.
pub open spec fn next(w: WorkflowView, e: EventView) -> (WorkflowView, ActionView) {
    match w {
        WorkflowView::AwaitInsert { owner } => match e {
            EventView::Inserted(Ok(())) => (
                WorkflowView::AwaitPublish,
                ActionView::Publish(notice_for(owner)),
            ),
            EventView::Inserted(Err(msg)) => respond(Err(FailureView::Insert(msg))),
            _ => (w, ActionView::Respond(Ok(ReplyView::Done))),
        },
        WorkflowView::AwaitLookup { kind, title } => {
            let found = match e {
                EventView::ProductFound(r) => match r {
                    Ok(Some(p)) => Ok(Some(p.owner)),
                    Ok(None) => Ok(None),
                    Err(m) => Err(m),
                },
                EventView::CategoryFound(r) => match r {
                    Ok(Some(c)) => Ok(Some(c.owner)),
                    Ok(None) => Ok(None),
                    Err(m) => Err(m),
                },
                _ => Ok(None),
            };
            match found {
                Err(m) => respond(Err(FailureView::Store(m))),
                Ok(None) => respond(Ok(ReplyView::NotFound)),
                Ok(Some(owner)) => (
                    WorkflowView::AwaitDeletion { owner },
                    match kind {
                        Kind::Product => ActionView::DeleteProduct(title_filter(title)),
                        Kind::Category => ActionView::DeleteCategory(title_filter(title)),
                    },
                ),
            }
        },
        WorkflowView::AwaitDeletion { owner } => match e {
            EventView::Deleted(Ok(())) => (
                WorkflowView::AwaitPublish,
                ActionView::Publish(notice_for(owner)),
            ),
            EventView::Deleted(Err(m)) => respond(Err(FailureView::Store(m))),
            _ => (w, ActionView::Respond(Ok(ReplyView::Done))),
        },
        WorkflowView::AwaitCategory { product, category } => match e {
            EventView::CategoryFound(Ok(Some(c))) => (
                WorkflowView::AwaitUpdate { owner: c.owner },
                ActionView::UpdateProduct(title_filter(product), category),
            ),
            EventView::CategoryFound(Ok(None)) => respond(
                Err(FailureView::CategoryNotFound(category)),
            ),
            EventView::CategoryFound(Err(m)) => respond(Err(FailureView::Store(m))),
            _ => (w, ActionView::Respond(Ok(ReplyView::Done))),
        },
        WorkflowView::AwaitUpdate { owner } => match e {
            EventView::Updated(Ok(())) => (
                WorkflowView::AwaitPublish,
                ActionView::Publish(notice_for(owner)),
            ),
            EventView::Updated(Err(m)) => respond(Err(FailureView::Store(m))),
            _ => (w, ActionView::Respond(Ok(ReplyView::Done))),
        },
        WorkflowView::AwaitCategories { owner } => match e {
            EventView::CategoriesListed(Ok(cs)) => if cs.len() == 0 {
                respond(Ok(ReplyView::Listing(CatalogView { owner, catalog: seq![] })))
            } else {
                (
                    WorkflowView::Collecting {
                        owner,
                        current: cs[0],
                        pending: cs.drop_first(),
                        entries: seq![],
                    },
                    ActionView::ListProducts(owner_category_filter(owner, cs[0].title)),
                )
            },
            EventView::CategoriesListed(Err(m)) => respond(Err(FailureView::Store(m))),
            _ => (w, ActionView::Respond(Ok(ReplyView::Done))),
        },
        WorkflowView::Collecting { owner, current, pending, entries } => match e {
            EventView::ProductsListed(Ok(ps)) => {
                let done = entries.push(entry_for(current, ps));
                if pending.len() == 0 {
                    respond(Ok(ReplyView::Listing(CatalogView { owner, catalog: done })))
                } else {
                    (
                        WorkflowView::Collecting {
                            owner,
                            current: pending[0],
                            pending: pending.drop_first(),
                            entries: done,
                        },
                        ActionView::ListProducts(owner_category_filter(owner, pending[0].title)),
                    )
                }
            },
            EventView::ProductsListed(Err(m)) => respond(Err(FailureView::Store(m))),
            _ => (w, ActionView::Respond(Ok(ReplyView::Done))),
        },
        WorkflowView::AwaitPublish => respond(Ok(ReplyView::Done)),
        WorkflowView::Finished => (w, ActionView::Respond(Ok(ReplyView::Done))),
    }
}

/// A found document is answered with status 200, a missing one with 404.
pub proof fn law_reply_status(catalog: CatalogView)
    ensures
        ReplyView::Done.status() == 200,
        ReplyView::Listing(catalog).status() == 200,
        ReplyView::NotFound.status() == 404,
{
}

/// A refused insertion is described as `Error: <error>`, another database
/// failure by its own text, and a missing category as
/// `Category not found: <title>`.
pub proof fn law_failure_messages(error: Seq<char>, title: Seq<char>)
    ensures
        FailureView::Insert(error).message() == "Error: "@ + error,
        FailureView::Store(error).message() == error,
        FailureView::CategoryNotFound(title).message() == "Category not found: "@ + title,
{
}

/// The filters a workflow asks for select exactly what their names say.
pub proof fn law_filters_select_what_they_name(
    o: Seq<char>,
    t: Seq<char>,
    p: ProductView,
    c: CategoryView,
)
    ensures
        owner_filter(o) == (FilterView { owner: Some(o), title: None, category: None }),
        title_filter(t) == (FilterView { owner: None, title: Some(t), category: None }),
        owner_category_filter(o, t) == (FilterView {
            owner: Some(o),
            title: None,
            category: Some(t),
        }),
        owner_filter(o).selects_product(p) <==> p.owner == o,
        owner_filter(o).selects_category(c) <==> c.owner == o,
        title_filter(t).selects_product(p) <==> p.title == t,
        title_filter(t).selects_category(c) <==> c.title == t,
        owner_category_filter(o, t).selects_product(p) <==> (p.owner == o && p.category == t),
{
}

impl Workflow {
    /// The `product` request: store the new product, then notify its owner.
    pub fn product(product: Product) -> (res: (Workflow, Action))
        ensures
            res.0@ == (WorkflowView::AwaitInsert { owner: product@.owner }),
            res.1@ == ActionView::InsertProduct(product@),
    {
        let owner = product.owner.clone();
        (Workflow::AwaitInsert { owner }, Action::InsertProduct(product))
    }

    /// The `category` request: store the new category, then notify its owner.
    pub fn category(category: Category) -> (res: (Workflow, Action))
        ensures
            res.0@ == (WorkflowView::AwaitInsert { owner: category@.owner }),
            res.1@ == ActionView::InsertCategory(category@),
    {
        let owner = category.owner.clone();
        (Workflow::AwaitInsert { owner }, Action::InsertCategory(category))
    }

    /// The `delete_product` request: look up the product of the given title,
    /// remove it and notify its owner; answer "not found" if there is none.
    pub fn delete_product(id: ProductId) -> (res: (Workflow, Action))
        ensures
            res.0@ == (WorkflowView::AwaitLookup { kind: Kind::Product, title: id.product@ }),
            res.1@ == ActionView::FindProduct(title_filter(id.product@)),
    {
        let filter = titled(id.product.as_str());
        (Workflow::AwaitLookup { kind: Kind::Product, title: id.product }, Action::FindProduct(filter))
    }

    /// The `delete_category` request: look up the category of the given
    /// title, remove it and notify its owner; answer "not found" if there is
    /// none.
    pub fn delete_category(id: CategoryId) -> (res: (Workflow, Action))
        ensures
            res.0@ == (WorkflowView::AwaitLookup { kind: Kind::Category, title: id.category@ }),
            res.1@ == ActionView::FindCategory(title_filter(id.category@)),
    {
        let filter = titled(id.category.as_str());
        (
            Workflow::AwaitLookup { kind: Kind::Category, title: id.category },
            Action::FindCategory(filter),
        )
    }

    /// The `associate` request: look up the category, file the product under
    /// it and notify the category's owner; fail if there is no such category.
    pub fn associate(association: ProductAssociation) -> (res: (Workflow, Action))
        ensures
            res.0@ == (WorkflowView::AwaitCategory {
                product: association.product@,
                category: association.category@,
            }),
            res.1@ == ActionView::FindCategory(title_filter(association.category@)),
    {
        let filter = titled(association.category.as_str());
        (
            Workflow::AwaitCategory {
                product: association.product,
                category: association.category,
            },
            Action::FindCategory(filter),
        )
    }

    /// The `catalog` request: list the owner's categories, then the owner's
    /// products of each category, and answer the owner's catalog.
    pub fn catalog(owner: Owner) -> (res: (Workflow, Action))
        ensures
            res.0@ == (WorkflowView::AwaitCategories { owner: owner.owner@ }),
            res.1@ == ActionView::ListCategories(owner_filter(owner.owner@)),
    {
        let filter = owned_by(owner.owner.as_str());
        (Workflow::AwaitCategories { owner: owner.owner }, Action::ListCategories(filter))
    }

    /// Whether the workflow waits for an outcome of the kind of `event`.
    pub fn accepts(&self, event: &Event) -> (res: bool)
        ensures
            res == self@.accepts(event@),
    {
        match self {
            Workflow::AwaitInsert { .. } => match event {
                Event::Inserted(_) => true,
                _ => false,
            },
            Workflow::AwaitLookup { kind, .. } => match (kind, event) {
                (Kind::Product, Event::ProductFound(_)) => true,
                (Kind::Category, Event::CategoryFound(_)) => true,
                _ => false,
            },
            Workflow::AwaitDeletion { .. } => match event {
                Event::Deleted(_) => true,
                _ => false,
            },
            Workflow::AwaitCategory { .. } => match event {
                Event::CategoryFound(_) => true,
                _ => false,
            },
            Workflow::AwaitUpdate { .. } => match event {
                Event::Updated(_) => true,
                _ => false,
            },
            Workflow::AwaitCategories { .. } => match event {
                Event::CategoriesListed(_) => true,
                _ => false,
            },
            Workflow::Collecting { .. } => match event {
                Event::ProductsListed(_) => true,
                _ => false,
            },
            Workflow::AwaitPublish => match event {
                Event::Published => true,
                _ => false,
            },
            Workflow::Finished => false,
        }
    }

    /// Takes the outcome of the last action and gives the next action.
    pub fn step(self, event: Event) -> (res: (Workflow, Action))
        requires
            self@.accepts(event@),
        ensures
            (res.0@, res.1@) == next(self@, event@),
    {
        match self {
            Workflow::AwaitInsert { owner } => match event {
                Event::Inserted(Ok(())) => (
                    Workflow::AwaitPublish,
                    Action::Publish(owner_notice(owner.as_str())),
                ),
                Event::Inserted(Err(msg)) => (
                    Workflow::Finished,
                    Action::Respond(Err(Failure::Insert(msg))),
                ),
                _ => vstd::pervasive::unreached(),
            },
            Workflow::AwaitLookup { kind, title } => {
                let found: Result<Option<String>, String> = match event {
                    Event::ProductFound(r) => match r {
                        Ok(Some(p)) => Ok(Some(p.owner)),
                        Ok(None) => Ok(None),
                        Err(m) => Err(m),
                    },
                    Event::CategoryFound(r) => match r {
                        Ok(Some(c)) => Ok(Some(c.owner)),
                        Ok(None) => Ok(None),
                        Err(m) => Err(m),
                    },
                    _ => vstd::pervasive::unreached(),
                };
                match found {
                    Err(m) => (Workflow::Finished, Action::Respond(Err(Failure::Store(m)))),
                    Ok(None) => (Workflow::Finished, Action::Respond(Ok(Reply::NotFound))),
                    Ok(Some(owner)) => {
                        let filter = titled(title.as_str());
                        let action = match kind {
                            Kind::Product => Action::DeleteProduct(filter),
                            Kind::Category => Action::DeleteCategory(filter),
                        };
                        (Workflow::AwaitDeletion { owner }, action)
                    },
                }
            },
            Workflow::AwaitDeletion { owner } => match event {
                Event::Deleted(Ok(())) => (
                    Workflow::AwaitPublish,
                    Action::Publish(owner_notice(owner.as_str())),
                ),
                Event::Deleted(Err(m)) => (Workflow::Finished, Action::Respond(Err(Failure::Store(m)))),
                _ => vstd::pervasive::unreached(),
            },
            Workflow::AwaitCategory { product, category } => match event {
                Event::CategoryFound(Ok(Some(c))) => {
                    let filter = titled(product.as_str());
                    let change = assign_category(category.as_str());
                    (Workflow::AwaitUpdate { owner: c.owner }, Action::UpdateProduct(filter, change))
                },
                Event::CategoryFound(Ok(None)) => (
                    Workflow::Finished,
                    Action::Respond(Err(Failure::CategoryNotFound(category))),
                ),
                Event::CategoryFound(Err(m)) => (
                    Workflow::Finished,
                    Action::Respond(Err(Failure::Store(m))),
                ),
                _ => vstd::pervasive::unreached(),
            },
            Workflow::AwaitUpdate { owner } => match event {
                Event::Updated(Ok(())) => (
                    Workflow::AwaitPublish,
                    Action::Publish(owner_notice(owner.as_str())),
                ),
                Event::Updated(Err(m)) => (Workflow::Finished, Action::Respond(Err(Failure::Store(m)))),
                _ => vstd::pervasive::unreached(),
            },
            Workflow::AwaitCategories { owner } => match event {
                Event::CategoriesListed(Ok(mut categories)) => {
                    if categories.len() == 0 {
                        let listing = Catalog { owner, catalog: Vec::new() };
                        proof {
                            assert(listing@.catalog =~= Seq::<EntryView>::empty());
                        }
                        (Workflow::Finished, Action::Respond(Ok(Reply::Listing(listing))))
                    } else {
                        let ghost all = categories@;
                        let current = categories.remove(0);
                        let filter = owned_in_category(owner.as_str(), current.title.as_str());
                        let entries: Vec<CatalogEntry> = Vec::new();
                        proof {
                            assert(categories_view(categories@) =~= categories_view(all).drop_first());
                            assert(entries@.map_values(|e: CatalogEntry| e@) =~= Seq::<EntryView>::empty());
                        }
                        (
                            Workflow::Collecting { owner, current, pending: categories, entries },
                            Action::ListProducts(filter),
                        )
                    }
                },
                Event::CategoriesListed(Err(m)) => (
                    Workflow::Finished,
                    Action::Respond(Err(Failure::Store(m))),
                ),
                _ => vstd::pervasive::unreached(),
            },
            Workflow::Collecting { owner, current, mut pending, mut entries } => match event {
                Event::ProductsListed(Ok(products)) => {
                    let entry = catalog_entry(&current, &products);
                    let ghost before = entries@;
                    entries.push(entry);
                    proof {
                        assert(entries@.map_values(|e: CatalogEntry| e@) =~= before.map_values(
                            |e: CatalogEntry| e@,
                        ).push(entry@));
                    }
                    if pending.len() == 0 {
                        let listing = Catalog { owner, catalog: entries };
                        (Workflow::Finished, Action::Respond(Ok(Reply::Listing(listing))))
                    } else {
                        let ghost all = pending@;
                        let upcoming = pending.remove(0);
                        let filter = owned_in_category(owner.as_str(), upcoming.title.as_str());
                        proof {
                            assert(categories_view(pending@) =~= categories_view(all).drop_first());
                        }
                        (
                            Workflow::Collecting { owner, current: upcoming, pending, entries },
                            Action::ListProducts(filter),
                        )
                    }
                },
                Event::ProductsListed(Err(m)) => (
                    Workflow::Finished,
                    Action::Respond(Err(Failure::Store(m))),
                ),
                _ => vstd::pervasive::unreached(),
            },
            Workflow::AwaitPublish => (Workflow::Finished, Action::Respond(Ok(Reply::Done))),
            Workflow::Finished => vstd::pervasive::unreached(),
        }
    }
}

} // verus!
