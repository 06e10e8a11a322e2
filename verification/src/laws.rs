//! What holds of every run of the request workflows.
use vstd::prelude::*;
use crate::model::{catalog_for, entry_for, streamline, CategoryView, ProductView};
use crate::notice::{law_notice_names_owner, notice_for, owner_in};
use crate::workflow::{
    next, owner_category_filter, title_filter, ActionView, EventView, FailureView, Kind, ReplyView,
    WorkflowView,
};

verus! {

/// The workflow reached, and the actions asked for, when the outcomes
/// `events` are handed to the workflow `w` one after the other.
pub open spec fn run(w: WorkflowView, events: Seq<EventView>) -> (WorkflowView, Seq<ActionView>)
    decreases events.len(),
{
    if events.len() == 0 {
        (w, seq![])
    } else {
        let (w1, a) = next(w, events[0]);
        let (w2, rest) = run(w1, events.drop_first());
        (w2, seq![a] + rest)
    }
}

/// Each list of products handed in as the outcome of a listing.
pub open spec fn listings(lists: Seq<Seq<ProductView>>) -> Seq<EventView> {
    lists.map_values(|ps: Seq<ProductView>| EventView::ProductsListed(Ok(ps)))
}

/// The listing of the products of `owner` in each of `categories`.
pub open spec fn product_queries(owner: Seq<char>, categories: Seq<CategoryView>) -> Seq<ActionView> {
    categories.map_values(
        |c: CategoryView| ActionView::ListProducts(owner_category_filter(owner, c.title)),
    )
}

proof fn lemma_run_one(w: WorkflowView, e: EventView, rest: Seq<EventView>)
    ensures
        run(w, seq![e] + rest) == ({
            let (w1, a) = next(w, e);
            let (w2, acts) = run(w1, rest);
            (w2, seq![a] + acts)
        }),
{
    let events = seq![e] + rest;
    assert(events[0] == e);
    assert(events.drop_first() =~= rest);
}

proof fn lemma_collecting(
    owner: Seq<char>,
    categories: Seq<CategoryView>,
    lists: Seq<Seq<ProductView>>,
    k: int,
)
    requires
        lists.len() == categories.len(),
        0 <= k < categories.len(),
    ensures
        run(
            WorkflowView::Collecting {
                owner,
                current: categories[k],
                pending: categories.skip(k + 1),
                entries: catalog_for(owner, categories.take(k), lists.take(k)).catalog,
            },
            listings(lists.skip(k)),
        ) == (
            WorkflowView::Finished,
            product_queries(owner, categories.skip(k + 1)) + seq![
                ActionView::Respond(Ok(ReplyView::Listing(catalog_for(owner, categories, lists)))),
            ],
        ),
    decreases categories.len() - k,
{
    let n = categories.len();
    let w = WorkflowView::Collecting {
        owner,
        current: categories[k],
        pending: categories.skip(k + 1),
        entries: catalog_for(owner, categories.take(k), lists.take(k)).catalog,
    };
    let events = listings(lists.skip(k));
    assert(events =~= seq![EventView::ProductsListed(Ok(lists[k]))] + listings(lists.skip(k + 1)));
    lemma_run_one(w, EventView::ProductsListed(Ok(lists[k])), listings(lists.skip(k + 1)));
    let done = catalog_for(owner, categories.take(k), lists.take(k)).catalog.push(
        entry_for(categories[k], lists[k]),
    );
    assert(done =~= catalog_for(owner, categories.take(k + 1), lists.take(k + 1)).catalog);
    let respond = ActionView::Respond(
        Ok(ReplyView::Listing(catalog_for(owner, categories, lists))),
    );
    if k + 1 == n {
        assert(done =~= catalog_for(owner, categories, lists).catalog);
        assert(listings(lists.skip(k + 1)) =~= Seq::<EventView>::empty());
        assert(product_queries(owner, categories.skip(k + 1)) =~= Seq::<ActionView>::empty());
        assert(seq![respond] + Seq::<ActionView>::empty() =~= Seq::<ActionView>::empty()
            + seq![respond]);
    } else {
        assert(categories.skip(k + 1)[0] == categories[k + 1]);
        assert(categories.skip(k + 1).drop_first() =~= categories.skip(k + 2));
        lemma_collecting(owner, categories, lists, k + 1);
        let q = ActionView::ListProducts(owner_category_filter(owner, categories[k + 1].title));
        assert(product_queries(owner, categories.skip(k + 1)) =~= seq![q] + product_queries(
            owner,
            categories.skip(k + 2),
        ));
        assert(seq![q] + (product_queries(owner, categories.skip(k + 2)) + seq![respond])
            =~= seq![q] + product_queries(owner, categories.skip(k + 2)) + seq![respond]);
    }
}

/// A catalog request asks for the owner's products of each of the owner's
/// categories, in the order in which the categories were listed, and answers
/// the catalog whose `i`-th entry is the `i`-th category with the products
/// listed for it.
pub proof fn law_catalog_lists_each_category(
    owner: Seq<char>,
    categories: Seq<CategoryView>,
    lists: Seq<Seq<ProductView>>,
)
    requires
        lists.len() == categories.len(),
    ensures
        run(
            WorkflowView::AwaitCategories { owner },
            seq![EventView::CategoriesListed(Ok(categories))] + listings(lists),
        ) == (
            WorkflowView::Finished,
            product_queries(owner, categories) + seq![
                ActionView::Respond(Ok(ReplyView::Listing(catalog_for(owner, categories, lists)))),
            ],
        ),
{
    let w = WorkflowView::AwaitCategories { owner };
    let e = EventView::CategoriesListed(Ok(categories));
    lemma_run_one(w, e, listings(lists));
    let respond = ActionView::Respond(
        Ok(ReplyView::Listing(catalog_for(owner, categories, lists))),
    );
    if categories.len() == 0 {
        assert(catalog_for(owner, categories, lists).catalog =~= seq![]);
        assert(listings(lists) =~= Seq::<EventView>::empty());
        assert(product_queries(owner, categories) =~= Seq::<ActionView>::empty());
        assert(seq![respond] + Seq::<ActionView>::empty() =~= Seq::<ActionView>::empty()
            + seq![respond]);
    } else {
        assert(categories.skip(1) =~= categories.drop_first());
        assert(lists.skip(0) =~= lists);
        assert(catalog_for(owner, categories.take(0), lists.take(0)).catalog =~= seq![]);
        lemma_collecting(owner, categories, lists, 0);
        let q = ActionView::ListProducts(owner_category_filter(owner, categories[0].title));
        assert(product_queries(owner, categories) =~= seq![q] + product_queries(
            owner,
            categories.skip(1),
        ));
        assert(seq![q] + (product_queries(owner, categories.skip(1)) + seq![respond]) =~= seq![q]
            + product_queries(owner, categories.skip(1)) + seq![respond]);
    }
}

/// A new document is announced to its owner once the database has stored
/// it, and the request then succeeds.
pub proof fn law_creation_announces_owner(owner: Seq<char>)
    ensures
        run(
            WorkflowView::AwaitInsert { owner },
            seq![EventView::Inserted(Ok(())), EventView::Published],
        ) == (
            WorkflowView::Finished,
            seq![ActionView::Publish(notice_for(owner)), ActionView::Respond(Ok(ReplyView::Done))],
        ),
{
    reveal_with_fuel(run, 3);
}

/// A document that the database refuses is not announced, and the request
/// fails with the database's error.
pub proof fn law_refused_creation_fails(owner: Seq<char>, error: Seq<char>)
    ensures
        run(WorkflowView::AwaitInsert { owner }, seq![EventView::Inserted(Err(error))]) == (
            WorkflowView::Finished,
            seq![ActionView::Respond(Err(FailureView::Insert(error)))],
        ),
{
    reveal_with_fuel(run, 2);
}

/// Removing a product that the lookup finds removes by the same title,
/// announces the owner of the product found, and succeeds.
pub proof fn law_removal_of_found_product(title: Seq<char>, found: ProductView)
    ensures
        run(
            WorkflowView::AwaitLookup { kind: Kind::Product, title },
            seq![
                EventView::ProductFound(Ok(Some(found))),
                EventView::Deleted(Ok(())),
                EventView::Published,
            ],
        ) == (
            WorkflowView::Finished,
            seq![
                ActionView::DeleteProduct(title_filter(title)),
                ActionView::Publish(notice_for(found.owner)),
                ActionView::Respond(Ok(ReplyView::Done)),
            ],
        ),
{
    reveal_with_fuel(run, 4);
}

/// Removing a category that the lookup finds removes by the same title,
/// announces the owner of the category found, and succeeds.
pub proof fn law_removal_of_found_category(title: Seq<char>, found: CategoryView)
    ensures
        run(
            WorkflowView::AwaitLookup { kind: Kind::Category, title },
            seq![
                EventView::CategoryFound(Ok(Some(found))),
                EventView::Deleted(Ok(())),
                EventView::Published,
            ],
        ) == (
            WorkflowView::Finished,
            seq![
                ActionView::DeleteCategory(title_filter(title)),
                ActionView::Publish(notice_for(found.owner)),
                ActionView::Respond(Ok(ReplyView::Done)),
            ],
        ),
{
    reveal_with_fuel(run, 4);
}

/// The outcome of a lookup of the given kind that finds nothing.
pub open spec fn nothing_found(kind: Kind) -> EventView {
    match kind {
        Kind::Product => EventView::ProductFound(Ok(None)),
        Kind::Category => EventView::CategoryFound(Ok(None)),
    }
}

/// A removal whose lookup finds nothing answers "not found", removes
/// nothing and announces nothing.
pub proof fn law_removal_of_missing_document(kind: Kind, title: Seq<char>)
    ensures
        run(WorkflowView::AwaitLookup { kind, title }, seq![nothing_found(kind)]) == (
            WorkflowView::Finished,
            seq![ActionView::Respond(Ok(ReplyView::NotFound))],
        ),
{
    reveal_with_fuel(run, 2);
}

/// Filing a product under an existing category changes the product of that
/// title, announces the owner of the category, and succeeds.
pub proof fn law_association_files_product(
    product: Seq<char>,
    category: Seq<char>,
    found: CategoryView,
)
    ensures
        run(
            WorkflowView::AwaitCategory { product, category },
            seq![
                EventView::CategoryFound(Ok(Some(found))),
                EventView::Updated(Ok(())),
                EventView::Published,
            ],
        ) == (
            WorkflowView::Finished,
            seq![
                ActionView::UpdateProduct(title_filter(product), category),
                ActionView::Publish(notice_for(found.owner)),
                ActionView::Respond(Ok(ReplyView::Done)),
            ],
        ),
{
    reveal_with_fuel(run, 4);
}

/// Filing a product under a category that does not exist changes nothing
/// and fails, naming the category.
pub proof fn law_association_needs_category(product: Seq<char>, category: Seq<char>)
    ensures
        run(
            WorkflowView::AwaitCategory { product, category },
            seq![EventView::CategoryFound(Ok(None))],
        ) == (
            WorkflowView::Finished,
            seq![ActionView::Respond(Err(FailureView::CategoryNotFound(category)))],
        ),
{
    reveal_with_fuel(run, 2);
}

/// The database error that an outcome reports, if any.
pub open spec fn error_of(e: EventView) -> Option<Seq<char>> {
    match e {
        EventView::Inserted(Err(m)) => Some(m),
        EventView::ProductFound(Err(m)) => Some(m),
        EventView::CategoryFound(Err(m)) => Some(m),
        EventView::CategoriesListed(Err(m)) => Some(m),
        EventView::ProductsListed(Err(m)) => Some(m),
        EventView::Updated(Err(m)) => Some(m),
        EventView::Deleted(Err(m)) => Some(m),
        _ => None,
    }
}

/// The outcome reports that the database made a change.
pub open spec fn is_change(e: EventView) -> bool {
    e matches EventView::Inserted(Ok(_)) || e matches EventView::Deleted(Ok(_))
        || e matches EventView::Updated(Ok(_))
}

/// In every state, on every outcome it waits for: a notice is published only
/// right after the database made a change, and the publishing job reads back
/// out of it the owner it was made for; a database error answers the request
/// with that error at once; and the request is over exactly when it answers.
pub proof fn law_every_step(w: WorkflowView, e: EventView)
    requires
        w.accepts(e),
    ensures
        next(w, e).1 matches ActionView::Publish(m) ==> is_change(e) && exists|o: Seq<char>|
            m == notice_for(o) && owner_in(m) == Some(o),
        error_of(e) matches Some(m) ==> next(w, e).0 == WorkflowView::Finished && (next(w, e).1
            == ActionView::Respond(Err(FailureView::Store(m))) || next(w, e).1 == ActionView::Respond(
            Err(FailureView::Insert(m)),
        )),
        (next(w, e).1 is Respond) == (next(w, e).0 == WorkflowView::Finished),
{
    if let ActionView::Publish(m) = next(w, e).1 {
        let o = match w {
            WorkflowView::AwaitInsert { owner } => owner,
            WorkflowView::AwaitDeletion { owner } => owner,
            WorkflowView::AwaitUpdate { owner } => owner,
            _ => arbitrary(),
        };
        law_notice_names_owner(o);
        assert(m == notice_for(o) && owner_in(m) == Some(o));
    }
}

/// How far a workflow is from its answer: outcomes still to come before the
/// current phase ends, and phases still to come, compared in that order of
/// importance (phase first).
pub open spec fn progress(w: WorkflowView) -> (nat, nat) {
    match w {
        WorkflowView::AwaitLookup { .. } => (3, 0),
        WorkflowView::AwaitCategory { .. } => (3, 0),
        WorkflowView::AwaitCategories { .. } => (3, 0),
        WorkflowView::AwaitInsert { .. } => (2, 0),
        WorkflowView::AwaitDeletion { .. } => (2, 0),
        WorkflowView::AwaitUpdate { .. } => (2, 0),
        WorkflowView::Collecting { pending, .. } => (2, pending.len()),
        WorkflowView::AwaitPublish => (1, 0),
        WorkflowView::Finished => (0, 0),
    }
}

/// `a` comes before `b` in lexicographic order.
pub open spec fn lex_less(a: (nat, nat), b: (nat, nat)) -> bool {
    a.0 < b.0 || (a.0 == b.0 && a.1 < b.1)
}

/// Every outcome a workflow waits for brings it closer to its answer, so
/// every request is answered after finitely many outcomes; once answered, a
/// workflow waits for nothing.
pub proof fn law_every_request_is_answered(w: WorkflowView, e: EventView)
    requires
        w.accepts(e),
    ensures
        lex_less(progress(next(w, e).0), progress(w)),
        !WorkflowView::Finished.accepts(e),
{
}

/// A product of the owner filed under the `i`-th category is one that the
/// request's `i`-th product listing selects; and whatever that listing
/// returns shows up, with its title, description and price, in the entry of
/// that category in the catalog the request answers.
pub proof fn law_stored_product_appears_in_catalog(
    owner: Seq<char>,
    categories: Seq<CategoryView>,
    lists: Seq<Seq<ProductView>>,
    i: int,
    p: ProductView,
)
    requires
        lists.len() == categories.len(),
        0 <= i < categories.len(),
    ensures
        product_queries(owner, categories)[i] == ActionView::ListProducts(
            owner_category_filter(owner, categories[i].title),
        ),
        owner_category_filter(owner, categories[i].title).selects_product(p) <==> (p.owner
            == owner && p.category == categories[i].title),
        run(
            WorkflowView::AwaitCategories { owner },
            seq![EventView::CategoriesListed(Ok(categories))] + listings(lists),
        ).1.last() == ActionView::Respond(
            Ok(ReplyView::Listing(catalog_for(owner, categories, lists))),
        ),
        catalog_for(owner, categories, lists).catalog[i].category_title == categories[i].title,
        lists[i].contains(p) ==> catalog_for(owner, categories, lists).catalog[i].items.contains(
            streamline(p),
        ),
{
    law_catalog_lists_each_category(owner, categories, lists);
    let entry = catalog_for(owner, categories, lists).catalog[i];
    if lists[i].contains(p) {
        let j = choose|j: int| 0 <= j < lists[i].len() && lists[i][j] == p;
        assert(entry.items[j] == streamline(p));
    }
}

} // verus!
