use anotaai::model::{
    Catalog, CatalogEntry, Category, CategoryId, Owner, Product, ProductAssociation, ProductId,
    StreamlinedProduct,
};
use anotaai::query::{assign_category, owned_by, owned_in_category, titled};
use anotaai::workflow::{Action, Event, Failure, Reply, Workflow};

fn product(title: &str, category: &str, owner: &str, price: u32) -> Product {
    Product {
        title: title.to_string(),
        description: format!("about {title}"),
        price,
        category: category.to_string(),
        owner: owner.to_string(),
    }
}

fn category(title: &str, owner: &str) -> Category {
    Category {
        title: title.to_string(),
        description: format!("all {title}"),
        owner: owner.to_string(),
    }
}

/// Hands the outcomes to the workflow in order and gathers every action it
/// asks for, the first one included.
fn drive(start: (Workflow, Action), events: Vec<Event>) -> Vec<Action> {
    let (mut workflow, first) = start;
    let mut actions = vec![first];
    for event in events {
        assert!(workflow.accepts(&event));
        let (next, action) = workflow.step(event);
        workflow = next;
        actions.push(action);
    }
    assert_eq!(workflow, Workflow::Finished);
    actions
}

#[test]
fn created_product_is_announced_to_its_owner() {
    let p = product("Margherita", "Pizzas", "luigi", 4200);
    let actions = drive(
        Workflow::product(p.clone()),
        vec![Event::Inserted(Ok(())), Event::Published],
    );
    assert_eq!(
        actions,
        vec![
            Action::InsertProduct(p),
            Action::Publish("owner: luigi".to_string()),
            Action::Respond(Ok(Reply::Done)),
        ]
    );
}

#[test]
fn refused_product_fails_without_notice() {
    let p = product("Margherita", "Pizzas", "luigi", 4200);
    let actions = drive(Workflow::product(p.clone()), vec![Event::Inserted(Err("duplicate".to_string()))]);
    assert_eq!(
        actions,
        vec![
            Action::InsertProduct(p),
            Action::Respond(Err(Failure::Insert("duplicate".to_string()))),
        ]
    );
}

#[test]
fn created_category_is_announced_to_its_owner() {
    let c = category("Drinks", "maria");
    let actions = drive(
        Workflow::category(c.clone()),
        vec![Event::Inserted(Ok(())), Event::Published],
    );
    assert_eq!(
        actions,
        vec![
            Action::InsertCategory(c),
            Action::Publish("owner: maria".to_string()),
            Action::Respond(Ok(Reply::Done)),
        ]
    );
}

#[test]
fn deleting_a_product_announces_the_owner_found() {
    let found = product("Margherita", "Pizzas", "luigi", 4200);
    let actions = drive(
        Workflow::delete_product(ProductId { product: "Margherita".to_string() }),
        vec![Event::ProductFound(Ok(Some(found))), Event::Deleted(Ok(())), Event::Published],
    );
    assert_eq!(
        actions,
        vec![
            Action::FindProduct(titled("Margherita")),
            Action::DeleteProduct(titled("Margherita")),
            Action::Publish("owner: luigi".to_string()),
            Action::Respond(Ok(Reply::Done)),
        ]
    );
}

#[test]
fn deleting_a_missing_product_answers_not_found() {
    let actions = drive(
        Workflow::delete_product(ProductId { product: "Ghost".to_string() }),
        vec![Event::ProductFound(Ok(None))],
    );
    assert_eq!(
        actions,
        vec![Action::FindProduct(titled("Ghost")), Action::Respond(Ok(Reply::NotFound))]
    );
    match &actions[1] {
        Action::Respond(Ok(reply)) => assert_eq!(reply.status(), 404),
        _ => unreachable!(),
    }
}

#[test]
fn failed_lookup_fails_the_deletion() {
    let actions = drive(
        Workflow::delete_product(ProductId { product: "Margherita".to_string() }),
        vec![Event::ProductFound(Err("timeout".to_string()))],
    );
    assert_eq!(actions[1], Action::Respond(Err(Failure::Store("timeout".to_string()))));
}

#[test]
fn failed_removal_fails_without_notice() {
    let found = product("Margherita", "Pizzas", "luigi", 4200);
    let actions = drive(
        Workflow::delete_product(ProductId { product: "Margherita".to_string() }),
        vec![Event::ProductFound(Ok(Some(found))), Event::Deleted(Err("locked".to_string()))],
    );
    assert_eq!(actions[2], Action::Respond(Err(Failure::Store("locked".to_string()))));
}

#[test]
fn deleting_a_category_announces_the_owner_found() {
    let found = category("Drinks", "maria");
    let actions = drive(
        Workflow::delete_category(CategoryId { category: "Drinks".to_string() }),
        vec![Event::CategoryFound(Ok(Some(found))), Event::Deleted(Ok(())), Event::Published],
    );
    assert_eq!(
        actions,
        vec![
            Action::FindCategory(titled("Drinks")),
            Action::DeleteCategory(titled("Drinks")),
            Action::Publish("owner: maria".to_string()),
            Action::Respond(Ok(Reply::Done)),
        ]
    );
}

#[test]
fn deleting_a_missing_category_answers_not_found() {
    let actions = drive(
        Workflow::delete_category(CategoryId { category: "Drinks".to_string() }),
        vec![Event::CategoryFound(Ok(None))],
    );
    assert_eq!(actions[1], Action::Respond(Ok(Reply::NotFound)));
}

#[test]
fn association_files_product_and_announces_category_owner() {
    let association =
        ProductAssociation { product: "Margherita".to_string(), category: "Pizzas".to_string() };
    let actions = drive(
        Workflow::associate(association),
        vec![
            Event::CategoryFound(Ok(Some(category("Pizzas", "maria")))),
            Event::Updated(Ok(())),
            Event::Published,
        ],
    );
    assert_eq!(
        actions,
        vec![
            Action::FindCategory(titled("Pizzas")),
            Action::UpdateProduct(titled("Margherita"), assign_category("Pizzas")),
            Action::Publish("owner: maria".to_string()),
            Action::Respond(Ok(Reply::Done)),
        ]
    );
}

#[test]
fn association_with_missing_category_fails_naming_it() {
    let association =
        ProductAssociation { product: "Margherita".to_string(), category: "Pizzas".to_string() };
    let actions = drive(Workflow::associate(association), vec![Event::CategoryFound(Ok(None))]);
    let failure = Failure::CategoryNotFound("Pizzas".to_string());
    assert_eq!(actions[1], Action::Respond(Err(failure)));
    assert_eq!(
        Failure::CategoryNotFound("Pizzas".to_string()).message(),
        "Category not found: Pizzas"
    );
}

#[test]
fn association_fails_when_update_fails() {
    let association =
        ProductAssociation { product: "Margherita".to_string(), category: "Pizzas".to_string() };
    let actions = drive(
        Workflow::associate(association),
        vec![
            Event::CategoryFound(Ok(Some(category("Pizzas", "maria")))),
            Event::Updated(Err("conflict".to_string())),
        ],
    );
    assert_eq!(actions[2], Action::Respond(Err(Failure::Store("conflict".to_string()))));
}

#[test]
fn catalog_without_categories_is_empty() {
    let actions = drive(
        Workflow::catalog(Owner { owner: "luigi".to_string() }),
        vec![Event::CategoriesListed(Ok(Vec::new()))],
    );
    assert_eq!(
        actions,
        vec![
            Action::ListCategories(owned_by("luigi")),
            Action::Respond(Ok(Reply::Listing(Catalog {
                owner: "luigi".to_string(),
                catalog: Vec::new(),
            }))),
        ]
    );
}

#[test]
fn catalog_groups_products_by_category_in_order() {
    let pizzas = category("Pizzas", "luigi");
    let drinks = category("Drinks", "luigi");
    let margherita = product("Margherita", "Pizzas", "luigi", 4200);
    let calabresa = product("Calabresa", "Pizzas", "luigi", 4500);
    let actions = drive(
        Workflow::catalog(Owner { owner: "luigi".to_string() }),
        vec![
            Event::CategoriesListed(Ok(vec![pizzas, drinks])),
            Event::ProductsListed(Ok(vec![margherita, calabresa])),
            Event::ProductsListed(Ok(Vec::new())),
        ],
    );
    let item = |title: &str, price: u32| StreamlinedProduct {
        title: title.to_string(),
        description: format!("about {title}"),
        price,
    };
    assert_eq!(
        actions,
        vec![
            Action::ListCategories(owned_by("luigi")),
            Action::ListProducts(owned_in_category("luigi", "Pizzas")),
            Action::ListProducts(owned_in_category("luigi", "Drinks")),
            Action::Respond(Ok(Reply::Listing(Catalog {
                owner: "luigi".to_string(),
                catalog: vec![
                    CatalogEntry {
                        category_title: "Pizzas".to_string(),
                        category_description: "all Pizzas".to_string(),
                        items: vec![item("Margherita", 4200), item("Calabresa", 4500)],
                    },
                    CatalogEntry {
                        category_title: "Drinks".to_string(),
                        category_description: "all Drinks".to_string(),
                        items: Vec::new(),
                    },
                ],
            }))),
        ]
    );
}

#[test]
fn catalog_fails_when_a_listing_fails() {
    let actions = drive(
        Workflow::catalog(Owner { owner: "luigi".to_string() }),
        vec![
            Event::CategoriesListed(Ok(vec![category("Pizzas", "luigi"), category("Drinks", "luigi")])),
            Event::ProductsListed(Err("cursor lost".to_string())),
        ],
    );
    assert_eq!(actions.len(), 3);
    assert_eq!(actions[2], Action::Respond(Err(Failure::Store("cursor lost".to_string()))));
}

#[test]
fn catalog_fails_when_categories_cannot_be_listed() {
    let actions = drive(
        Workflow::catalog(Owner { owner: "luigi".to_string() }),
        vec![Event::CategoriesListed(Err("down".to_string()))],
    );
    assert_eq!(actions[1], Action::Respond(Err(Failure::Store("down".to_string()))));
}

#[test]
fn workflow_waits_only_for_the_outcome_it_asked_for() {
    let (workflow, _) = Workflow::delete_product(ProductId { product: "x".to_string() });
    assert!(workflow.accepts(&Event::ProductFound(Ok(None))));
    assert!(!workflow.accepts(&Event::CategoryFound(Ok(None))));
    assert!(!workflow.accepts(&Event::Published));
    assert!(!Workflow::Finished.accepts(&Event::Published));
}

#[test]
fn failure_messages() {
    assert_eq!(Failure::Insert("E11000".to_string()).message(), "Error: E11000");
    assert_eq!(Failure::Store("timeout".to_string()).message(), "timeout");
    assert_eq!(Reply::Done.status(), 200);
    assert_eq!(Reply::NotFound.status(), 404);
}

#[test]
fn stored_product_appears_in_its_category_entry() {
    let stored = product("Margherita", "Pizzas", "luigi", 4200);
    let query = owned_in_category("luigi", "Pizzas");
    assert_eq!(query.owner.as_deref(), Some(stored.owner.as_str()));
    assert_eq!(query.category.as_deref(), Some(stored.category.as_str()));
    let actions = drive(
        Workflow::catalog(Owner { owner: "luigi".to_string() }),
        vec![
            Event::CategoriesListed(Ok(vec![category("Pizzas", "luigi")])),
            Event::ProductsListed(Ok(vec![stored.clone()])),
        ],
    );
    assert_eq!(actions[1], Action::ListProducts(query));
    match actions.last() {
        Some(Action::Respond(Ok(Reply::Listing(catalog)))) => {
            assert_eq!(catalog.catalog[0].category_title, "Pizzas");
            assert!(catalog.catalog[0].items.contains(&StreamlinedProduct::from(stored)));
        }
        _ => panic!("the catalog is answered"),
    }
}
