use anotaai::model::{catalog_entry, Category, Product, StreamlinedProduct};

fn product(title: &str, price: u32, category: &str, owner: &str) -> Product {
    Product {
        title: title.to_string(),
        description: format!("{title} description"),
        price,
        category: category.to_string(),
        owner: owner.to_string(),
    }
}

#[test]
fn streamlined_product_keeps_title_description_and_price() {
    let p = product("Margherita", 4200, "Pizzas", "luigi");
    let s = StreamlinedProduct::from(p);
    assert_eq!(s.title, "Margherita");
    assert_eq!(s.description, "Margherita description");
    assert_eq!(s.price, 4200);
}

#[test]
fn catalog_entry_lists_products_in_order() {
    let category = Category {
        title: "Pizzas".to_string(),
        description: "Baked".to_string(),
        owner: "luigi".to_string(),
    };
    let products = vec![
        product("Margherita", 4200, "Pizzas", "luigi"),
        product("Calabresa", 4500, "Pizzas", "luigi"),
    ];
    let entry = catalog_entry(&category, &products);
    assert_eq!(entry.category_title, "Pizzas");
    assert_eq!(entry.category_description, "Baked");
    assert_eq!(entry.items.len(), 2);
    assert_eq!(entry.items[0].title, "Margherita");
    assert_eq!(entry.items[1].title, "Calabresa");
    assert_eq!(entry.items[1].price, 4500);
}

#[test]
fn catalog_entry_of_empty_category_has_no_items() {
    let category = Category {
        title: "Drinks".to_string(),
        description: "Cold".to_string(),
        owner: "luigi".to_string(),
    };
    let entry = catalog_entry(&category, &Vec::new());
    assert!(entry.items.is_empty());
}
