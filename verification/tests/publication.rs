use anotaai::notice::owner_notice;
use anotaai::publication::{deliveries, mongo_access, plan_publication, Delivery, MongoAccess, Publication};
use anotaai::query::{owned_by, owned_in_category, titled, Filter};

#[test]
fn every_delivery_of_a_batch_is_handled_in_order() {
    assert_eq!(deliveries(&Vec::new()), Vec::<Delivery>::new());
    let bodies = vec![
        Some(r#"{"Message":"owner: ann"}"#.to_string()),
        None,
        Some(r#"{"Message":"owner: joe"}"#.to_string()),
    ];
    assert_eq!(
        deliveries(&bodies),
        vec![
            Delivery::Body(r#"{"Message":"owner: ann"}"#.to_string()),
            Delivery::NoBody,
            Delivery::Body(r#"{"Message":"owner: joe"}"#.to_string()),
        ]
    );
}

#[test]
fn each_owner_of_a_batch_gets_its_catalog() {
    let plans: Vec<Publication> = ["ann", "joe"]
        .iter()
        .map(|owner| plan_publication(&owner_notice(owner), "https://api.example"))
        .collect();
    let keys: Vec<String> = plans
        .into_iter()
        .map(|plan| match plan {
            Publication::Upload { key, .. } => key,
            Publication::Malformed => panic!("a notice names its owner"),
        })
        .collect();
    assert_eq!(keys, vec!["ann.json".to_string(), "joe.json".to_string()]);
}

#[test]
fn notice_publishes_the_owner_catalog() {
    let notice = owner_notice("luigi");
    assert_eq!(
        plan_publication(&notice, "https://api.example"),
        Publication::Upload {
            owner: "luigi".to_string(),
            catalog_url: "https://api.example/catalog".to_string(),
            file: "/tmp/luigi_catalog.json".to_string(),
            key: "luigi.json".to_string(),
        }
    );
}

#[test]
fn malformed_notice_publishes_nothing() {
    assert_eq!(plan_publication("hello", "https://api.example"), Publication::Malformed);
}

#[test]
fn remote_database_url_wins() {
    assert_eq!(
        mongo_access(Some("mongodb+srv://cluster".to_string()), None, None, None),
        Some(MongoAccess::Remote { url: "mongodb+srv://cluster".to_string() })
    );
}

#[test]
fn local_database_needs_service_and_credentials() {
    assert_eq!(
        mongo_access(None, Some("mongo".to_string()), Some("root".to_string()), Some("pw".to_string())),
        Some(MongoAccess::Local {
            url: "mongodb://mongo:27017".to_string(),
            username: "root".to_string(),
            password: "pw".to_string(),
        })
    );
    assert_eq!(mongo_access(None, Some("mongo".to_string()), None, Some("pw".to_string())), None);
}

#[test]
fn filters_set_only_the_fields_they_select_on() {
    assert_eq!(owned_by("luigi"), Filter { owner: Some("luigi".to_string()), title: None, category: None });
    assert_eq!(titled("Pizzas"), Filter { owner: None, title: Some("Pizzas".to_string()), category: None });
    assert_eq!(
        owned_in_category("luigi", "Pizzas"),
        Filter { owner: Some("luigi".to_string()), title: None, category: Some("Pizzas".to_string()) }
    );
}
