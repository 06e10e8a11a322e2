use anotaai::notice::{owner_from_notice, owner_notice};

#[test]
fn notice_names_the_owner() {
    assert_eq!(owner_notice("luigi"), "owner: luigi");
}

#[test]
fn owner_is_read_back_from_its_notice() {
    for owner in ["luigi", "", "José Pão", "a: b", "x:y", ": "] {
        let notice = owner_notice(owner);
        assert_eq!(owner_from_notice(&notice), Some(owner.to_string()));
    }
}

#[test]
fn text_after_first_separator_is_the_owner() {
    assert_eq!(owner_from_notice("label: rest: more"), Some("rest: more".to_string()));
    assert_eq!(owner_from_notice(": tail"), Some("tail".to_string()));
    assert_eq!(owner_from_notice("owner: "), Some(String::new()));
}

#[test]
fn message_without_separator_names_no_owner() {
    assert_eq!(owner_from_notice("owner:luigi"), None);
    assert_eq!(owner_from_notice("owner luigi"), None);
    assert_eq!(owner_from_notice(""), None);
    assert_eq!(owner_from_notice(":"), None);
}
