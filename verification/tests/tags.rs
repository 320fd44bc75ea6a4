use rabbitmqadmin_sdk::types::common::split_tags;

#[test]
fn split_tags_single() {
    assert_eq!(split_tags("administrator"), vec!["administrator"]);
}

#[test]
fn split_tags_comma_separated() {
    assert_eq!(
        split_tags("management,policymaker"),
        vec!["management", "policymaker"]
    );
}

#[test]
fn split_tags_trims_and_drops_empty() {
    assert_eq!(
        split_tags(" administrator , ,management,, "),
        vec!["administrator", "management"]
    );
    assert!(split_tags("").is_empty());
    assert!(split_tags(" , ,").is_empty());
}

#[test]
fn split_tags_trims_unicode_white_space() {
    assert_eq!(split_tags("\u{3000}a\t,\u{a0}b\n"), vec!["a", "b"]);
}

#[test]
fn joined_clean_tags_read_back() {
    for tags in [vec![], vec!["administrator"], vec!["management", "policymaker", "monitoring"]] {
        let joined = tags.join(",");
        assert_eq!(split_tags(&joined), tags, "joined: {joined:?}");
    }
}
