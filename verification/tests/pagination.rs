use rabbitmqadmin_sdk::{Paginated, PaginationQuery};

#[test]
fn to_pairs_with_all_fields_set() {
    let q = PaginationQuery {
        page: Some(2),
        page_size: Some(50),
        name: Some("orders.*".into()),
        use_regex: Some(true),
    };
    let pairs = q.to_pairs();
    assert!(pairs.contains(&("page".to_string(), "2".to_string())));
    assert!(pairs.contains(&("page_size".to_string(), "50".to_string())));
    assert!(pairs.contains(&("name".to_string(), "orders.*".to_string())));
    assert!(pairs.contains(&("use_regex".to_string(), "true".to_string())));
    assert!(pairs.contains(&("pagination".to_string(), "true".to_string())));
    assert_eq!(pairs.len(), 5);
}

#[test]
fn to_pairs_with_no_fields_set_still_enables_pagination() {
    let q = PaginationQuery::default();
    let pairs = q.to_pairs();
    assert_eq!(pairs, vec![("pagination".to_string(), "true".to_string())]);
}

#[test]
fn to_pairs_keeps_field_order_and_ends_with_pagination() {
    let q = PaginationQuery {
        page: Some(10),
        page_size: None,
        name: Some("q".into()),
        use_regex: Some(false),
    };
    let pairs = q.to_pairs();
    let expected: Vec<(String, String)> = vec![
        ("page".into(), "10".into()),
        ("name".into(), "q".into()),
        ("use_regex".into(), "false".into()),
        ("pagination".into(), "true".into()),
    ];
    assert_eq!(pairs, expected);
}

#[test]
fn to_pairs_writes_large_page_sizes_in_decimal() {
    let q = PaginationQuery {
        page_size: Some(4_294_967_295),
        ..Default::default()
    };
    assert_eq!(
        q.to_pairs(),
        vec![
            ("page_size".to_string(), "4294967295".to_string()),
            ("pagination".to_string(), "true".to_string())
        ]
    );
}

#[test]
fn paginated_envelope_holds_its_fields() {
    let p = Paginated {
        items: vec!["q1", "q2"],
        page: 1,
        page_size: 100,
        total_count: 5,
        filtered_count: 2,
    };
    assert_eq!(p.items.len(), 2);
    assert_eq!(p.page, 1);
    assert_eq!(p.total_count, 5);
}
