use std::collections::HashMap;
use wrangler_core::error::{ConfigError, ResolveError};
use wrangler_core::kv::{
    check_duplicate_namespaces, first_duplicate_binding, get_namespace_id, validate_target,
};
use wrangler_core::target::{KvNamespace, Site, Target, TargetType};

fn namespace(binding: &str, id: &str) -> KvNamespace {
    KvNamespace { id: id.to_string(), binding: binding.to_string(), bucket: None }
}

fn target(account_id: &str, namespaces: Option<Vec<KvNamespace>>) -> Target {
    Target {
        account_id: account_id.to_string(),
        kv_namespaces: namespaces,
        name: "test-target".to_string(),
        target_type: TargetType::Webpack,
        route: None,
        routes: None,
        webpack_config: None,
        zone_id: None,
        site: None,
    }
}

#[test]
fn it_can_detect_duplicate_bindings() {
    let target_with_dup_kv_bindings = Target {
        account_id: "".to_string(),
        kv_namespaces: Some(vec![
            KvNamespace {
                id: "fake".to_string(),
                binding: "KV".to_string(),
                bucket: None,
            },
            KvNamespace {
                id: "fake".to_string(),
                binding: "KV".to_string(),
                bucket: None,
            },
        ]),
        name: "test-target".to_string(),
        target_type: TargetType::Webpack,
        route: None,
        routes: None,
        webpack_config: None,
        zone_id: None,
        site: None,
    };
    assert!(get_namespace_id(&target_with_dup_kv_bindings, "").is_err());
}

#[test]
fn duplicate_is_reported_for_any_requested_name() {
    let t = target("abc", Some(vec![namespace("KV", "one"), namespace("OTHER", "two"), namespace("KV", "three")]));
    for asked in ["KV", "OTHER", "MISSING", ""] {
        match get_namespace_id(&t, asked) {
            Err(ResolveError::DuplicateBinding { binding, target }) => {
                assert_eq!(binding, "KV");
                assert_eq!(target, "test-target");
            }
            other => panic!("expected a duplicate binding error, got {:?}", other),
        }
    }
}

#[test]
fn duplicate_error_names_the_offending_binding() {
    let t = target("", Some(vec![namespace("KV", "fake"), namespace("KV", "fake")]));
    match get_namespace_id(&t, "") {
        Err(ResolveError::DuplicateBinding { binding, target }) => {
            assert_eq!(binding, "KV");
            assert_eq!(target, "test-target");
        }
        other => panic!("expected a duplicate binding error, got {:?}", other),
    }
    let error = get_namespace_id(&t, "").unwrap_err();
    assert_eq!(error.message(), "Namespace binding \"KV\" is duplicated in \"test-target\"");
}

#[test]
fn duplicate_error_names_the_first_name_to_repeat() {
    let t = target(
        "abc",
        Some(vec![
            namespace("A", "1"),
            namespace("B", "2"),
            namespace("C", "3"),
            namespace("B", "4"),
            namespace("A", "5"),
            namespace("C", "6"),
        ]),
    );
    match get_namespace_id(&t, "A") {
        Err(ResolveError::DuplicateBinding { binding, .. }) => assert_eq!(binding, "B"),
        other => panic!("expected a duplicate binding error, got {:?}", other),
    }
    assert_eq!(first_duplicate_binding(&t), Some("B".to_string()));
}

#[test]
fn first_duplicate_binding_is_none_without_repeats() {
    assert_eq!(first_duplicate_binding(&target("", None)), None);
    assert_eq!(first_duplicate_binding(&target("", Some(vec![]))), None);
    assert_eq!(first_duplicate_binding(&target("", Some(vec![namespace("A", "x"), namespace("B", "x")]))), None);
    assert_eq!(
        first_duplicate_binding(&target("", Some(vec![namespace("", "x"), namespace("", "y")]))),
        Some(String::new())
    );
}

#[test]
fn single_binding_resolves_to_its_id() {
    let t = target("abc", Some(vec![namespace("B", "fake")]));
    assert_eq!(get_namespace_id(&t, "B").unwrap(), "fake");
}

#[test]
fn binding_resolves_among_others() {
    let t = target("abc", Some(vec![namespace("A", "id-a"), namespace("B", "id-b"), namespace("C", "id-c")]));
    assert_eq!(get_namespace_id(&t, "A").unwrap(), "id-a");
    assert_eq!(get_namespace_id(&t, "B").unwrap(), "id-b");
    assert_eq!(get_namespace_id(&t, "C").unwrap(), "id-c");
}

#[test]
fn binding_names_are_matched_exactly() {
    let t = target("abc", Some(vec![namespace("KV", "fake")]));
    assert!(matches!(get_namespace_id(&t, "kv"), Err(ResolveError::NotFound { .. })));
    assert!(matches!(get_namespace_id(&t, "KV "), Err(ResolveError::NotFound { .. })));
    assert!(matches!(get_namespace_id(&t, ""), Err(ResolveError::NotFound { .. })));
}

#[test]
fn missing_binding_is_not_found() {
    let t = target("abc", Some(vec![namespace("A", "id-a")]));
    match get_namespace_id(&t, "B") {
        Err(ResolveError::NotFound { binding, target }) => {
            assert_eq!(binding, "B");
            assert_eq!(target, "test-target");
        }
        other => panic!("expected a not found error, got {:?}", other),
    }
    let error = get_namespace_id(&t, "B").unwrap_err();
    assert_eq!(error.message(), "Namespace binding \"B\" not found in \"test-target\"");
}

#[test]
fn no_namespaces_means_not_found() {
    let absent = target("abc", None);
    assert!(matches!(get_namespace_id(&absent, "KV"), Err(ResolveError::NotFound { .. })));
    let empty = target("abc", Some(vec![]));
    assert!(matches!(get_namespace_id(&empty, "KV"), Err(ResolveError::NotFound { .. })));
}

#[test]
fn check_duplicate_namespaces_finds_repeats() {
    assert!(!check_duplicate_namespaces(&target("", None)));
    assert!(!check_duplicate_namespaces(&target("", Some(vec![]))));
    assert!(!check_duplicate_namespaces(&target("", Some(vec![namespace("A", "x")]))));
    assert!(!check_duplicate_namespaces(&target("", Some(vec![namespace("A", "x"), namespace("B", "x")]))));
    assert!(check_duplicate_namespaces(&target("", Some(vec![namespace("A", "x"), namespace("A", "y")]))));
    assert!(check_duplicate_namespaces(&target(
        "",
        Some(vec![namespace("A", "x"), namespace("B", "y"), namespace("C", "z"), namespace("B", "w")])
    )));
}

#[test]
fn validate_target_rejects_empty_account_id() {
    let error = validate_target(&target("", None)).unwrap_err();
    assert_eq!(error.missing_fields, vec!["account_id".to_string()]);
    assert_eq!(
        error.message(),
        "Your wrangler.toml is missing the following field(s): [\"account_id\"]"
    );
}

#[test]
fn validate_target_accepts_account_id() {
    assert!(validate_target(&target("0123456789abcdef", None)).is_ok());
    assert!(validate_target(&target(" ", None)).is_ok());
}

#[test]
fn validate_target_ignores_bindings() {
    let t = target("abc", Some(vec![namespace("KV", "fake"), namespace("KV", "fake")]));
    assert!(validate_target(&t).is_ok());
}

#[test]
fn config_error_lists_every_field() {
    let none = ConfigError { missing_fields: vec![] };
    assert_eq!(none.message(), "Your wrangler.toml is missing the following field(s): []");
    let two = ConfigError { missing_fields: vec!["account_id".to_string(), "zone_id".to_string()] };
    assert_eq!(
        two.message(),
        "Your wrangler.toml is missing the following field(s): [\"account_id\", \"zone_id\"]"
    );
}

#[test]
fn target_holds_the_whole_configuration() {
    let mut routes = HashMap::new();
    routes.insert("route-id".to_string(), "example.com/*".to_string());
    let t = Target {
        account_id: "abc".to_string(),
        kv_namespaces: Some(vec![KvNamespace {
            id: "fake".to_string(),
            binding: "KV".to_string(),
            bucket: Some("./public".to_string()),
        }]),
        name: "site".to_string(),
        target_type: TargetType::JavaScript,
        route: Some("example.com/*".to_string()),
        routes: Some(routes),
        webpack_config: None,
        zone_id: Some("zone".to_string()),
        site: Some(Site::new("./public")),
    };
    assert_eq!(t.site.as_ref().unwrap().bucket, "./public");
    assert_eq!(get_namespace_id(&t, "KV").unwrap(), "fake");
}
