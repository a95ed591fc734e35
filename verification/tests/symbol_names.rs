//! Tests for the symbol name generator: export-name mangling, namespace
//! validation, and the modeled boundary rewrite.

use jni_glue::create_jni_fn_name;
use jni_glue::valid_namespace;
use jni_glue::symbol::ExpandError;
use jni_glue::symbol::FnItem;
use jni_glue::symbol::jni_fn;

#[test]
fn test_create_jni_fn_name() {
    assert_eq!(
        create_jni_fn_name("com.example.Foo", "init"),
        "Java_com_example_Foo_init"
    );
    assert_eq!(
        create_jni_fn_name("com.example.Bar", "closeIt"),
        "Java_com_example_Bar_closeIt"
    );
    assert_eq!(
        create_jni_fn_name("com.example.Bar", "close_it"),
        "Java_com_example_Bar_close_1it"
    );
    assert_eq!(
        create_jni_fn_name(
            "org.signal.client.internal.Native",
            "IdentityKeyPair_Deserialize"
        ),
        "Java_org_signal_client_internal_Native_IdentityKeyPair_1Deserialize"
    );
}

#[test]
fn test_valid_namespace() {
    assert!(valid_namespace("com.example.Foo"));
    assert!(valid_namespace("com.antonok.kb"));
    assert!(valid_namespace("org.signal.client.internal.Native"));
    assert!(valid_namespace("net.under_score"));
    assert!(!valid_namespace("com example Foo"));
    assert!(!valid_namespace(" com.example.Foo"));
    assert!(!valid_namespace("com.example.Foo "));
    assert!(!valid_namespace("com.example.1Foo"));
}

#[test]
fn namespace_with_underscored_segment_is_mangled() {
    assert_eq!(
        create_jni_fn_name("net.under_score", "run"),
        "Java_net_under_1score_run"
    );
}

#[test]
fn empty_and_dotted_namespaces_are_invalid() {
    assert!(!valid_namespace(""));
    assert!(!valid_namespace("."));
    assert!(!valid_namespace("com..example"));
    assert!(!valid_namespace(".com.example"));
    assert!(!valid_namespace("com.example."));
    assert!(valid_namespace("single"));
}

fn plain_item(name: &str) -> FnItem {
    FnItem {
        name: String::from(name),
        is_public: true,
        abi: None,
        no_mangle: false,
        has_env_param: true,
    }
}

#[test]
fn rewrite_attaches_convention_and_export_name() {
    let item = plain_item("close_it");
    let (rewritten, err) = jni_fn("com.example.Bar", &item);
    assert!(err.is_none());
    assert_eq!(rewritten.name, "Java_com_example_Bar_close_1it");
    assert_eq!(rewritten.abi.as_deref(), Some("system"));
    assert!(rewritten.no_mangle);
    assert!(rewritten.is_public);
}

#[test]
fn rewrite_rejects_invalid_namespace() {
    let item = plain_item("run");
    let (kept, err) = jni_fn("com example Foo", &item);
    assert_eq!(err, Some(ExpandError::InvalidNamespace));
    assert_eq!(kept.name, "run");
    assert_eq!(kept.abi, None);
    assert!(!kept.no_mangle);

    let (kept, err) = jni_fn("com.example.1Foo", &item);
    assert_eq!(err, Some(ExpandError::InvalidNamespace));
    assert_eq!(kept.name, "run");
}

#[test]
fn rewrite_rejects_explicit_abi_and_keeps_item() {
    let mut item = plain_item("close_it");
    item.abi = Some(String::from("C"));
    let (kept, err) = jni_fn("com.example.Foo", &item);
    assert_eq!(err, Some(ExpandError::AbiAlreadySpecified));
    // The original function is still emitted, unchanged.
    assert_eq!(kept.name, "close_it");
    assert_eq!(kept.abi.as_deref(), Some("C"));
    assert!(!kept.no_mangle);
}

#[test]
fn rewrite_rejects_non_public_and_keeps_item() {
    let mut item = plain_item("close_it");
    item.is_public = false;
    let (kept, err) = jni_fn("com.example.Foo", &item);
    assert_eq!(err, Some(ExpandError::NotPublic));
    assert_eq!(kept.name, "close_it");
    assert!(!kept.is_public);
}

#[test]
fn rewrite_rejects_missing_env_param() {
    let mut item = plain_item("close_it");
    item.has_env_param = false;
    let (kept, err) = jni_fn("com.example.Foo", &item);
    assert_eq!(err, Some(ExpandError::MissingEnvParam));
    assert_eq!(kept.name, "close_it");
}
