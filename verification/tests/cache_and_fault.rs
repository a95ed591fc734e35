//! Tests for the class handle cache and the fault-safety wrapper.

use jni_glue::ClassCache;
use jni_glue::FaultPayload;
use jni_glue::Outcome;
use jni_glue::catch_panic;
use jni_glue::catch_panic_with;
use jni_glue::default_handler;
use jni_glue::HostException;

#[test]
fn cache_misses_then_hits() {
    let mut cache = ClassCache::new();
    assert_eq!(cache.lookup("java/util/ArrayList"), None);

    // The glue resolves the class once and promotes the handle.
    cache.insert(String::from("java/util/ArrayList"), 11);
    assert_eq!(cache.lookup("java/util/ArrayList"), Some(11));

    // Every later caller is answered from the cache with an equal handle;
    // no further load happens.
    assert_eq!(cache.lookup("java/util/ArrayList"), Some(11));
    assert_eq!(cache.len(), 1);
}

#[test]
fn cache_keeps_names_distinct() {
    let mut cache = ClassCache::new();
    cache.insert(String::from("java/lang/Integer"), 1);
    cache.insert(String::from("java/lang/Boolean"), 2);
    assert_eq!(cache.lookup("java/lang/Integer"), Some(1));
    assert_eq!(cache.lookup("java/lang/Boolean"), Some(2));
    assert_eq!(cache.lookup("java/lang/String"), None);
    assert_eq!(cache.len(), 2);
}

#[test]
fn preload_skips_already_cached_names() {
    let mut cache = ClassCache::new();
    cache.insert(String::from("java/lang/Integer"), 1);
    let batch = vec![
        (String::from("java/lang/Integer"), 100),
        (String::from("java/lang/Boolean"), 2),
        (String::from("java/lang/Boolean"), 200),
    ];
    cache.preload_classes(&batch);
    // A cached name keeps its first handle; the first of two equal names
    // within the batch wins.
    assert_eq!(cache.lookup("java/lang/Integer"), Some(1));
    assert_eq!(cache.lookup("java/lang/Boolean"), Some(2));
    assert_eq!(cache.len(), 2);
}

#[test]
fn completed_outcome_returns_result() {
    let (value, thrown) = catch_panic(Outcome::Completed(41i32), 0i32);
    assert_eq!(value, 41);
    assert!(thrown.is_none());
}

#[test]
fn aborted_outcome_returns_dummy_and_raises() {
    let payload = FaultPayload::Message(String::from("everything is not fine"));
    let (value, thrown) = catch_panic(Outcome::Aborted(payload), -1i32);
    assert_eq!(value, -1);
    let exception = thrown.expect("an exception must be raised");
    assert_eq!(exception.class_name, "java/lang/RuntimeException");
    assert_eq!(exception.message, "everything is not fine");
}

#[test]
fn opaque_payload_gets_placeholder_message() {
    let (value, thrown) = catch_panic(Outcome::Aborted::<i32>(FaultPayload::Opaque), 7);
    assert_eq!(value, 7);
    let exception = thrown.expect("an exception must be raised");
    assert_eq!(exception.class_name, "java/lang/RuntimeException");
    assert_eq!(exception.message, "Box<dyn Any>");
}

#[test]
fn default_handler_builds_runtime_exception() {
    let exception = default_handler(FaultPayload::Message(String::from("boom")));
    assert_eq!(exception.class_name, "java/lang/RuntimeException");
    assert_eq!(exception.message, "boom");
}

#[test]
fn custom_handler_chooses_the_exception() {
    fn enterprise_handler(payload: FaultPayload) -> HostException {
        let message = match payload {
            FaultPayload::Message(s) => s,
            FaultPayload::Opaque => String::from("unknown"),
        };
        HostException {
            class_name: String::from("com/example/ExampleEnterpriseException"),
            message,
        }
    }
    let payload = FaultPayload::Message(String::from("<insert factory noises>"));
    let (value, thrown) =
        catch_panic_with(Outcome::Aborted(payload), 0i64, enterprise_handler);
    assert_eq!(value, 0);
    let exception = thrown.expect("an exception must be raised");
    assert_eq!(exception.class_name, "com/example/ExampleEnterpriseException");
    assert_eq!(exception.message, "<insert factory noises>");
}
