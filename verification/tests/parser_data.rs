//! Tests for the category code table, the thumbnail key rule, and the
//! scraped-record conversion descriptors.

use jni_glue::FromJava;
use jni_glue::IntoJava;
use jni_glue::JavaValue;
use jni_glue::Limits;
use jni_glue::Torrent;
use jni_glue::get_thumb_key;
use jni_glue::to_category_i32;

#[test]
fn category_codes() {
    assert_eq!(to_category_i32("misc"), 0x1);
    assert_eq!(to_category_i32("doujinshi"), 0x2);
    assert_eq!(to_category_i32("manga"), 0x4);
    assert_eq!(to_category_i32("artistcg"), 0x8);
    assert_eq!(to_category_i32("artist cg sets"), 0x8);
    assert_eq!(to_category_i32("artist cg"), 0x8);
    assert_eq!(to_category_i32("gamecg"), 0x10);
    assert_eq!(to_category_i32("game cg sets"), 0x10);
    assert_eq!(to_category_i32("game cg"), 0x10);
    assert_eq!(to_category_i32("imageset"), 0x20);
    assert_eq!(to_category_i32("image sets"), 0x20);
    assert_eq!(to_category_i32("image set"), 0x20);
    assert_eq!(to_category_i32("cosplay"), 0x40);
    assert_eq!(to_category_i32("asianporn"), 0x80);
    assert_eq!(to_category_i32("asian porn"), 0x80);
    assert_eq!(to_category_i32("non-h"), 0x100);
    assert_eq!(to_category_i32("western"), 0x200);
    assert_eq!(to_category_i32("private"), 0x400);
    assert_eq!(to_category_i32("unknown"), 0x800);
    assert_eq!(to_category_i32(""), 0x800);
    assert_eq!(to_category_i32("Misc"), 0x800);
}

#[test]
fn thumb_keys() {
    assert_eq!(
        get_thumb_key("https://ehgt.org/t/ab/cd/abcd-250.jpg"),
        "ab/cd/abcd-250.jpg"
    );
    assert_eq!(
        get_thumb_key("https://s.exhentai.org/t/12/34/1234-250.jpg"),
        "12/34/1234-250.jpg"
    );
    assert_eq!(get_thumb_key("t/ab/cd/key.jpg"), "ab/cd/key.jpg");
    assert_eq!(get_thumb_key("ab/cd/key.jpg"), "ab/cd/key.jpg");
    assert_eq!(get_thumb_key(""), "");
}

#[test]
fn thumb_key_strips_repeated_prefixes() {
    // Leading repetitions of a prefix are all removed.
    assert_eq!(get_thumb_key("t/t/ab.jpg"), "ab.jpg");
    // A prefix not at the very front stays.
    assert_eq!(get_thumb_key("x/t/ab.jpg"), "x/t/ab.jpg");
}

#[test]
fn limits_converts_through_constructor_call() {
    let limits = Limits {
        current: 10,
        maximum: 5000,
        resetCost: 20,
    };
    let v = limits.into_java();
    match &v {
        JavaValue::Instance(class, args) => {
            assert_eq!(class, "com/hippo/ehviewer/client/parser/Limits");
            assert_eq!(
                args.as_slice(),
                &[
                    JavaValue::Int(10),
                    JavaValue::Int(5000),
                    JavaValue::Int(20)
                ]
            );
        }
        other => panic!("expected an instance, got {:?}", other),
    }
    assert_eq!(Limits::from_java(&v), Ok(limits));
    assert_eq!(
        <Limits as IntoJava>::jni_signature(),
        "Lcom/hippo/ehviewer/client/parser/Limits;"
    );
}

#[test]
fn torrent_converts_through_constructor_call() {
    let torrent = Torrent {
        posted: String::from("2024-01-02"),
        size: String::from("12.5 MB"),
        seeds: 3,
        peers: 1,
        downloads: 44,
        url: String::from("https://example.org/t.torrent"),
        name: String::from("a name"),
    };
    let v = torrent.clone().into_java();
    match &v {
        JavaValue::Instance(class, args) => {
            assert_eq!(class, "com/hippo/ehviewer/client/parser/Torrent");
            assert_eq!(args.len(), 7);
            assert_eq!(args[0], JavaValue::Str(String::from("2024-01-02")));
            assert_eq!(args[2], JavaValue::Int(3));
            assert_eq!(args[6], JavaValue::Str(String::from("a name")));
        }
        other => panic!("expected an instance, got {:?}", other),
    }
    assert_eq!(Torrent::from_java(&v), Ok(torrent));
}

#[test]
fn torrent_list_round_trip() {
    let torrents = vec![
        Torrent {
            posted: String::from("p1"),
            size: String::from("1 KB"),
            seeds: 1,
            peers: 0,
            downloads: 2,
            url: String::from("u1"),
            name: String::from("n1"),
        },
        Torrent {
            posted: String::from("p2"),
            size: String::from("2 KB"),
            seeds: 5,
            peers: 4,
            downloads: 9,
            url: String::from("u2"),
            name: String::from("n2"),
        },
    ];
    let v = torrents.clone().into_java();
    assert_eq!(Vec::<Torrent>::from_java(&v), Ok(torrents));
}

#[test]
fn record_with_wrong_class_is_rejected() {
    let limits = Limits {
        current: 1,
        maximum: 2,
        resetCost: 3,
    };
    let v = limits.into_java();
    assert!(Torrent::from_java(&v).is_err());
    assert!(Limits::from_java(&JavaValue::Null).is_err());
}
