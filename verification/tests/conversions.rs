//! Tests for the conversion trait framework: round trips, signatures,
//! order preservation, nullability, boxing, and shape mismatches.

use jni_glue::ConvertError;
use jni_glue::FromJava;
use jni_glue::IntoJava;
use jni_glue::JavaValue;
use jni_glue::addr::IpAddress;
use jni_glue::addr::Ipv4Address;
use jni_glue::addr::Ipv6Address;
use jni_glue::addr::SocketAddress;
use jni_glue::convert::byte_array_from_java;
use jni_glue::convert::byte_array_into_java;
use jni_glue::convert::option_bool_from_java;
use jni_glue::convert::option_bool_into_java;
use jni_glue::convert::option_i32_from_java;
use jni_glue::convert::option_i32_into_java;

#[test]
fn primitive_round_trips() {
    assert_eq!(bool::from_java(&true.into_java()), Ok(true));
    assert_eq!(bool::from_java(&false.into_java()), Ok(false));
    assert_eq!(i16::from_java(&(-7i16).into_java()), Ok(-7i16));
    assert_eq!(i32::from_java(&42i32.into_java()), Ok(42i32));
    assert_eq!(i32::from_java(&i32::MIN.into_java()), Ok(i32::MIN));
    assert_eq!(i64::from_java(&(1i64 << 40).into_java()), Ok(1i64 << 40));
}

#[test]
fn primitive_representations() {
    assert_eq!(true.into_java(), JavaValue::Bool(1));
    assert_eq!(false.into_java(), JavaValue::Bool(0));
    // Any non-zero boolean slot reads back as true, as the boundary ABI
    // defines it.
    assert_eq!(bool::from_java(&JavaValue::Bool(2)), Ok(true));
    assert_eq!(7i32.into_java(), JavaValue::Int(7));
}

#[test]
fn jni_signatures() {
    assert_eq!(<bool as IntoJava>::jni_signature(), "Z");
    assert_eq!(<i16 as IntoJava>::jni_signature(), "S");
    assert_eq!(<i32 as IntoJava>::jni_signature(), "I");
    assert_eq!(<i64 as IntoJava>::jni_signature(), "J");
    assert_eq!(<String as IntoJava>::jni_signature(), "Ljava/lang/String;");
    assert_eq!(
        <Vec<String> as IntoJava>::jni_signature(),
        "Ljava/util/ArrayList;"
    );
}

#[test]
fn optional_shares_element_signature() {
    assert_eq!(
        <Option<String> as IntoJava>::jni_signature(),
        <String as IntoJava>::jni_signature()
    );
    assert_eq!(
        <Option<Vec<String>> as IntoJava>::jni_signature(),
        "Ljava/util/ArrayList;"
    );
}

#[test]
fn string_round_trip() {
    let v = String::from("hello world").into_java();
    assert_eq!(v, JavaValue::Str(String::from("hello world")));
    assert_eq!(String::from_java(&v), Ok(String::from("hello world")));
}

#[test]
fn option_null_policy() {
    let absent: Option<String> = None;
    assert_eq!(absent.into_java(), JavaValue::Null);
    assert_eq!(Option::<String>::from_java(&JavaValue::Null), Ok(None));

    let present = Some(String::from("x"));
    let v = present.into_java();
    assert_eq!(v, JavaValue::Str(String::from("x")));
    assert_eq!(
        Option::<String>::from_java(&v),
        Ok(Some(String::from("x")))
    );
}

#[test]
fn list_round_trip_preserves_order_and_duplicates() {
    let items = vec![
        String::from("b"),
        String::from("a"),
        String::from("a"),
        String::from("c"),
    ];
    let v = items.clone().into_java();
    match &v {
        JavaValue::List(elements) => {
            assert_eq!(elements.len(), 4);
            assert_eq!(elements[0], JavaValue::Str(String::from("b")));
            assert_eq!(elements[1], JavaValue::Str(String::from("a")));
            assert_eq!(elements[2], JavaValue::Str(String::from("a")));
            assert_eq!(elements[3], JavaValue::Str(String::from("c")));
        }
        other => panic!("expected a list, got {:?}", other),
    }
    assert_eq!(Vec::<String>::from_java(&v), Ok(items));
}

#[test]
fn empty_list_round_trip() {
    let items: Vec<String> = Vec::new();
    let v = items.clone().into_java();
    assert_eq!(v, JavaValue::List(Vec::new()));
    assert_eq!(Vec::<String>::from_java(&v), Ok(items));
}

#[test]
fn nested_optionals_in_lists() {
    let items: Vec<Vec<String>> = vec![vec![String::from("x")], vec![]];
    let v = items.clone().into_java();
    assert_eq!(Vec::<Vec<String>>::from_java(&v), Ok(items));

    let absent: Option<Vec<String>> = None;
    assert_eq!(absent.into_java(), JavaValue::Null);
    let present = Some(vec![String::from("y")]);
    let v = present.clone().into_java();
    assert_eq!(Option::<Vec<String>>::from_java(&v), Ok(present));
}

#[test]
fn shape_mismatches_are_rejected() {
    assert_eq!(
        bool::from_java(&JavaValue::Int(1)),
        Err(ConvertError::TypeMismatch)
    );
    assert_eq!(
        i32::from_java(&JavaValue::Bool(1)),
        Err(ConvertError::TypeMismatch)
    );
    assert_eq!(
        String::from_java(&JavaValue::Null),
        Err(ConvertError::TypeMismatch)
    );
    assert_eq!(
        Vec::<String>::from_java(&JavaValue::Str(String::from("not a list"))),
        Err(ConvertError::TypeMismatch)
    );
    // One bad element poisons the whole list.
    let v = JavaValue::List(vec![
        JavaValue::Str(String::from("ok")),
        JavaValue::Int(3),
    ]);
    assert_eq!(
        Vec::<String>::from_java(&v),
        Err(ConvertError::TypeMismatch)
    );
}

#[test]
fn boxed_i32_round_trip() {
    let v = option_i32_into_java(Some(17));
    assert_eq!(v, JavaValue::BoxedInt(17));
    assert_eq!(option_i32_from_java(&v), Ok(Some(17)));
    assert_eq!(option_i32_into_java(None), JavaValue::Null);
    assert_eq!(option_i32_from_java(&JavaValue::Null), Ok(None));
    assert_eq!(
        option_i32_from_java(&JavaValue::Int(17)),
        Err(ConvertError::TypeMismatch)
    );
}

#[test]
fn boxed_bool_round_trip() {
    let v = option_bool_into_java(Some(true));
    assert_eq!(v, JavaValue::BoxedBool(true));
    assert_eq!(option_bool_from_java(&v), Ok(Some(true)));
    assert_eq!(option_bool_into_java(None), JavaValue::Null);
    assert_eq!(option_bool_from_java(&JavaValue::Null), Ok(None));
}

#[test]
fn byte_array_round_trip() {
    let bytes = vec![0u8, 255, 128, 7];
    let v = byte_array_into_java(&bytes);
    assert_eq!(v, JavaValue::Bytes(bytes.clone()));
    assert_eq!(byte_array_from_java(&v), Ok(bytes));
    assert_eq!(
        byte_array_from_java(&JavaValue::Null),
        Err(ConvertError::TypeMismatch)
    );
}

#[test]
fn ipv4_round_trip() {
    let addr = Ipv4Address {
        octets: [192, 168, 0, 1],
    };
    let v = addr.into_java();
    assert_eq!(v, JavaValue::Inet(vec![192, 168, 0, 1]));
    assert_eq!(Ipv4Address::from_java(&v), Ok(addr));
    assert_eq!(<Ipv4Address as IntoJava>::jni_signature(), "Ljava/net/Inet4Address;");
}

#[test]
fn ipv6_round_trip() {
    let addr = Ipv6Address {
        octets: [0, 1, 2, 3, 4, 5, 6, 7, 8, 9, 10, 11, 12, 13, 14, 15],
    };
    let v = addr.into_java();
    assert_eq!(Ipv6Address::from_java(&v), Ok(addr));
}

#[test]
fn ip_address_dispatches_on_octet_count() {
    let v4 = IpAddress::V4(Ipv4Address {
        octets: [10, 0, 0, 1],
    });
    assert_eq!(IpAddress::from_java(&v4.into_java()), Ok(v4));

    let v6 = IpAddress::V6(Ipv6Address { octets: [1; 16] });
    assert_eq!(IpAddress::from_java(&v6.into_java()), Ok(v6));

    // An address object with an invalid octet count is rejected.
    assert_eq!(
        IpAddress::from_java(&JavaValue::Inet(vec![1, 2, 3])),
        Err(ConvertError::TypeMismatch)
    );
    assert_eq!(
        Ipv4Address::from_java(&JavaValue::Inet(vec![1; 16])),
        Err(ConvertError::TypeMismatch)
    );
}

#[test]
fn socket_address_round_trip() {
    let sock = SocketAddress {
        ip: IpAddress::V4(Ipv4Address {
            octets: [127, 0, 0, 1],
        }),
        port: 8080,
    };
    let v = sock.into_java();
    assert_eq!(v, JavaValue::Socket(vec![127, 0, 0, 1], 8080));
    assert_eq!(SocketAddress::from_java(&v), Ok(sock));
    assert_eq!(
        <SocketAddress as IntoJava>::jni_signature(),
        "Ljava/net/InetSocketAddress;"
    );
}
