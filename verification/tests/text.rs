use polyio::error::EventError;
use polyio::events::codec::code_from_name;
use polyio::events::codec::text_field;
use polyio::events::codec::u64_field;
use polyio::events::stream::Code;
use polyio::json::member;
use polyio::text::decimal_u8;
use polyio::text::text_eq;

#[test]
fn text_eq_compares_characters() {
    assert!(text_eq("", ""));
    assert!(text_eq("status", "status"));
    assert!(text_eq("grüße", "grüße"));
    assert!(!text_eq("status", "statu"));
    assert!(!text_eq("status", "Status"));
    assert!(!text_eq("A", "AM"));
    assert!(!text_eq("é", "e"));
}

#[test]
fn decimal_u8_writes_every_number() {
    for n in 0..=255u8 {
        assert_eq!(decimal_u8(n), n.to_string());
    }
    assert_eq!(decimal_u8(0), "0");
    assert_eq!(decimal_u8(9), "9");
    assert_eq!(decimal_u8(10), "10");
    assert_eq!(decimal_u8(100), "100");
    assert_eq!(decimal_u8(255), "255");
}

#[test]
fn member_finds_the_first_of_a_key() {
    let members = vec![
        ("ev".to_string(), "\"T\"".to_string()),
        ("x".to_string(), "4".to_string()),
        ("ev".to_string(), "\"Q\"".to_string()),
    ];
    assert_eq!(member(&members, "ev"), Some(&"\"T\"".to_string()));
    assert_eq!(member(&members, "x"), Some(&"4".to_string()));
    assert_eq!(member(&members, "e"), None);
    assert_eq!(member(&Vec::new(), "ev"), None);
}

#[test]
fn fields_are_read_from_their_json_text() {
    let members = vec![
        ("sym".to_string(), "\"M\\u0053FT\\n\"".to_string()),
        ("x".to_string(), " 18446744073709551615 ".to_string()),
        ("y".to_string(), "18446744073709551616".to_string()),
    ];
    assert_eq!(text_field(&members, "sym").unwrap(), "MSFT\n");
    assert_eq!(u64_field(&members, "x").unwrap(), u64::MAX);
    match u64_field(&members, "y") {
        Err(EventError::Decode(_)) => (),
        other => panic!("unexpected result: {:?}", other),
    }
    match text_field(&members, "x") {
        Err(EventError::Decode(_)) => (),
        other => panic!("unexpected result: {:?}", other),
    }
    assert_eq!(
        u64_field(&members, "z").unwrap_err(),
        EventError::Decode("missing field `z`".to_string())
    );
}

#[test]
fn a_refused_value_carries_the_message_of_the_json_error() {
    let members = vec![("x".to_string(), "17".to_string())];
    let expected = serde_json::from_str::<String>("17").unwrap_err().to_string();
    assert_eq!(expected, "invalid type: integer `17`, expected a string at line 1 column 2");
    assert_eq!(text_field(&members, "x").unwrap_err(), EventError::Decode(expected));
}

#[test]
fn code_names() {
    assert_eq!(code_from_name("connected"), Some(Code::Connected));
    assert_eq!(code_from_name("disconnected"), Some(Code::Disconnected));
    assert_eq!(code_from_name("auth_success"), Some(Code::AuthSuccess));
    assert_eq!(code_from_name("auth_failed"), Some(Code::AuthFailure));
    assert_eq!(code_from_name("success"), Some(Code::Success));
    assert_eq!(code_from_name("Success"), None);
    assert_eq!(code_from_name(""), None);
}
