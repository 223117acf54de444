use instagram_cli::json::{contains_key, get_entry, index_entry, Json, JsonNumber};
use instagram_cli::model::{Size, User};

fn s(x: &str) -> Json {
    Json::Str(x.to_string())
}

fn n(x: u64) -> Json {
    Json::Number(JsonNumber::PosInt(x))
}

fn obj(entries: Vec<(&str, Json)>) -> Json {
    Json::Object(entries.into_iter().map(|(k, v)| (k.to_string(), v)).collect())
}

#[test]
fn index_key_reads_members_and_gives_null_otherwise() {
    let v = obj(vec![("a", n(1)), ("b", s("x"))]);
    assert_eq!(v.index_key("a").as_u64(), Some(1));
    assert_eq!(v.index_key("b").as_string(), Some("x".to_string()));
    assert!(matches!(v.index_key("c"), Json::Null));
    assert!(matches!(n(3).index_key("a"), Json::Null));
    assert!(matches!(Json::Array(vec![n(1)]).index_key("0"), Json::Null));
}

#[test]
fn index_key_takes_the_first_entry_with_the_key() {
    let v = obj(vec![("a", n(1)), ("a", n(2))]);
    assert_eq!(v.index_key("a").as_u64(), Some(1));
}

#[test]
fn index_pos_reads_elements_and_gives_null_otherwise() {
    let v = Json::Array(vec![n(5), s("y")]);
    assert_eq!(v.index_pos(0).as_u64(), Some(5));
    assert_eq!(v.index_pos(1).as_string(), Some("y".to_string()));
    assert!(matches!(v.index_pos(2), Json::Null));
    assert!(matches!(obj(vec![]).index_pos(0), Json::Null));
}

#[test]
fn accessors_follow_the_value_kind() {
    assert_eq!(n(7).as_u64(), Some(7));
    assert_eq!(Json::Number(JsonNumber::NegInt(-7)).as_u64(), None);
    assert_eq!(Json::Number(JsonNumber::Float(1.5f64.to_bits())).as_u64(), None);
    assert_eq!(s("7").as_u64(), None);
    assert_eq!(Json::Bool(true).as_bool(), Some(true));
    assert_eq!(n(1).as_bool(), None);
    assert_eq!(s("t").as_string(), Some("t".to_string()));
    assert_eq!(Json::Null.as_string(), None);
    assert_eq!(Json::Number(JsonNumber::NegInt(-2)).as_number(), Some(JsonNumber::NegInt(-2)));
    assert_eq!(s("2").as_number(), None);
    assert_eq!(Json::Array(vec![n(1), n(2)]).as_array().map(|a| a.len()), Some(2));
    assert!(s("a").as_array().is_none());
    assert_eq!(obj(vec![("k", n(1))]).as_object().map(|o| o.len()), Some(1));
    assert!(Json::Null.as_object().is_none());
}

#[test]
fn map_lookups() {
    let entries = vec![("k".to_string(), n(1)), ("z".to_string(), s("v"))];
    assert!(contains_key(&entries, "k"));
    assert!(!contains_key(&entries, "K"));
    assert_eq!(get_entry(&entries, "z").and_then(|v| v.as_string()), Some("v".to_string()));
    assert!(get_entry(&entries, "y").is_none());
    assert_eq!(index_entry(&entries, "k").as_u64(), Some(1));
}

#[test]
fn size_from_object() {
    let v = obj(vec![("width", n(640)), ("height", n(480)), ("url", s("u"))]);
    assert_eq!(Size::from_json(&v), Some(Size { width: Some(640), height: Some(480) }));
    let v = obj(vec![("width", Json::Null)]);
    assert_eq!(Size::from_json(&v), Some(Size { width: None, height: None }));
}

#[test]
fn size_from_array() {
    let v = Json::Array(vec![n(1), Json::Null]);
    assert_eq!(Size::from_json(&v), Some(Size { width: Some(1), height: None }));
    assert_eq!(Size::from_json(&Json::Array(vec![n(1)])), None);
    assert_eq!(Size::from_json(&Json::Array(vec![n(1), n(2), n(3)])), None);
}

#[test]
fn size_rejects_wrong_types() {
    assert_eq!(Size::from_json(&obj(vec![("width", s("640"))])), None);
    assert_eq!(Size::from_json(&obj(vec![("height", Json::Number(JsonNumber::NegInt(-1)))])), None);
    assert_eq!(Size::from_json(&obj(vec![("height", Json::Number(JsonNumber::Float(0)))])), None);
    assert_eq!(Size::from_json(&Json::Null), None);
    assert_eq!(Size::from_json(&n(3)), None);
}

#[test]
fn user_from_object_uses_pk_and_profile_pic_url() {
    let v = obj(vec![
        ("pk", s("123")),
        ("id", s("ignored")),
        ("username", s("fab")),
        ("full_name", Json::Null),
        ("is_private", Json::Bool(false)),
        ("profile_pic_url", s("http://p")),
        ("extra", n(9)),
    ]);
    assert_eq!(
        User::from_json(&v),
        Some(User {
            id: Some("123".to_string()),
            username: Some("fab".to_string()),
            full_name: None,
            is_private: Some(false),
            is_verified: None,
            profile_picture_url: Some("http://p".to_string()),
        })
    );
}

#[test]
fn user_from_array_of_six() {
    let v = Json::Array(vec![s("1"), s("u"), s("f"), Json::Bool(true), Json::Null, Json::Null]);
    let u = User::from_json(&v).unwrap();
    assert_eq!(u.id, Some("1".to_string()));
    assert_eq!(u.is_private, Some(true));
    assert_eq!(u.is_verified, None);
    assert!(User::from_json(&Json::Array(vec![s("1")])).is_none());
}

#[test]
fn user_rejects_wrong_types() {
    assert!(User::from_json(&obj(vec![("pk", n(123))])).is_none());
    assert!(User::from_json(&obj(vec![("is_verified", s("yes"))])).is_none());
    assert!(User::from_json(&Json::Null).is_none());
    assert!(User::from_json(&obj(vec![])).is_some());
}
