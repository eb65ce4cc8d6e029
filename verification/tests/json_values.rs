use solprobe::text::str_eq;
use solprobe::wire::{option_to_value, read_field, read_optional_field};
use solprobe::{Number, Value};

fn text(s: &str) -> Value {
    Value::String(s.to_string())
}

fn object(members: Vec<(&str, Value)>) -> Value {
    Value::Object(members.into_iter().map(|(k, v)| (k.to_string(), v)).collect())
}

#[test]
fn str_eq_compares_characters() {
    assert!(str_eq("", ""));
    assert!(str_eq("abc", "abc"));
    assert!(!str_eq("abc", "abd"));
    assert!(!str_eq("abc", "ab"));
    assert!(!str_eq("ab", "abc"));
    assert!(!str_eq("abc", "Abc"));
    assert!(str_eq("caf\u{e9}", "caf\u{e9}"));
    assert!(!str_eq("caf\u{e9}", "cafe\u{301}"));
    assert!(!str_eq("\u{1f600}", "\u{1f601}"));
}

#[test]
fn get_finds_the_first_member_of_that_name() {
    let v = object(vec![("a", text("1")), ("b", text("2")), ("a", text("3"))]);
    assert_eq!(v.get("a"), Some(&text("1")));
    assert_eq!(v.get("b"), Some(&text("2")));
    assert_eq!(v.get("c"), None);
    assert_eq!(v.get(""), None);
    assert_eq!(object(vec![]).get("a"), None);
    assert_eq!(object(vec![("", Value::Null)]).get(""), Some(&Value::Null));
}

#[test]
fn get_finds_nothing_in_what_is_no_object() {
    for v in [
        Value::Null,
        Value::Bool(true),
        Value::Number(Number::PosInt(1)),
        text("a"),
        Value::Array(vec![object(vec![("a", Value::Null)])]),
    ] {
        assert_eq!(v.get("a"), None);
    }
}

#[test]
fn clone_copies_the_whole_tree() {
    let v = object(vec![
        ("list", Value::Array(vec![Value::Null, Value::Bool(false), text("x")])),
        ("inner", object(vec![("n", Value::Number(Number::NegInt(-1)))])),
        ("f", Value::Number(Number::Float(2.5f64.to_bits()))),
    ]);
    assert_eq!(v.clone(), v);
    assert_eq!(Value::Array(vec![]).clone(), Value::Array(vec![]));
}

#[test]
fn required_and_optional_members_differ_on_absence() {
    let v = object(vec![("n", Value::Number(Number::PosInt(3))), ("z", Value::Null)]);
    assert_eq!(read_field::<u8>(&v, "n"), Some(3));
    assert_eq!(read_field::<u8>(&v, "z"), None);
    assert_eq!(read_field::<u8>(&v, "missing"), None);
    assert_eq!(read_optional_field::<u8>(&v, "n"), Some(Some(3)));
    assert_eq!(read_optional_field::<u8>(&v, "z"), Some(None));
    assert_eq!(read_optional_field::<u8>(&v, "missing"), Some(None));
    let wrong = object(vec![("n", text("3"))]);
    assert_eq!(read_optional_field::<u8>(&wrong, "n"), None);
    assert_eq!(option_to_value::<u8>(&None), Value::Null);
    assert_eq!(option_to_value::<u8>(&Some(3)), Value::Number(Number::PosInt(3)));
}
