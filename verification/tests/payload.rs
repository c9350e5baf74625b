use command_bridge::payload::ArgValue;
use command_bridge::payload::Field;
use command_bridge::payload::Payload;

fn field(name: &str, value: ArgValue) -> Field {
    Field { name: name.to_string(), value }
}

#[test]
fn text_field_builds_a_text_value() {
    assert_eq!(
        Field::text("message", "hello"),
        Field { name: "message".to_string(), value: ArgValue::Text("hello".to_string()) }
    );
}

#[test]
fn record_holds_its_fields() {
    let payload = Payload::record(vec![Field::text("message", "hello")]);
    assert_eq!(payload, Payload::Record(vec![Field::text("message", "hello")]));
}

#[test]
fn payload_without_record_has_no_fields() {
    assert_eq!(Payload::Absent.field("message"), None);
    assert_eq!(Payload::Malformed.field("message"), None);
    assert_eq!(Payload::Absent.text("message"), None);
    assert_eq!(Payload::Malformed.text("message"), None);
}

#[test]
fn field_is_found_by_name() {
    let payload = Payload::record(vec![
        field("count", ArgValue::Integer(3)),
        field("flag", ArgValue::Bool(true)),
        Field::text("message", "hello"),
    ]);
    assert_eq!(payload.field("count"), Some(&ArgValue::Integer(3)));
    assert_eq!(payload.field("flag"), Some(&ArgValue::Bool(true)));
    assert_eq!(payload.field("message"), Some(&ArgValue::Text("hello".to_string())));
    assert_eq!(payload.field("missing"), None);
    assert_eq!(payload.field("messag"), None);
}

#[test]
fn first_of_two_equal_names_counts() {
    let payload = Payload::record(vec![
        Field::text("message", "first"),
        Field::text("message", "second"),
    ]);
    assert_eq!(payload.text("message"), Some(&"first".to_string()));
    let payload = Payload::record(vec![
        field("message", ArgValue::Null),
        Field::text("message", "second"),
    ]);
    assert_eq!(payload.field("message"), Some(&ArgValue::Null));
    assert_eq!(payload.text("message"), None);
}

#[test]
fn only_text_values_are_text() {
    for value in [
        ArgValue::Null,
        ArgValue::Bool(false),
        ArgValue::Integer(-7),
        ArgValue::Opaque,
    ] {
        let payload = Payload::record(vec![field("message", value)]);
        assert_eq!(payload.text("message"), None);
    }
    let payload = Payload::record(vec![Field::text("message", "")]);
    assert_eq!(payload.text("message"), Some(&String::new()));
}

#[test]
fn empty_record_has_no_fields() {
    let payload = Payload::record(Vec::new());
    assert_eq!(payload.field("message"), None);
    assert_eq!(payload.text("message"), None);
}
