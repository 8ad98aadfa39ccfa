use tooly::payload::{
    load_payload, payload_from_document, DecodeError, Field, JsonDocument, JsonField, Payload,
};

const FULL: &str = "{\"target\":\"/tmp/x\",\"targetType\":\"directory\",\
    \"items\":[\"/tmp/x/a.txt\",\"/tmp/x/b c.txt\"],\"action\":\"echo hi\",\"actionType\":\"script\"}";

fn full() -> Payload {
    Payload {
        target: "/tmp/x".to_string(),
        target_type: "directory".to_string(),
        items: vec!["/tmp/x/a.txt".to_string(), "/tmp/x/b c.txt".to_string()],
        action: "echo hi".to_string(),
        action_type: "script".to_string(),
    }
}

#[test]
fn an_instruction_is_read_from_its_json() {
    assert_eq!(load_payload(FULL), Ok(full()));
}

#[test]
fn the_order_of_members_and_white_space_do_not_matter() {
    let text = " {\n \"actionType\" : \"script\", \"action\": \"echo hi\",\n\
        \"items\": [ \"/tmp/x/a.txt\" , \"/tmp/x/b c.txt\" ], \"targetType\": \"directory\",\
        \"target\": \"/tmp/x\" }\n";
    assert_eq!(load_payload(text), Ok(full()));
}

#[test]
fn members_of_other_names_are_passed_over() {
    let text = "{\"target\":\"t\",\"targetType\":\"d\",\"items\":[],\"action\":\"a\",\
        \"actionType\":\"app\",\"extra\":{\"deep\":[1,2,{\"x\":null}]},\"n\":1.5,\"Target\":7}";
    let loaded = load_payload(text).unwrap();
    assert_eq!(loaded.target, "t");
    assert_eq!(loaded.target_type, "d");
    assert!(loaded.items.is_empty());
    assert_eq!(loaded.action, "a");
    assert_eq!(loaded.action_type, "app");
}

#[test]
fn json_escapes_are_read_as_the_characters_they_write() {
    let text = "{\"target\":\"C:\\\\Users\\\\me\",\"targetType\":\"\",\
        \"items\":[\"it's \\\"quoted\\\"\",\"caf\\u00e9\\n\"],\"action\":\"\",\"actionType\":\"create\"}";
    let loaded = load_payload(text).unwrap();
    assert_eq!(loaded.target, "C:\\Users\\me");
    assert_eq!(loaded.items, vec!["it's \"quoted\"".to_string(), "café\n".to_string()]);
    assert_eq!(loaded.action, "");
}

#[test]
fn items_may_repeat() {
    let text = "{\"target\":\"t\",\"targetType\":\"d\",\"items\":[\"a\",\"a\",\"b\",\"a\"],\
        \"action\":\"x\",\"actionType\":\"app\"}";
    assert_eq!(load_payload(text).unwrap().items, vec!["a", "a", "b", "a"]);
}

#[test]
fn malformed_json_yields_no_instruction() {
    let truncated = "{\"target\":\"/tmp/x\",\"targetType\":\"directory\",\"items\":[\"/tmp";
    assert!(matches!(load_payload(truncated), Err(DecodeError::MalformedJson { .. })));
    assert!(matches!(load_payload(""), Err(DecodeError::MalformedJson { .. })));
    assert!(matches!(load_payload("{"), Err(DecodeError::MalformedJson { .. })));
    assert!(matches!(load_payload("{} x"), Err(DecodeError::MalformedJson { .. })));
    assert!(matches!(load_payload("{'target':1}"), Err(DecodeError::MalformedJson { .. })));
    match load_payload("{\"target\":") {
        Err(DecodeError::MalformedJson { reason }) => {
            assert_eq!(reason, "EOF while parsing a value at line 1 column 10")
        },
        other => panic!("{:?}", other),
    }
}

#[test]
fn json_that_is_no_object_yields_no_instruction() {
    assert_eq!(load_payload("[]"), Err(DecodeError::NotAnObject));
    assert_eq!(load_payload("null"), Err(DecodeError::NotAnObject));
    assert_eq!(load_payload("\"run\""), Err(DecodeError::NotAnObject));
    assert_eq!(load_payload("42"), Err(DecodeError::NotAnObject));
    assert_eq!(
        load_payload("[\"/tmp/x\",\"directory\",[],\"echo hi\",\"script\"]"),
        Err(DecodeError::NotAnObject)
    );
}

#[test]
fn each_field_is_required() {
    let members = [
        ("target", "\"target\":\"t\"", Field::Target),
        ("targetType", "\"targetType\":\"d\"", Field::TargetType),
        ("items", "\"items\":[]", Field::Items),
        ("action", "\"action\":\"a\"", Field::Action),
        ("actionType", "\"actionType\":\"app\"", Field::ActionType),
    ];
    for (name, _, field) in members {
        let rest: Vec<&str> =
            members.iter().filter(|m| m.0 != name).map(|m| m.1).collect();
        let text = format!("{{{}}}", rest.join(","));
        assert_eq!(load_payload(&text), Err(DecodeError::MissingField(field)));
    }
    assert_eq!(load_payload("{}"), Err(DecodeError::MissingField(Field::Target)));
}

#[test]
fn each_field_has_its_type() {
    let wrong = [
        ("{\"target\":1,\"targetType\":\"d\",\"items\":[],\"action\":\"a\",\"actionType\":\"x\"}", Field::Target),
        ("{\"target\":\"t\",\"targetType\":null,\"items\":[],\"action\":\"a\",\"actionType\":\"x\"}", Field::TargetType),
        ("{\"target\":\"t\",\"targetType\":\"d\",\"items\":\"a\",\"action\":\"a\",\"actionType\":\"x\"}", Field::Items),
        ("{\"target\":\"t\",\"targetType\":\"d\",\"items\":[\"a\",1],\"action\":\"a\",\"actionType\":\"x\"}", Field::Items),
        ("{\"target\":\"t\",\"targetType\":\"d\",\"items\":[[\"a\"]],\"action\":\"a\",\"actionType\":\"x\"}", Field::Items),
        ("{\"target\":\"t\",\"targetType\":\"d\",\"items\":[],\"action\":[\"a\"],\"actionType\":\"x\"}", Field::Action),
        ("{\"target\":\"t\",\"targetType\":\"d\",\"items\":[],\"action\":\"a\",\"actionType\":{}}", Field::ActionType),
    ];
    for (text, field) in wrong {
        assert_eq!(load_payload(text), Err(DecodeError::InvalidField(field)));
    }
}

#[test]
fn the_first_field_at_fault_decides_the_error() {
    assert_eq!(
        load_payload("{\"actionType\":1,\"items\":7,\"target\":\"t\"}"),
        Err(DecodeError::MissingField(Field::TargetType))
    );
    assert_eq!(
        load_payload("{\"actionType\":1,\"items\":7,\"target\":\"t\",\"targetType\":\"d\"}"),
        Err(DecodeError::InvalidField(Field::Items))
    );
    assert_eq!(
        load_payload("{\"target\":[],\"targetType\":\"d\"}"),
        Err(DecodeError::InvalidField(Field::Target))
    );
}

#[test]
fn a_name_that_occurs_twice_counts_once() {
    let text = "{\"target\":1,\"target\":\"t\",\"targetType\":\"d\",\"items\":[],\
        \"action\":\"a\",\"actionType\":\"app\"}";
    assert_eq!(load_payload(text).unwrap().target, "t");
}

#[test]
fn a_document_is_read_member_by_member() {
    let members = vec![
        ("action".to_string(), JsonField::Text("a".to_string())),
        ("target".to_string(), JsonField::Text("first".to_string())),
        ("other".to_string(), JsonField::Other),
        ("target".to_string(), JsonField::Other),
        ("items".to_string(), JsonField::List(vec![Some("i".to_string())])),
        ("targetType".to_string(), JsonField::Text("d".to_string())),
        ("actionType".to_string(), JsonField::Text("replace".to_string())),
    ];
    let loaded = payload_from_document(&JsonDocument::Object(members)).unwrap();
    assert_eq!(loaded.target, "first");
    assert_eq!(loaded.items, vec!["i"]);
    assert_eq!(loaded.action_type, "replace");

    let holes = vec![
        ("target".to_string(), JsonField::Text("t".to_string())),
        ("targetType".to_string(), JsonField::Text("d".to_string())),
        ("items".to_string(), JsonField::List(vec![Some("i".to_string()), None])),
    ];
    assert_eq!(
        payload_from_document(&JsonDocument::Object(holes)),
        Err(DecodeError::InvalidField(Field::Items))
    );
    assert_eq!(
        payload_from_document(&JsonDocument::Object(Vec::new())),
        Err(DecodeError::MissingField(Field::Target))
    );
    assert_eq!(
        payload_from_document(&JsonDocument::NotAnObject),
        Err(DecodeError::NotAnObject)
    );
    assert_eq!(
        payload_from_document(&JsonDocument::Malformed { reason: "why".to_string() }),
        Err(DecodeError::MalformedJson { reason: "why".to_string() })
    );
}

#[test]
fn an_error_says_what_is_wrong() {
    assert_eq!(DecodeError::MalformedEscape.message(), "malformed percent-encoding");
    assert_eq!(
        DecodeError::MalformedJson { reason: "EOF".to_string() }.message(),
        "malformed JSON: EOF"
    );
    assert_eq!(DecodeError::NotAnObject.message(), "not a JSON object");
    assert_eq!(DecodeError::MissingField(Field::Target).message(), "missing field `target`");
    assert_eq!(
        DecodeError::MissingField(Field::TargetType).message(),
        "missing field `targetType`"
    );
    assert_eq!(
        DecodeError::InvalidField(Field::Items).message(),
        "invalid type of field `items`"
    );
    assert_eq!(
        DecodeError::InvalidField(Field::Action).message(),
        "invalid type of field `action`"
    );
    assert_eq!(
        DecodeError::MissingField(Field::ActionType).message(),
        "missing field `actionType`"
    );
}

#[test]
fn a_copy_of_an_instruction_holds_the_same() {
    let original = full();
    let copy = original.clone();
    assert_eq!(copy, original);
}
