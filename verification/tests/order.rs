use json_preview::parse::parse_json;
use json_preview::render::{render_json, RenderNode};
use json_preview::value::JsonValue;

fn object_keys(value: &JsonValue) -> Vec<String> {
    match value {
        JsonValue::Object(map) => map.keys(),
        _ => panic!("an object"),
    }
}

fn to_serde(value: &JsonValue) -> serde_json::Value {
    match value {
        JsonValue::Object(map) => {
            let mut out = serde_json::Map::new();
            for i in 0..map.len() {
                let (key, member) = map.get_index(i).expect("a member");
                out.insert(key.clone(), to_serde(member));
            }
            serde_json::Value::Object(out)
        }
        JsonValue::Array(items) => serde_json::Value::Array(items.iter().map(to_serde).collect()),
        JsonValue::String(s) => serde_json::Value::String(s.clone()),
        JsonValue::Number(n) => serde_json::Value::Number(n.clone()),
        JsonValue::Bool(b) => serde_json::Value::Bool(*b),
        JsonValue::Null => serde_json::Value::Null,
    }
}

#[test]
fn keys_keep_the_order_of_the_document() {
    let value = parse_json("{\"z\":1,\"a\":2,\"m\":3}").expect("a document");
    assert_eq!(object_keys(&value), vec!["z", "a", "m"]);
}

#[test]
fn many_keys_keep_the_order_of_the_document() {
    let names: Vec<String> = (0..200).rev().map(|i| format!("key{}", i * 7919 % 1000)).collect();
    let members: Vec<String> = names.iter().map(|name| format!("\"{}\":null", name)).collect();
    let text = format!("{{{}}}", members.join(","));
    let value = parse_json(&text).expect("a document");
    assert_eq!(object_keys(&value), names);
}

#[test]
fn sections_keep_the_order_of_the_document() {
    let value = parse_json("{\"z\":1,\"a\":2,\"m\":3}").expect("a document");
    let expected = vec![
        RenderNode::Section {
            label: "z".to_string(),
            children: vec![RenderNode::Line("  1".to_string())],
        },
        RenderNode::Section {
            label: "a".to_string(),
            children: vec![RenderNode::Line("  2".to_string())],
        },
        RenderNode::Section {
            label: "m".to_string(),
            children: vec![RenderNode::Line("  3".to_string())],
        },
    ];
    assert_eq!(render_json(&value, 0), expected);
}

#[test]
fn writing_the_parsed_document_out_again_keeps_the_key_order() {
    let text = "{\"z\":{\"y\":1,\"x\":[{\"b\":true,\"a\":null}]},\"a\":\"s\",\"m\":2.5}";
    let value = parse_json(text).expect("a document");
    assert_eq!(serde_json::to_string(&to_serde(&value)).expect("text"), text);
}

#[test]
fn repeated_key_keeps_its_first_place_and_its_last_value() {
    let value = parse_json("{\"a\":1,\"b\":2,\"a\":3}").expect("a document");
    assert_eq!(object_keys(&value), vec!["a", "b"]);
    let expected = vec![
        RenderNode::Section {
            label: "a".to_string(),
            children: vec![RenderNode::Line("  3".to_string())],
        },
        RenderNode::Section {
            label: "b".to_string(),
            children: vec![RenderNode::Line("  2".to_string())],
        },
    ];
    assert_eq!(render_json(&value, 0), expected);
}

#[test]
fn members_are_read_by_position() {
    let value = parse_json("{\"first\":10,\"second\":[]}").expect("a document");
    let map = match &value {
        JsonValue::Object(map) => map,
        _ => panic!("an object"),
    };
    assert_eq!(map.len(), 2);
    let (key, member) = map.get_index(0).expect("a member");
    assert_eq!(key, "first");
    assert!(member.same_as(&parse_json("10").expect("a document")));
    let (key, member) = map.get_index(1).expect("a member");
    assert_eq!(key, "second");
    assert!(member.same_as(&JsonValue::Array(Vec::new())));
    assert!(map.get_index(2).is_none());
    assert!(map.get_index(usize::MAX).is_none());
}

#[test]
fn empty_object_has_no_members() {
    let value = parse_json("{}").expect("a document");
    let map = match &value {
        JsonValue::Object(map) => map,
        _ => panic!("an object"),
    };
    assert_eq!(map.len(), 0);
    assert!(map.keys().is_empty());
    assert!(map.get_index(0).is_none());
}
