use json_preview::parse::parse_json;
use json_preview::render::{render_json, RenderNode};

fn section(label: &str, children: Vec<RenderNode>) -> RenderNode {
    RenderNode::Section { label: label.to_string(), children }
}

fn line(text: &str) -> RenderNode {
    RenderNode::Line(text.to_string())
}

fn rendered(text: &str, depth: usize) -> Vec<RenderNode> {
    render_json(&parse_json(text).expect("a document"), depth)
}

#[test]
fn nested_document_is_reproduced_level_by_level() {
    let expected = vec![section(
        "a",
        vec![section(
            "  b",
            vec![
                section("    [0]", vec![line("      1")]),
                section("    [1]", vec![line("      2")]),
            ],
        )],
    )];
    assert_eq!(rendered("{\"a\":{\"b\":[1,2]}}", 0), expected);
}

#[test]
fn empty_object_shows_nothing() {
    assert_eq!(rendered("{}", 0), Vec::<RenderNode>::new());
}

#[test]
fn empty_array_shows_nothing() {
    assert_eq!(rendered("[]", 0), Vec::<RenderNode>::new());
}

#[test]
fn empty_composite_gives_an_empty_section() {
    let expected = vec![section("a", vec![]), section("b", vec![])];
    assert_eq!(rendered("{\"a\":{},\"b\":[]}", 0), expected);
}

#[test]
fn array_sections_are_labelled_with_the_index() {
    let nodes = rendered("[0,1,2,3,4,5,6,7,8,9,10,11]", 0);
    let labels: Vec<String> = nodes
        .iter()
        .map(|node| match node {
            RenderNode::Section { label, .. } => label.clone(),
            RenderNode::Line(text) => text.clone(),
        })
        .collect();
    assert_eq!(
        labels,
        vec!["[0]", "[1]", "[2]", "[3]", "[4]", "[5]", "[6]", "[7]", "[8]", "[9]", "[10]", "[11]"]
    );
    assert_eq!(nodes[3], section("[3]", vec![line("  3")]));
    assert_eq!(nodes[10], section("[10]", vec![line("  10")]));
}

#[test]
fn every_kind_of_element_in_an_array() {
    let expected = vec![
        section("[0]", vec![line("  null")]),
        section("[1]", vec![line("  true")]),
        section("[2]", vec![line("  false")]),
        section("[3]", vec![line("  \"s\"")]),
        section("[4]", vec![line("  -2.5")]),
        section("[5]", vec![section("  [0]", vec![line("    1")])]),
        section("[6]", vec![section("  k", vec![line("    \"v\"")])]),
    ];
    assert_eq!(rendered("[null,true,false,\"s\",-2.5,[1],{\"k\":\"v\"}]", 0), expected);
}

#[test]
fn starting_depth_shifts_every_level() {
    let expected = vec![section(
        "    a",
        vec![section("      [0]", vec![line("        null")])],
    )];
    assert_eq!(rendered("{\"a\":[null]}", 2), expected);
}

#[test]
fn key_is_shown_as_it_is() {
    let expected = vec![
        section("", vec![line("  1")]),
        section("two words", vec![line("  2")]),
        section("[0]", vec![line("  3")]),
    ];
    assert_eq!(rendered("{\"\":1,\"two words\":2,\"[0]\":3}", 0), expected);
}

#[test]
fn deep_nesting_is_followed_to_the_bottom() {
    let depth = 100;
    let mut text = String::new();
    for _ in 0..depth {
        text.push('[');
    }
    text.push_str("null");
    for _ in 0..depth {
        text.push(']');
    }
    let mut nodes = rendered(&text, 0);
    let mut level = 0;
    loop {
        assert_eq!(nodes.len(), 1);
        match nodes.remove(0) {
            RenderNode::Section { label, children } => {
                assert_eq!(label, format!("{}[0]", "  ".repeat(level)));
                nodes = children;
                level += 1;
            }
            RenderNode::Line(text) => {
                assert_eq!(text, format!("{}null", "  ".repeat(level)));
                break;
            }
        }
    }
    assert_eq!(level, depth);
}
