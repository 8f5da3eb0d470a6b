//! The tree that displays a document: one collapsible section for each
//! member of an object and each element of an array, one line of text for each
//! scalar.

use crate::model::JsonModel;
use crate::text::{
    bool_text, indent, indent_further, indentation, index_label, lemma_indent_step, null_text,
    push_bool, push_index_label, push_null, push_quoted, quoted,
};
use crate::value::{number_to_string, JsonValue};
use vstd::prelude::*;
use vstd::string::StringExecFns;

verus! {

/// One node of the displayed tree.
#[derive(Debug, PartialEq, Eq)]
pub enum RenderNode {
    /// A section that can be expanded and collapsed: its label, and what it
    /// shows when expanded.
    Section { label: String, children: Vec<RenderNode> },
    /// A line of text.
    Line(String),
}

/// The model of a `RenderNode`.
pub enum RenderModel {
    Section { label: Seq<char>, children: Seq<RenderModel> },
    Line(Seq<char>),
}

impl View for RenderNode {
    type V = RenderModel;

    open spec fn view(&self) -> RenderModel
        decreases self,
    {
        match self {
            RenderNode::Section { label, children } => RenderModel::Section {
                label: label@,
                children: Seq::new(
                    children@.len(),
                    |i: int|
                        if 0 <= i < children@.len() {
                            children@[i]@
                        } else {
                            // no such position: the sequence ends before it
                            RenderModel::Line(Seq::empty())
                        },
                ),
            },
            RenderNode::Line(text) => RenderModel::Line(text@),
        }
    }
}

/// The models of a sequence of nodes.
pub open spec fn nodes_model(nodes: Seq<RenderNode>) -> Seq<RenderModel> {
    Seq::new(nodes.len(), |i: int| nodes[i]@)
}

/// The text of a scalar: a string between quotation marks, a number as it
/// displays, `true`, `false` or `null`. (Of an object or an array: nothing.)
pub open spec fn scalar_text(doc: JsonModel) -> Seq<char> {
    match doc {
        JsonModel::String(s) => quoted(s),
        JsonModel::Number(text) => text,
        JsonModel::Bool(b) => bool_text(b),
        JsonModel::Null => null_text(),
        _ => Seq::empty(),
    }
}

/// The label of a section, or the text of a line.
pub open spec fn label_of(node: RenderModel) -> Seq<char> {
    match node {
        RenderModel::Section { label, .. } => label,
        RenderModel::Line(text) => text,
    }
}

/// The node begins with the indentation of level `depth`, and each level of
/// content below it with that of one level more.
pub open spec fn indented(node: RenderModel, depth: nat) -> bool
    decreases node,
{
    &&& indent(depth).is_prefix_of(label_of(node))
    &&& match node {
        RenderModel::Section { children, .. } => forall|i: int|
            0 <= i < children.len() ==> indented(#[trigger] children[i], depth + 1),
        RenderModel::Line(_) => true,
    }
}

/// What displays `doc` at nesting level `depth`.
///
/// An object gives one section per member, in the order of the members,
/// labelled with the key; an array one section per element, labelled with the
/// index in brackets. The content of a section is what displays the value one
/// level deeper. A scalar is one line. Every label and line begins with the
/// indentation of its level.
pub open spec fn rendering(doc: JsonModel, depth: nat) -> Seq<RenderModel>
    decreases doc,
{
    match doc {
        JsonModel::Object(members) => Seq::new(
            members.len(),
            |i: int|
                if 0 <= i < members.len() {
                    RenderModel::Section {
                        label: indent(depth) + members[i].0,
                        children: rendering(members[i].1, depth + 1),
                    }
                } else {
                    // no such position: the sequence ends before it
                    RenderModel::Line(Seq::empty())
                },
        ),
        JsonModel::Array(items) => Seq::new(
            items.len(),
            |i: int|
                if 0 <= i < items.len() {
                    RenderModel::Section {
                        label: indent(depth) + index_label(i as nat),
                        children: rendering(items[i], depth + 1),
                    }
                } else {
                    // no such position: the sequence ends before it
                    RenderModel::Line(Seq::empty())
                },
        ),
        _ => seq![RenderModel::Line(indent(depth) + scalar_text(doc))],
    }
}

/// A section with the given label and content.
fn section(label: String, children: Vec<RenderNode>) -> (node: RenderNode)
    ensures
        node@ == (RenderModel::Section { label: label@, children: nodes_model(children@) }),
{
    let node = RenderNode::Section { label, children };
    proof {
        assert(node@->Section_children =~= nodes_model(children@));
    }
    node
}

/// Displays `value` where `prefix` is the indentation of level `depth`.
fn render_at(value: &JsonValue, prefix: &String, Ghost(depth): Ghost<nat>) -> (nodes: Vec<
    RenderNode,
>)
    requires
        prefix@ == indent(depth),
    ensures
        nodes_model(nodes@) == rendering(value@, depth),
    decreases value@,
{
    let mut nodes: Vec<RenderNode> = Vec::new();
    match value {
        JsonValue::Object(map) => {
            let deeper = indent_further(prefix.as_str());
            proof {
                lemma_indent_step(depth);
            }
            let n = map.len();
            let mut i: usize = 0;
            while i < n
                invariant
                    i <= n,
                    n == map@.len(),
                    value@ == JsonModel::Object(map@),
                    prefix@ == indent(depth),
                    deeper@ == indent(depth + 1),
                    nodes@.len() == i,
                    forall|j: int|
                        0 <= j < i ==> (#[trigger] nodes@[j])@ == rendering(value@, depth)[j],
                decreases n - i,
            {
                match map.get_index(i) {
                    Some(member) => {
                        proof {
                            let whole = value@;
                            assert(whole->Object_0[i as int].1 == member.1@);
                            assert(decreases_to!(whole => whole->Object_0[i as int]));
                        }
                        let mut label = prefix.clone();
                        label.append(member.0.as_str());
                        let children = render_at(member.1, &deeper, Ghost(depth + 1));
                        nodes.push(section(label, children));
                    },
                    None => {},
                }
                i = i + 1;
            }
        },
        JsonValue::Array(items) => {
            let deeper = indent_further(prefix.as_str());
            proof {
                lemma_indent_step(depth);
            }
            let n = items.len();
            let mut i: usize = 0;
            while i < n
                invariant
                    i <= n,
                    n == items@.len(),
                    value@ is Array,
                    value@->Array_0.len() == n,
                    forall|j: int| 0 <= j < n ==> value@->Array_0[j] == (#[trigger] items@[j])@,
                    prefix@ == indent(depth),
                    deeper@ == indent(depth + 1),
                    nodes@.len() == i,
                    forall|j: int|
                        0 <= j < i ==> (#[trigger] nodes@[j])@ == rendering(value@, depth)[j],
                decreases n - i,
            {
                proof {
                    let whole = value@;
                    assert(whole->Array_0[i as int] == items@[i as int]@);
                    assert(decreases_to!(whole => whole->Array_0[i as int]));
                }
                let mut label = prefix.clone();
                push_index_label(&mut label, i);
                let children = render_at(&items[i], &deeper, Ghost(depth + 1));
                nodes.push(section(label, children));
                i = i + 1;
            }
        },
        JsonValue::String(s) => {
            let mut text = prefix.clone();
            push_quoted(&mut text, s.as_str());
            nodes.push(RenderNode::Line(text));
        },
        JsonValue::Number(n) => {
            let mut text = prefix.clone();
            let digits = number_to_string(n);
            text.append(digits.as_str());
            nodes.push(RenderNode::Line(text));
        },
        JsonValue::Bool(b) => {
            let mut text = prefix.clone();
            push_bool(&mut text, *b);
            nodes.push(RenderNode::Line(text));
        },
        JsonValue::Null => {
            let mut text = prefix.clone();
            push_null(&mut text);
            nodes.push(RenderNode::Line(text));
        },
    }
    proof {
        assert(nodes_model(nodes@) =~= rendering(value@, depth));
    }
    nodes
}

/// The tree that displays `value` at nesting level `depth`.
pub fn render_json(value: &JsonValue, depth: usize) -> (nodes: Vec<RenderNode>)
    ensures
        nodes_model(nodes@) == rendering(value@, depth as nat),
{
    let prefix = indentation(depth);
    render_at(value, &prefix, Ghost(depth as nat))
}

/// The sections of an object are its members, one for one and in the same
/// order: the section at `i` is labelled with the key of the member at `i`
/// and holds what displays its value one level deeper.
pub proof fn lemma_object_sections_follow_members(
    members: Seq<(Seq<char>, JsonModel)>,
    depth: nat,
)
    ensures
        rendering(JsonModel::Object(members), depth).len() == members.len(),
        forall|i: int|
            0 <= i < members.len() ==> #[trigger] rendering(JsonModel::Object(members), depth)[i]
                == (RenderModel::Section {
                label: indent(depth) + members[i].0,
                children: rendering(members[i].1, depth + 1),
            }),
{
}

/// The sections of an array are its elements, one for one and in the same
/// order: the section at `i` is labelled with `i` in brackets and holds what
/// displays the element one level deeper.
pub proof fn lemma_array_sections_follow_elements(items: Seq<JsonModel>, depth: nat)
    ensures
        rendering(JsonModel::Array(items), depth).len() == items.len(),
        forall|i: int|
            0 <= i < items.len() ==> #[trigger] rendering(JsonModel::Array(items), depth)[i]
                == (RenderModel::Section {
                label: indent(depth) + index_label(i as nat),
                children: rendering(items[i], depth + 1),
            }),
{
}

/// A scalar is displayed as exactly one line: the indentation, then its text.
pub proof fn lemma_scalar_is_one_line(doc: JsonModel, depth: nat)
    requires
        !(doc is Object),
        !(doc is Array),
    ensures
        rendering(doc, depth) == seq![RenderModel::Line(indent(depth) + scalar_text(doc))],
{
}

/// Every node that displays a document at level `depth` is indented for that
/// level, and what a section holds for one level more, all the way down.
pub proof fn lemma_rendering_is_indented(doc: JsonModel, depth: nat)
    ensures
        forall|i: int|
            0 <= i < rendering(doc, depth).len() ==> indented(
                #[trigger] rendering(doc, depth)[i],
                depth,
            ),
    decreases doc,
{
    let nodes = rendering(doc, depth);
    assert forall|i: int| 0 <= i < nodes.len() implies indented(#[trigger] nodes[i], depth) by {
        let node = nodes[i];
        match doc {
            JsonModel::Object(members) => {
                assert(decreases_to!(doc => members[i]));
                lemma_rendering_is_indented(members[i].1, depth + 1);
                assert(label_of(node) == indent(depth) + members[i].0);
                assert(node->children == rendering(members[i].1, depth + 1));
            },
            JsonModel::Array(items) => {
                lemma_rendering_is_indented(items[i], depth + 1);
                assert(label_of(node) == indent(depth) + index_label(i as nat));
                assert(node->children == rendering(items[i], depth + 1));
            },
            _ => {
                assert(label_of(node) == indent(depth) + scalar_text(doc));
            },
        }
        assert(label_of(node).subrange(0, indent(depth).len() as int) =~= indent(depth));
    }
}

} // verus!
