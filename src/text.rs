//! The text of a DOT document, stated over the entity tree.
//!
//! These spec functions say exactly which characters the renderer emits; the
//! executable code in [`crate::generator`] is verified against them.
use vstd::prelude::*;

use crate::entities::{Color, Edge, Entity, Label, NodeDefaults, Subgraph, Vertex};

verus! {

/// `n` spaces.
pub open spec fn spaces(n: nat) -> Seq<char> {
    Seq::new(n, |_i: int| ' ')
}

/// A line break followed by `indent` spaces.
pub open spec fn break_indent(indent: nat) -> Seq<char> {
    "\n"@ + spaces(indent)
}

/// Text that holds neither `{` nor `}`.
#[verifier::opaque]
pub open spec fn brace_free(s: Seq<char>) -> bool {
    forall|i: int| 0 <= i < s.len() ==> #[trigger] s[i] != '{' && s[i] != '}'
}

/// The text of a label, where there is one.
pub open spec fn label_value(label: Option<Label>) -> Option<Seq<char>> {
    match label {
        Some(l) => Some(l.0@),
        None => None,
    }
}

/// The text of a color, where there is one.
pub open spec fn color_value(color: Option<Color>) -> Option<Seq<char>> {
    match color {
        Some(c) => Some(c.0@),
        None => None,
    }
}

/// `name="value", ` for a present value; nothing for an absent one.
pub open spec fn attr_pair(name: Seq<char>, value: Option<Seq<char>>) -> Seq<char> {
    match value {
        Some(v) => name + "=\""@ + v + "\", "@,
        None => Seq::empty(),
    }
}

/// The bracketed attribute list of a vertex or an edge: nothing where no
/// attribute is present, else each present attribute followed by `, `.
pub open spec fn attr_list(
    label: Option<Seq<char>>,
    color: Option<Seq<char>>,
    fontcolor: Option<Seq<char>>,
) -> Seq<char> {
    if label is None && color is None && fontcolor is None {
        Seq::empty()
    } else {
        "["@ + attr_pair("label"@, label) + attr_pair("color"@, color) + attr_pair(
            "fontcolor"@,
            fontcolor,
        ) + "]"@
    }
}

/// `id[attrs];`
pub open spec fn vertex_text(v: Vertex) -> Seq<char> {
    v.id@ + attr_list(label_value(v.label), color_value(v.color), color_value(v.fontcolor))
        + ";"@
}

/// `source -> target[attrs];`
pub open spec fn edge_text(e: Edge) -> Seq<char> {
    e.source@ + " -> "@ + e.target@ + attr_list(
        label_value(e.label),
        color_value(e.color),
        color_value(e.fontcolor),
    ) + ";"@
}

/// The `label = "...";` statement of a cluster and the line break after it,
/// where the cluster has a label.
pub open spec fn cluster_label(label: Option<Label>, inner: nat) -> Seq<char> {
    match label {
        Some(l) => "label = \""@ + l.0@ + "\";"@ + break_indent(inner),
        None => Seq::empty(),
    }
}

/// A `name = "value";` statement of a cluster on a line of its own, where the
/// color is present.
pub open spec fn cluster_color(name: Seq<char>, color: Option<Color>, inner: nat) -> Seq<char> {
    match color {
        Some(c) => break_indent(inner) + name + " = \""@ + c.0@ + "\";"@,
        None => Seq::empty(),
    }
}

/// The `node [...];` statement of a cluster on a line of its own, where node
/// defaults are present and set at least one color.
pub open spec fn cluster_node_defaults(defaults: Option<NodeDefaults>, inner: nat) -> Seq<char> {
    match defaults {
        Some(d) => if d.color is None && d.fontcolor is None {
            Seq::empty()
        } else {
            break_indent(inner) + "node ["@ + attr_pair("color"@, color_value(d.color)) + attr_pair(
                "fontcolor"@,
                color_value(d.fontcolor),
            ) + "];"@
        },
        None => Seq::empty(),
    }
}

/// The body of a cluster before its children, where `inner` is its
/// indentation: the statements that every cluster makes and those of its
/// attributes.
pub open spec fn cluster_body(sg: Subgraph, inner: nat) -> Seq<char> {
    break_indent(inner) + cluster_label(sg.label, inner) + "cluster = true;"@ + break_indent(inner)
        + "rank = same;"@ + "\n"@ + cluster_color("color"@, sg.color, inner) + cluster_color(
        "fontcolor"@,
        sg.fontcolor,
        inner,
    ) + cluster_node_defaults(sg.node_defaults, inner) + "\n"@
}

/// Everything a cluster emits before its children, where `inner` is the
/// indentation of its body.
pub open spec fn subgraph_head(sg: Subgraph, inner: nat) -> Seq<char> {
    "subgraph "@ + sg.id@ + " {"@ + cluster_body(sg, inner)
}

/// The text of an entity that starts on a line indented by `indent`.
pub open spec fn entity_text(e: Entity, indent: nat) -> Seq<char>
    decreases e,
{
    match e {
        Entity::Vertex(v) => vertex_text(v),
        Entity::Edge(x) => edge_text(x),
        Entity::Subgraph(sg) => subgraph_head(sg, indent + 2) + children_text(
            sg.entities@,
            indent + 2,
        ) + break_indent(indent) + "}"@,
    }
}

/// The children of a cluster, each on a new line indented by `indent`.
pub open spec fn children_text(s: Seq<Entity>, indent: nat) -> Seq<char>
    decreases s,
{
    if s.len() == 0 {
        Seq::empty()
    } else {
        children_text(s.drop_last(), indent) + break_indent(indent) + entity_text(s.last(), indent)
    }
}

/// The top-level entities, each after a blank line and indented by two.
pub open spec fn top_level_text(s: Seq<Entity>) -> Seq<char>
    decreases s.len(),
{
    if s.len() == 0 {
        Seq::empty()
    } else {
        top_level_text(s.drop_last()) + "\n"@ + break_indent(2) + entity_text(s.last(), 2)
    }
}

/// The whole document for the graph `name` holding the entities `s`.
pub open spec fn document_text(name: Seq<char>, s: Seq<Entity>) -> Seq<char> {
    "digraph "@ + name + " {"@ + break_indent(2) + "compound = true;"@ + top_level_text(s)
        + break_indent(0) + "}"@ + "\n"@
}

/// How deeply clusters nest in an entity.
pub open spec fn entity_depth(e: Entity) -> nat
    decreases e,
{
    match e {
        Entity::Subgraph(sg) => 1 + seq_depth(sg.entities@),
        _ => 0,
    }
}

/// How deeply clusters nest in a sequence of entities.
pub open spec fn seq_depth(s: Seq<Entity>) -> nat
    decreases s,
{
    if s.len() == 0 {
        0
    } else {
        let a = seq_depth(s.drop_last());
        let b = entity_depth(s.last());
        if a >= b {
            a
        } else {
            b
        }
    }
}

/// No entity of a sequence nests deeper than the sequence.
pub(crate) proof fn lemma_member_depth(s: Seq<Entity>, i: int)
    requires
        0 <= i < s.len(),
    ensures
        entity_depth(s[i]) <= seq_depth(s),
    decreases s.len(),
{
    if i < s.len() - 1 {
        lemma_member_depth(s.drop_last(), i);
    }
}

} // verus!
