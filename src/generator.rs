//! Accumulates entities and renders them as a DOT document.
use vstd::prelude::*;

use crate::entities::{is_id_text, Color, Entity, Id, Label, Subgraph};
use crate::text::{
    attr_list, attr_pair, brace_free, break_indent, cluster_body, children_text, cluster_color, cluster_label,
    cluster_node_defaults, color_value, document_text, edge_text, entity_depth, entity_text,
    label_value, lemma_member_depth, seq_depth, spaces, subgraph_head, top_level_text, vertex_text,
};

verus! {

/// A rendered DOT document.
#[derive(Debug, Hash, PartialEq, Eq, Clone)]
pub struct DotOutput(pub String);

/// Collects the top-level entities of a graph, in the order they are accepted,
/// and renders them.
pub struct GraphBuilder {
    entities: Vec<Entity>,
}

impl View for GraphBuilder {
    type V = Seq<Entity>;

    closed spec fn view(&self) -> Seq<Entity> {
        self.entities@
    }
}

proof fn lemma_spaces_push(n: nat)
    ensures
        spaces(n + 1) == spaces(n).push(' '),
{
    assert(spaces(n + 1) =~= spaces(n).push(' '));
}

/// Rendering is deterministic: builders that hold the same entity trees,
/// rendered under the same graph name, give byte-identical documents.
pub proof fn lemma_build_deterministic(a: GraphBuilder, b: GraphBuilder, name_a: Id, name_b: Id)
    requires
        a@ == b@,
        name_a@ == name_b@,
    ensures
        document_text(name_a@, a@) == document_text(name_b@, b@),
{
}

/// A cluster rendered at indentation `n` opens its body at `n + 2`, renders
/// each child on its own line at `n + 2`, and closes with a line that holds
/// `n` spaces and `}`.
pub proof fn lemma_cluster_indentation(sg: Subgraph, n: nat)
    ensures
        entity_text(Entity::Subgraph(sg), n) == subgraph_head(sg, n + 2) + children_text(
            sg.entities@,
            n + 2,
        ) + "\n"@ + spaces(n) + "}"@,
        ("subgraph "@ + sg.id@ + " {"@ + "\n"@ + spaces(n + 2)).is_prefix_of(
            subgraph_head(sg, n + 2),
        ),
        forall|i: int|
            0 <= i < sg.entities@.len() ==> #[trigger] children_text(
                sg.entities@.subrange(0, i + 1),
                n + 2,
            ) == children_text(sg.entities@.subrange(0, i), n + 2) + "\n"@ + spaces(n + 2)
                + entity_text(sg.entities@[i], n + 2),
{
    let s = sg.entities@;
    assert forall|i: int| 0 <= i < s.len() implies #[trigger] children_text(
        s.subrange(0, i + 1),
        n + 2,
    ) == children_text(s.subrange(0, i), n + 2) + "\n"@ + spaces(n + 2) + entity_text(
        s[i],
        n + 2,
    ) by {
        assert(s.subrange(0, i + 1).drop_last() =~= s.subrange(0, i));
        assert(children_text(s.subrange(0, i + 1), n + 2) =~= children_text(s.subrange(0, i), n + 2)
            + "\n"@ + spaces(n + 2) + entity_text(s[i], n + 2));
    }
    let prefix = "subgraph "@ + sg.id@ + " {"@ + "\n"@ + spaces(n + 2);
    assert(subgraph_head(sg, n + 2).subrange(0, prefix.len() as int) =~= prefix);
    assert(entity_text(Entity::Subgraph(sg), n) =~= subgraph_head(sg, n + 2) + children_text(
        sg.entities@,
        n + 2,
    ) + "\n"@ + spaces(n) + "}"@);
}

proof fn lemma_brace_free_concat(a: Seq<char>, b: Seq<char>)
    requires
        brace_free(a),
        brace_free(b),
    ensures
        brace_free(a + b),
{
    reveal(brace_free);
    assert forall|i: int| 0 <= i < (a + b).len() implies #[trigger] (a + b)[i] != '{' && (a
        + b)[i] != '}' by {
        if i < a.len() {
            assert((a + b)[i] == a[i]);
        } else {
            assert((a + b)[i] == b[i - a.len()]);
        }
    }
}

proof fn lemma_break_indent_brace_free(n: nat)
    ensures
        brace_free(break_indent(n)),
{
    reveal(brace_free);
    assert(brace_free("\n"@)) by {
        reveal_strlit("\n");
    }
    assert(brace_free(spaces(n)));
    lemma_brace_free_concat("\n"@, spaces(n));
}

/// The literal pieces of a cluster's body hold no brace.
proof fn lemma_cluster_literals_brace_free()
    ensures
        brace_free("label = \""@),
        brace_free("\";"@),
        brace_free("cluster = true;"@),
        brace_free("rank = same;"@),
        brace_free("\n"@),
        brace_free("color"@),
        brace_free("fontcolor"@),
        brace_free(" = \""@),
        brace_free("node ["@),
        brace_free("=\""@),
        brace_free("\", "@),
        brace_free("];"@),
        brace_free(Seq::<char>::empty()),
{
    reveal(brace_free);
    reveal_strlit("label = \"");
    reveal_strlit("\";");
    reveal_strlit("cluster = true;");
    reveal_strlit("rank = same;");
    reveal_strlit("\n");
    reveal_strlit("color");
    reveal_strlit("fontcolor");
    reveal_strlit(" = \"");
    reveal_strlit("node [");
    reveal_strlit("=\"");
    reveal_strlit("\", ");
    reveal_strlit("];");
}

proof fn lemma_attr_pair_brace_free(name: Seq<char>, value: Option<Seq<char>>)
    requires
        brace_free(name),
        value matches Some(v) ==> brace_free(v),
    ensures
        brace_free(attr_pair(name, value)),
{
    lemma_cluster_literals_brace_free();
    if value is None {
        assert(attr_pair(name, value) =~= Seq::<char>::empty());
    }
    if let Some(v) = value {
        lemma_brace_free_concat(name, "=\""@);
        lemma_brace_free_concat(name + "=\""@, v);
        lemma_brace_free_concat(name + "=\""@ + v, "\", "@);
    }
}

/// Where a cluster's attribute texts hold no brace, neither does its body.
proof fn lemma_cluster_body_brace_free(sg: Subgraph, inner: nat)
    requires
        sg.label matches Some(l) ==> brace_free(l.0@),
        sg.color matches Some(c) ==> brace_free(c.0@),
        sg.fontcolor matches Some(c) ==> brace_free(c.0@),
        sg.node_defaults matches Some(d) ==> (d.color matches Some(c) ==> brace_free(c.0@)) && (
        d.fontcolor matches Some(c) ==> brace_free(c.0@)),
    ensures
        brace_free(cluster_body(sg, inner)),
{
    lemma_cluster_literals_brace_free();
    lemma_break_indent_brace_free(inner);
    let label_part = cluster_label(sg.label, inner);
    if let Some(l) = sg.label {
        lemma_brace_free_concat("label = \""@, l.0@);
        lemma_brace_free_concat("label = \""@ + l.0@, "\";"@);
        lemma_brace_free_concat("label = \""@ + l.0@ + "\";"@, break_indent(inner));
        assert(label_part == "label = \""@ + l.0@ + "\";"@ + break_indent(inner));
    } else {
        assert(label_part =~= Seq::<char>::empty());
    }
    let color_part = cluster_color("color"@, sg.color, inner);
    if let Some(c) = sg.color {
        lemma_brace_free_concat(break_indent(inner), "color"@);
        lemma_brace_free_concat(break_indent(inner) + "color"@, " = \""@);
        lemma_brace_free_concat(break_indent(inner) + "color"@ + " = \""@, c.0@);
        lemma_brace_free_concat(break_indent(inner) + "color"@ + " = \""@ + c.0@, "\";"@);
        assert(color_part == break_indent(inner) + "color"@ + " = \""@ + c.0@ + "\";"@);
    } else {
        assert(color_part =~= Seq::<char>::empty());
    }
    let fontcolor_part = cluster_color("fontcolor"@, sg.fontcolor, inner);
    if let Some(c) = sg.fontcolor {
        lemma_brace_free_concat(break_indent(inner), "fontcolor"@);
        lemma_brace_free_concat(break_indent(inner) + "fontcolor"@, " = \""@);
        lemma_brace_free_concat(break_indent(inner) + "fontcolor"@ + " = \""@, c.0@);
        lemma_brace_free_concat(break_indent(inner) + "fontcolor"@ + " = \""@ + c.0@, "\";"@);
        assert(fontcolor_part == break_indent(inner) + "fontcolor"@ + " = \""@ + c.0@ + "\";"@);
    } else {
        assert(fontcolor_part =~= Seq::<char>::empty());
    }
    let defaults_part = cluster_node_defaults(sg.node_defaults, inner);
    if let Some(d) = sg.node_defaults {
        if !(d.color is None && d.fontcolor is None) {
            let a = attr_pair("color"@, color_value(d.color));
            let b = attr_pair("fontcolor"@, color_value(d.fontcolor));
            lemma_attr_pair_brace_free("color"@, color_value(d.color));
            lemma_attr_pair_brace_free("fontcolor"@, color_value(d.fontcolor));
            lemma_brace_free_concat(break_indent(inner), "node ["@);
            lemma_brace_free_concat(break_indent(inner) + "node ["@, a);
            lemma_brace_free_concat(break_indent(inner) + "node ["@ + a, b);
            lemma_brace_free_concat(break_indent(inner) + "node ["@ + a + b, "];"@);
            assert(defaults_part == break_indent(inner) + "node ["@ + a + b + "];"@);
        } else {
            assert(defaults_part =~= Seq::<char>::empty());
        }
    } else {
        assert(defaults_part =~= Seq::<char>::empty());
    }
    let b1 = break_indent(inner) + label_part;
    lemma_brace_free_concat(break_indent(inner), label_part);
    let b2 = b1 + "cluster = true;"@;
    lemma_brace_free_concat(b1, "cluster = true;"@);
    let b3 = b2 + break_indent(inner);
    lemma_brace_free_concat(b2, break_indent(inner));
    let b4 = b3 + "rank = same;"@;
    lemma_brace_free_concat(b3, "rank = same;"@);
    let b5 = b4 + "\n"@;
    lemma_brace_free_concat(b4, "\n"@);
    let b6 = b5 + color_part;
    lemma_brace_free_concat(b5, color_part);
    let b7 = b6 + fontcolor_part;
    lemma_brace_free_concat(b6, fontcolor_part);
    let b8 = b7 + defaults_part;
    lemma_brace_free_concat(b7, defaults_part);
    let body = b8 + "\n"@;
    lemma_brace_free_concat(b8, "\n"@);
    assert(body =~= cluster_body(sg, inner));
}

/// A cluster without children is still a closed block: its text is
/// `subgraph id {`, then a body in which no brace occurs, then `}` on a line
/// of its own at the cluster's indentation.
pub proof fn lemma_empty_cluster_closed(sg: Subgraph, n: nat)
    requires
        sg.entities@.len() == 0,
        is_id_text(sg.id@),
        sg.label matches Some(l) ==> brace_free(l.0@),
        sg.color matches Some(c) ==> brace_free(c.0@),
        sg.fontcolor matches Some(c) ==> brace_free(c.0@),
        sg.node_defaults matches Some(d) ==> (d.color matches Some(c) ==> brace_free(c.0@)) && (
        d.fontcolor matches Some(c) ==> brace_free(c.0@)),
    ensures
        ({
            let t = entity_text(Entity::Subgraph(sg), n);
            let open = "subgraph "@ + sg.id@ + " {"@;
            let close = "\n"@ + spaces(n) + "}"@;
            let body = t.subrange(open.len() as int, t.len() - close.len());
            &&& t == open + body + close
            &&& brace_free(sg.id@)
            &&& brace_free(body)
        }),
{
    let t = entity_text(Entity::Subgraph(sg), n);
    let open = "subgraph "@ + sg.id@ + " {"@;
    let close = "\n"@ + spaces(n) + "}"@;
    let body = cluster_body(sg, n + 2);
    assert(brace_free(sg.id@)) by {
        reveal(brace_free);
        assert forall|i: int| 0 <= i < sg.id@.len() implies #[trigger] sg.id@[i] != '{'
            && sg.id@[i] != '}' by {
            assert(crate::entities::is_id_char(sg.id@[i]));
        }
    }
    lemma_cluster_body_brace_free(sg, n + 2);
    assert(children_text(sg.entities@, n + 2) =~= Seq::<char>::empty());
    assert(t =~= open + body + close);
    assert(t.subrange(open.len() as int, t.len() - close.len()) =~= body);
}

impl GraphBuilder {
    /// A builder with no entities.
    pub fn new() -> (r: Self)
        ensures
            r@ == Seq::<Entity>::empty(),
    {
        GraphBuilder { entities: Vec::new() }
    }

    /// Appends `e` after the entities accepted so far.
    pub fn accept_entity(&mut self, e: Entity)
        ensures
            final(self)@ == old(self)@.push(e),
    {
        self.entities.push(e);
    }

    fn newline(output: &mut String)
        ensures
            final(output)@ == old(output)@ + "\n"@,
    {
        output.append("\n");
    }

    fn newline_indent(output: &mut String, indent: usize)
        ensures
            final(output)@ == old(output)@ + break_indent(indent as nat),
    {
        Self::newline(output);
        let mut i: usize = 0;
        while i < indent
            invariant
                i <= indent,
                output@ == old(output)@ + "\n"@ + spaces(i as nat),
            decreases indent - i,
        {
            proof {
                reveal_strlit(" ");
                lemma_spaces_push(i as nat);
            }
            output.append(" ");
            i = i + 1;
        }
    }

    fn bump_indent(indent: &mut usize)
        requires
            *old(indent) <= usize::MAX - 2,
        ensures
            *final(indent) == *old(indent) + 2,
    {
        *indent = *indent + 2;
    }

    fn unbump_indent(indent: &mut usize)
        requires
            *old(indent) >= 2,
        ensures
            *final(indent) == *old(indent) - 2,
    {
        *indent = *indent - 2;
    }

    /// Appends `name="value", `.
    fn push_attr(output: &mut String, name: &str, value: &String)
        ensures
            final(output)@ == old(output)@ + attr_pair(name@, Some(value@)),
    {
        output.append(name);
        output.append("=\"");
        output.append(value.as_str());
        output.append("\", ");
        assert(output@ =~= old(output)@ + attr_pair(name@, Some(value@)));
    }

    /// Appends `name="value", ` where the color is present.
    fn push_color_attr(output: &mut String, name: &str, color: &Option<Color>)
        ensures
            final(output)@ == old(output)@ + attr_pair(name@, color_value(*color)),
    {
        match color {
            Some(c) => Self::push_attr(output, name, &c.0),
            None => {
                assert(output@ =~= old(output)@ + attr_pair(name@, color_value(*color)));
            },
        }
    }

    /// Appends the bracketed attribute list of a vertex or an edge.
    fn push_attr_list(
        output: &mut String,
        label: &Option<Label>,
        color: &Option<Color>,
        fontcolor: &Option<Color>,
    )
        ensures
            final(output)@ == old(output)@ + attr_list(
                label_value(*label),
                color_value(*color),
                color_value(*fontcolor),
            ),
    {
        if label.is_some() || color.is_some() || fontcolor.is_some() {
            output.append("[");
            let ghost open_bracket = output@;
            match label {
                Some(l) => Self::push_attr(output, "label", &l.0),
                None => {},
            }
            assert(output@ =~= open_bracket + attr_pair("label"@, label_value(*label)));
            Self::push_color_attr(output, "color", color);
            Self::push_color_attr(output, "fontcolor", fontcolor);
            output.append("]");
        }
        assert(output@ =~= old(output)@ + attr_list(
            label_value(*label),
            color_value(*color),
            color_value(*fontcolor),
        ));
    }
    /// Appends a cluster's `name = "value";` statement on a new line, where the
    /// color is present.
    fn push_cluster_color(output: &mut String, name: &str, color: &Option<Color>, inner: usize)
        ensures
            final(output)@ == old(output)@ + cluster_color(name@, *color, inner as nat),
    {
        match color {
            Some(c) => {
                Self::newline_indent(output, inner);
                output.append(name);
                output.append(" = \"");
                output.append(c.0.as_str());
                output.append("\";");
            },
            None => {},
        }
        assert(output@ =~= old(output)@ + cluster_color(name@, *color, inner as nat));
    }

    /// Everything a cluster emits before its children; `inner` is the
    /// indentation of its body.
    fn print_subgraph_head(sg: &Subgraph, inner: usize) -> (r: String)
        ensures
            r@ == subgraph_head(*sg, inner as nat),
    {
        let mut output = "subgraph ".to_owned();
        output.append(sg.id.as_str());
        output.append(" {");
        let ghost start = output@;
        Self::newline_indent(&mut output, inner);
        let ghost before_label = output@;
        match &sg.label {
            Some(l) => {
                output.append("label = \"");
                output.append(l.0.as_str());
                output.append("\";");
                Self::newline_indent(&mut output, inner);
            },
            None => {},
        }
        assert(output@ =~= before_label + cluster_label(sg.label, inner as nat));
        output.append("cluster = true;");
        Self::newline_indent(&mut output, inner);
        output.append("rank = same;");
        Self::newline(&mut output);
        Self::push_cluster_color(&mut output, "color", &sg.color, inner);
        Self::push_cluster_color(&mut output, "fontcolor", &sg.fontcolor, inner);
        let ghost before_defaults = output@;
        match &sg.node_defaults {
            Some(d) => {
                if d.color.is_some() || d.fontcolor.is_some() {
                    Self::newline_indent(&mut output, inner);
                    output.append("node [");
                    Self::push_color_attr(&mut output, "color", &d.color);
                    Self::push_color_attr(&mut output, "fontcolor", &d.fontcolor);
                    output.append("];");
                }
            },
            None => {},
        }
        assert(output@ =~= before_defaults + cluster_node_defaults(sg.node_defaults, inner as nat));
        Self::newline(&mut output);
        assert(output@ =~= start + cluster_body(*sg, inner as nat));
        assert(output@ =~= subgraph_head(*sg, inner as nat));
        output
    }

    /// Renders an entity that starts on a line indented by `indent`.
    fn print_entity(entity: &Entity, indent: usize) -> (r: String)
        requires
            indent + 2 * entity_depth(*entity) <= usize::MAX,
        ensures
            r@ == entity_text(*entity, indent as nat),
        decreases entity_depth(*entity),
    {
        match entity {
            Entity::Vertex(v) => {
                let mut output = v.id.as_str().to_owned();
                Self::push_attr_list(&mut output, &v.label, &v.color, &v.fontcolor);
                output.append(";");
                assert(output@ =~= vertex_text(*v));
                output
            },
            Entity::Edge(e) => {
                let mut output = e.source.as_str().to_owned();
                output.append(" -> ");
                output.append(e.target.as_str());
                Self::push_attr_list(&mut output, &e.label, &e.color, &e.fontcolor);
                output.append(";");
                assert(output@ =~= edge_text(*e));
                output
            },
            Entity::Subgraph(sg) => {
                let mut indent = indent;
                Self::bump_indent(&mut indent);
                let mut output = Self::print_subgraph_head(sg, indent);
                let ghost head = output@;
                let ghost children = sg.entities@;
                let mut i: usize = 0;
                while i < sg.entities.len()
                    invariant
                        i <= children.len(),
                        children == sg.entities@,
                        entity_depth(*entity) == 1 + seq_depth(children),
                        indent + 2 * seq_depth(children) <= usize::MAX,
                        output@ == head + children_text(children.subrange(0, i as int), indent as nat),
                    decreases children.len() - i,
                {
                    Self::newline_indent(&mut output, indent);
                    proof {
                        lemma_member_depth(children, i as int);
                    }
                    let child = Self::print_entity(&sg.entities[i], indent);
                    output.append(child.as_str());
                    proof {
                        let next = children.subrange(0, i + 1);
                        assert(next.drop_last() =~= children.subrange(0, i as int));
                        assert(output@ =~= head + children_text(next, indent as nat));
                    }
                    i = i + 1;
                }
                assert(children.subrange(0, i as int) =~= children);
                Self::unbump_indent(&mut indent);
                Self::newline_indent(&mut output, indent);
                output.append("}");
                assert(output@ =~= entity_text(*entity, indent as nat));
                output
            },
        }
    }

    /// Renders the document for the graph `graph_name`: a `digraph` block
    /// holding every accepted entity in acceptance order.
    ///
    /// The indentation of the deepest cluster must fit in a `usize`, which any
    /// tree that fits in memory satisfies.
    pub fn build(self, graph_name: Id) -> (r: DotOutput)
        requires
            2 * seq_depth(self@) + 2 <= usize::MAX,
        ensures
            r.0@ == document_text(graph_name@, self@),
    {
        let mut output = "digraph ".to_owned();
        output.append(graph_name.as_str());
        output.append(" {");
        let mut indent: usize = 0;
        Self::bump_indent(&mut indent);
        Self::newline_indent(&mut output, indent);
        output.append("compound = true;");
        let ghost head = output@;
        let ghost entities = self.entities@;
        let mut i: usize = 0;
        while i < self.entities.len()
            invariant
                i <= entities.len(),
                entities == self.entities@,
                indent == 2,
                2 * seq_depth(entities) + 2 <= usize::MAX,
                output@ == head + top_level_text(entities.subrange(0, i as int)),
            decreases entities.len() - i,
        {
            Self::newline(&mut output);
            Self::newline_indent(&mut output, indent);
            proof {
                lemma_member_depth(entities, i as int);
            }
            let expr = Self::print_entity(&self.entities[i], indent);
            output.append(expr.as_str());
            proof {
                let next = entities.subrange(0, i + 1);
                assert(next.drop_last() =~= entities.subrange(0, i as int));
                assert(output@ =~= head + top_level_text(next));
            }
            i = i + 1;
        }
        assert(entities.subrange(0, i as int) =~= entities);
        Self::unbump_indent(&mut indent);
        Self::newline_indent(&mut output, indent);
        output.append("}");
        Self::newline(&mut output);
        assert(output@ =~= document_text(graph_name@, self@));
        DotOutput(output)
    }
}

} // verus!
