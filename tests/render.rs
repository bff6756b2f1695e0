use dot_generator::entities::{Color, Edge, Entity, Id, Label, NodeDefaults, Subgraph, Vertex};
use dot_generator::generator::{DotOutput, GraphBuilder};

fn numeric_vertex(index: usize) -> Vertex {
    let key = format!("node_{}", index);
    Vertex {
        id: Id::new(&key),
        label: Some(Label(key)),
        color: None,
        fontcolor: None,
    }
}

fn bare_subgraph(name: &str, entities: Vec<Entity>) -> Subgraph {
    Subgraph {
        id: Id::new(name),
        label: None,
        color: None,
        fontcolor: None,
        node_defaults: None,
        entities,
    }
}

fn bare_vertex(name: &str) -> Vertex {
    Vertex {
        id: Id::new(name),
        label: None,
        color: None,
        fontcolor: None,
    }
}

#[test]
fn render_single_vertex() {
    let mut gb = GraphBuilder::new();
    gb.accept_entity(Entity::Vertex(numeric_vertex(0)));
    let DotOutput(output) = gb.build(Id::new("test_graph"));

    assert_eq!(
        output,
        "digraph test_graph {\n  \
             compound = true;\n\n  \
             node_0[label=\"node_0\", ];\n\
           }\n"
    );
}

#[test]
fn render_single_edge() {
    let mut gb = GraphBuilder::new();
    gb.accept_entity(Entity::Vertex(numeric_vertex(0)));
    gb.accept_entity(Entity::Vertex(numeric_vertex(1)));
    gb.accept_entity(Entity::Edge(Edge {
        source: numeric_vertex(0).id,
        target: numeric_vertex(1).id,
        label: Some(Label("asdf".to_string())),
        ..Default::default()
    }));

    let DotOutput(output) = gb.build(Id::new("test_graph"));

    assert_eq!(
        output,
        "digraph test_graph {\n  \
             compound = true;\n\n  \
             node_0[label=\"node_0\", ];\n\n  \
             node_1[label=\"node_1\", ];\n\n  \
             node_0 -> node_1[label=\"asdf\", ];\n\
           }\n"
    );
}

#[test]
fn render_empty_graph() {
    let gb = GraphBuilder::new();
    let DotOutput(output) = gb.build(Id::new("g"));
    assert_eq!(output, "digraph g {\n  compound = true;\n}\n");
}

#[test]
fn render_vertex_without_attributes() {
    let mut gb = GraphBuilder::new();
    gb.accept_entity(Entity::Vertex(bare_vertex("v")));
    let DotOutput(output) = gb.build(Id::new("g"));
    assert_eq!(output, "digraph g {\n  compound = true;\n\n  v;\n}\n");
}

#[test]
fn render_vertex_with_every_attribute() {
    let mut gb = GraphBuilder::new();
    gb.accept_entity(Entity::Vertex(Vertex {
        id: Id::new("v"),
        label: Some(Label("a label".to_string())),
        color: Some(Color("red".to_string())),
        fontcolor: Some(Color("blue".to_string())),
    }));
    let DotOutput(output) = gb.build(Id::new("g"));
    assert_eq!(
        output,
        "digraph g {\n  compound = true;\n\n  \
         v[label=\"a label\", color=\"red\", fontcolor=\"blue\", ];\n}\n"
    );
}

#[test]
fn render_edge_with_colors_only() {
    let mut gb = GraphBuilder::new();
    gb.accept_entity(Entity::Edge(Edge {
        source: Id::new("a"),
        target: Id::new("b-2"),
        label: None,
        color: Some(Color("green".to_string())),
        fontcolor: Some(Color("black".to_string())),
    }));
    let DotOutput(output) = gb.build(Id::new("g"));
    assert_eq!(
        output,
        "digraph g {\n  compound = true;\n\n  \
         a -> b-2[color=\"green\", fontcolor=\"black\", ];\n}\n"
    );
}

#[test]
fn render_edge_without_attributes() {
    let mut gb = GraphBuilder::new();
    gb.accept_entity(Entity::Edge(Edge {
        source: Id::new("a"),
        target: Id::new("b"),
        ..Default::default()
    }));
    let DotOutput(output) = gb.build(Id::new("g"));
    assert_eq!(output, "digraph g {\n  compound = true;\n\n  a -> b;\n}\n");
}

#[test]
fn render_empty_subgraph() {
    let mut gb = GraphBuilder::new();
    gb.accept_entity(Entity::Subgraph(bare_subgraph("c", Vec::new())));
    let DotOutput(output) = gb.build(Id::new("g"));
    assert_eq!(
        output,
        "digraph g {\n  compound = true;\n\n  \
         subgraph c {\n    \
         cluster = true;\n    \
         rank = same;\n\n\n  \
         }\n}\n"
    );
}

#[test]
fn render_subgraph_with_every_attribute() {
    let mut gb = GraphBuilder::new();
    gb.accept_entity(Entity::Subgraph(Subgraph {
        id: Id::new("c1"),
        label: Some(Label("L".to_string())),
        color: Some(Color("red".to_string())),
        fontcolor: Some(Color("blue".to_string())),
        node_defaults: Some(NodeDefaults {
            color: Some(Color("green".to_string())),
            fontcolor: None,
        }),
        entities: vec![Entity::Vertex(bare_vertex("v"))],
    }));
    let DotOutput(output) = gb.build(Id::new("g"));
    assert_eq!(
        output,
        "digraph g {\n  compound = true;\n\n  \
         subgraph c1 {\n    \
         label = \"L\";\n    \
         cluster = true;\n    \
         rank = same;\n\n    \
         color = \"red\";\n    \
         fontcolor = \"blue\";\n    \
         node [color=\"green\", ];\n\n    \
         v;\n  \
         }\n}\n"
    );
}

#[test]
fn render_subgraph_with_empty_node_defaults() {
    let mut gb = GraphBuilder::new();
    gb.accept_entity(Entity::Subgraph(Subgraph {
        id: Id::new("c"),
        label: None,
        color: None,
        fontcolor: None,
        node_defaults: Some(NodeDefaults::default()),
        entities: Vec::new(),
    }));
    let DotOutput(output) = gb.build(Id::new("g"));
    assert_eq!(
        output,
        "digraph g {\n  compound = true;\n\n  \
         subgraph c {\n    \
         cluster = true;\n    \
         rank = same;\n\n\n  \
         }\n}\n"
    );
}

#[test]
fn render_subgraph_with_both_node_defaults() {
    let mut gb = GraphBuilder::new();
    gb.accept_entity(Entity::Subgraph(Subgraph {
        id: Id::new("c"),
        label: None,
        color: None,
        fontcolor: None,
        node_defaults: Some(NodeDefaults {
            color: Some(Color("gray".to_string())),
            fontcolor: Some(Color("white".to_string())),
        }),
        entities: Vec::new(),
    }));
    let DotOutput(output) = gb.build(Id::new("g"));
    assert_eq!(
        output,
        "digraph g {\n  compound = true;\n\n  \
         subgraph c {\n    \
         cluster = true;\n    \
         rank = same;\n\n    \
         node [color=\"gray\", fontcolor=\"white\", ];\n\n  \
         }\n}\n"
    );
}

#[test]
fn render_three_nested_subgraphs() {
    let inner = bare_subgraph("c", vec![Entity::Vertex(bare_vertex("x"))]);
    let middle = bare_subgraph("b", vec![Entity::Subgraph(inner)]);
    let outer = bare_subgraph("a", vec![Entity::Subgraph(middle)]);
    let mut gb = GraphBuilder::new();
    gb.accept_entity(Entity::Subgraph(outer));
    gb.accept_entity(Entity::Vertex(bare_vertex("y")));
    let DotOutput(output) = gb.build(Id::new("g"));
    let expected = [
        "digraph g {",
        "  compound = true;",
        "",
        "  subgraph a {",
        "    cluster = true;",
        "    rank = same;",
        "",
        "",
        "    subgraph b {",
        "      cluster = true;",
        "      rank = same;",
        "",
        "",
        "      subgraph c {",
        "        cluster = true;",
        "        rank = same;",
        "",
        "",
        "        x;",
        "      }",
        "    }",
        "  }",
        "",
        "  y;",
        "}",
        "",
    ]
    .join("\n");
    assert_eq!(output, expected);
}

#[test]
fn render_children_in_acceptance_order() {
    let cluster = bare_subgraph(
        "c",
        vec![
            Entity::Vertex(bare_vertex("b")),
            Entity::Vertex(bare_vertex("a")),
            Entity::Edge(Edge {
                source: Id::new("b"),
                target: Id::new("a"),
                ..Default::default()
            }),
        ],
    );
    let mut gb = GraphBuilder::new();
    gb.accept_entity(Entity::Subgraph(cluster));
    let DotOutput(output) = gb.build(Id::new("g"));
    assert_eq!(
        output,
        "digraph g {\n  compound = true;\n\n  \
         subgraph c {\n    \
         cluster = true;\n    \
         rank = same;\n\n\n    \
         b;\n    \
         a;\n    \
         b -> a;\n  \
         }\n}\n"
    );
}

#[test]
fn render_twice_gives_identical_output() {
    let make = || {
        let mut gb = GraphBuilder::new();
        gb.accept_entity(Entity::Vertex(numeric_vertex(0)));
        gb.accept_entity(Entity::Subgraph(bare_subgraph(
            "c",
            vec![Entity::Vertex(numeric_vertex(1))],
        )));
        gb.build(Id::new("g"))
    };
    assert_eq!(make(), make());
}
