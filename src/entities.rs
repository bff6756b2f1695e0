//! The objects that a DOT document is made of.
use vstd::prelude::*;

use crate::text::{children_text, entity_depth, entity_text, lemma_member_depth, seq_depth};

pub mod style;

pub use style::{Color, Label, NodeDefaults};

use style::{clone_color, clone_label, clone_node_defaults};

verus! {

/// A character allowed in an identifier: an ASCII letter or digit, `_` or `-`.
pub open spec fn is_id_char(c: char) -> bool {
    ('a' <= c && c <= 'z') || ('A' <= c && c <= 'Z') || ('0' <= c && c <= '9') || c == '_'
        || c == '-'
}

/// Text accepted as an identifier: every character is an identifier character
/// (the empty text included).
pub open spec fn is_id_text(s: Seq<char>) -> bool {
    forall|i: int| 0 <= i < s.len() ==> is_id_char(#[trigger] s[i])
}

/// The pattern that identifiers are checked against.
pub const ID_PATTERN: &'static str = "^[A-Za-z0-9_-]*$";

/// Relies on `regex::Regex::new`, which compiles a pattern, and
/// `Regex::is_match`, which reports whether it matches the text. The pattern is
/// the anchored class of identifier characters, which compiles and matches
/// exactly the texts made of those characters.
#[verifier::external_body]
fn pattern_matches(pattern: &str, text: &str) -> (r: bool)
    requires
        pattern@ == ID_PATTERN@,
    ensures
        r == is_id_text(text@),
{
    regex::Regex::new(pattern).unwrap().is_match(text)
}

/// A lowercase hex digit.
pub open spec fn is_lower_hex(c: char) -> bool {
    ('0' <= c && c <= '9') || ('a' <= c && c <= 'f')
}

/// A random 128-bit token written in the hyphenated form: 36 characters,
/// `-` at positions 8, 13, 18 and 23 and a lowercase hex digit everywhere else.
pub open spec fn is_hyphenated_token(s: Seq<char>) -> bool {
    &&& s.len() == 36
    &&& forall|i: int|
        0 <= i < s.len() ==> if i == 8 || i == 13 || i == 18 || i == 23 {
            #[trigger] s[i] == '-'
        } else {
            is_lower_hex(s[i])
        }
}

/// Relies on `uuid::Uuid::new_v4`, which draws a random UUID (it panics only
/// where the operating system hands out no random bytes), and on its `Display`
/// impl, which writes it as 36 characters: lowercase hex digits, with hyphens
/// at positions 8, 13, 18 and 23.
#[verifier::external_body]
fn random_token() -> (r: String)
    ensures
        is_hyphenated_token(r@),
{
    uuid::Uuid::new_v4().to_string()
}

/// The key that names a vertex, a subgraph or the graph itself in a document.
///
/// Every identifier is made of ASCII letters, digits, `_` and `-`: text that
/// breaks this rule is refused when the identifier is made, and a valid one is
/// written out verbatim.
#[derive(Debug, Hash, PartialEq, Eq)]
pub struct Id(String);

impl View for Id {
    type V = Seq<char>;

    closed spec fn view(&self) -> Seq<char> {
        self.0@
    }
}

/// Text refused as an identifier, with the pattern that it had to match.
#[derive(Debug, Clone, PartialEq, Eq)]
pub struct InvalidId {
    pub text: String,
    pub pattern: String,
}

impl InvalidId {
    /// A message naming the refused text and the pattern.
    pub fn message(&self) -> (r: String)
        ensures
            r@ == "invalid identifier \""@ + self.text@ + "\": it must match "@ + self.pattern@,
    {
        let mut r = "invalid identifier \"".to_owned();
        r.append(self.text.as_str());
        r.append("\": it must match ");
        r.append(self.pattern.as_str());
        r
    }
}

impl Clone for Id {
    fn clone(&self) -> (r: Id)
        ensures
            r == *self,
    {
        proof {
            use_type_invariant(self);
        }
        Id(self.0.clone())
    }
}

impl Id {
    #[verifier::type_invariant]
    spec fn well_formed(self) -> bool {
        is_id_text(self.0@)
    }

    /// Makes an identifier of `s`, which must be valid.
    pub fn new(s: &str) -> (r: Id)
        requires
            is_id_text(s@),
        ensures
            r@ == s@,
    {
        Id(s.to_string())
    }

    /// Makes an identifier of `s`, or reports the refused text together with
    /// the pattern it had to match where `s` holds a character other than an
    /// ASCII letter or digit, `_` or `-`.
    pub fn parse(s: &str) -> (r: Result<Id, InvalidId>)
        ensures
            r is Ok <==> is_id_text(s@),
            r matches Ok(id) ==> id@ == s@,
            r matches Err(e) ==> e.text@ == s@ && e.pattern@ == ID_PATTERN@,
    {
        if pattern_matches(ID_PATTERN, s) {
            Ok(Id::new(s))
        } else {
            Err(InvalidId { text: s.to_owned(), pattern: ID_PATTERN.to_owned() })
        }
    }

    /// Makes an identifier of `s`, or returns `None` where `s` holds a
    /// character other than an ASCII letter or digit, `_` or `-`.
    pub fn try_new(s: &str) -> (r: Option<Id>)
        ensures
            r is Some <==> is_id_text(s@),
            r matches Some(id) ==> id@ == s@,
    {
        match Id::parse(s) {
            Ok(id) => Some(id),
            Err(_) => None,
        }
    }

    /// Makes a fresh identifier from a random 128-bit token, written as
    /// lowercase hex digits in groups of 8, 4, 4, 4 and 12 joined by `-`.
    pub fn random() -> (r: Id)
        ensures
            is_hyphenated_token(r@),
    {
        let token = random_token();
        assert(is_id_text(token@)) by {
            assert forall|i: int| 0 <= i < token@.len() implies is_id_char(#[trigger] token@[i]) by {
                if i == 8 || i == 13 || i == 18 || i == 23 {
                    assert(token@[i] == '-');
                } else {
                    assert(is_lower_hex(token@[i]));
                }
            }
        }
        Id(token)
    }

    /// The identifier's text, which is always valid.
    pub fn as_str(&self) -> (r: &str)
        ensures
            r@ == self@,
            is_id_text(r@),
    {
        proof {
            use_type_invariant(self);
        }
        self.0.as_str()
    }
}

/// A vertex: an identifier with optional presentation attributes.
#[derive(Debug)]
pub struct Vertex {
    pub id: Id,
    pub label: Option<Label>,
    pub color: Option<Color>,
    pub fontcolor: Option<Color>,
}

impl Vertex {
    /// A vertex named `id`, with no attributes. Callers that want fixed
    /// identifiers, such as tests, supply them here.
    pub fn new(id: Id) -> (r: Vertex)
        ensures
            r.id == id,
            r.label is None,
            r.color is None,
            r.fontcolor is None,
    {
        Vertex { id, label: None, color: None, fontcolor: None }
    }
}

impl Default for Vertex {
    /// A vertex with a fresh random identifier and no attributes.
    fn default() -> (r: Vertex)
        ensures
            is_hyphenated_token(r.id@),
            r.label is None,
            r.color is None,
            r.fontcolor is None,
    {
        Vertex::new(Id::random())
    }
}

impl Clone for Vertex {
    fn clone(&self) -> (r: Self)
        ensures
            r == *self,
    {
        Vertex {
            id: self.id.clone(),
            label: clone_label(&self.label),
            color: clone_color(&self.color),
            fontcolor: clone_color(&self.fontcolor),
        }
    }
}

/// Anything that can stand in a document: a cluster, a vertex or an edge.
#[derive(Debug)]
pub enum Entity {
    Subgraph(Subgraph),
    Vertex(Vertex),
    Edge(Edge),
}

/// A cluster of entities, drawn together.
#[derive(Debug)]
pub struct Subgraph {
    pub id: Id,
    pub label: Option<Label>,
    pub color: Option<Color>,
    pub fontcolor: Option<Color>,
    pub node_defaults: Option<NodeDefaults>,
    pub entities: Vec<Entity>,
}

impl Subgraph {
    /// An empty cluster named `id`, with no attributes. Callers that want
    /// fixed identifiers, such as tests, supply them here.
    pub fn new(id: Id) -> (r: Subgraph)
        ensures
            r.id == id,
            r.label is None,
            r.color is None,
            r.fontcolor is None,
            r.node_defaults is None,
            r.entities@ == Seq::<Entity>::empty(),
    {
        Subgraph {
            id,
            label: None,
            color: None,
            fontcolor: None,
            node_defaults: None,
            entities: Vec::new(),
        }
    }
}

impl Default for Subgraph {
    /// An empty cluster with a fresh random identifier and no attributes.
    fn default() -> (r: Subgraph)
        ensures
            is_hyphenated_token(r.id@),
            r.label is None,
            r.color is None,
            r.fontcolor is None,
            r.node_defaults is None,
            r.entities@ == Seq::<Entity>::empty(),
    {
        Subgraph::new(Id::random())
    }
}

/// Copies an entity, clusters with all their children; the copy renders
/// exactly as the original at every indentation.
fn clone_entity(e: &Entity) -> (r: Entity)
    ensures
        forall|n: nat| entity_text(r, n) == entity_text(*e, n),
    decreases entity_depth(*e), 1int,
{
    match e {
        Entity::Subgraph(sg) => {
            let c = clone_subgraph(sg);
            assert forall|n: nat| entity_text(Entity::Subgraph(c), n) == entity_text(*e, n) by {
                assert(children_text(c.entities@, n + 2) == children_text(sg.entities@, n + 2));
            }
            Entity::Subgraph(c)
        },
        Entity::Vertex(v) => Entity::Vertex(v.clone()),
        Entity::Edge(x) => Entity::Edge(x.clone()),
    }
}

/// Copies a cluster with all its children: the attributes are equal and the
/// children render exactly as the originals.
fn clone_subgraph(sg: &Subgraph) -> (r: Subgraph)
    ensures
        r.id == sg.id,
        r.label == sg.label,
        r.color == sg.color,
        r.fontcolor == sg.fontcolor,
        r.node_defaults == sg.node_defaults,
        r.entities@.len() == sg.entities@.len(),
        forall|n: nat| children_text(r.entities@, n) == children_text(sg.entities@, n),
    decreases 1 + seq_depth(sg.entities@), 0int,
{
    let mut entities: Vec<Entity> = Vec::new();
    let mut i: usize = 0;
    while i < sg.entities.len()
        invariant
            i <= sg.entities@.len(),
            entities@.len() == i,
            forall|n: nat|
                children_text(entities@, n) == children_text(
                    #[trigger] sg.entities@.subrange(0, i as int),
                    n,
                ),
        decreases sg.entities@.len() - i,
    {
        proof {
            lemma_member_depth(sg.entities@, i as int);
        }
        let c = clone_entity(&sg.entities[i]);
        let ghost before = entities@;
        entities.push(c);
        proof {
            let next = sg.entities@.subrange(0, i + 1);
            assert(next.drop_last() =~= sg.entities@.subrange(0, i as int));
            assert(entities@.drop_last() =~= before);
            assert forall|n: nat| children_text(entities@, n) == children_text(next, n) by {
                assert(children_text(before, n) == children_text(
                    sg.entities@.subrange(0, i as int),
                    n,
                ));
                assert(entity_text(c, n) == entity_text(sg.entities@[i as int], n));
            }
        }
        i = i + 1;
    }
    assert(sg.entities@.subrange(0, i as int) =~= sg.entities@);
    Subgraph {
        id: sg.id.clone(),
        label: clone_label(&sg.label),
        color: clone_color(&sg.color),
        fontcolor: clone_color(&sg.fontcolor),
        node_defaults: clone_node_defaults(&sg.node_defaults),
        entities,
    }
}

impl Clone for Entity {
    /// A copy that renders exactly as the original at every indentation.
    fn clone(&self) -> (r: Self)
        ensures
            forall|n: nat| entity_text(r, n) == entity_text(*self, n),
    {
        clone_entity(self)
    }
}

impl Clone for Subgraph {
    /// A copy with equal attributes whose children render exactly as the
    /// originals.
    fn clone(&self) -> (r: Self)
        ensures
            r.id == self.id,
            r.label == self.label,
            r.color == self.color,
            r.fontcolor == self.fontcolor,
            r.node_defaults == self.node_defaults,
            r.entities@.len() == self.entities@.len(),
            forall|n: nat| children_text(r.entities@, n) == children_text(self.entities@, n),
    {
        clone_subgraph(self)
    }
}

/// A directed edge from `source` to `target`.
#[derive(Debug)]
pub struct Edge {
    pub source: Id,
    pub target: Id,
    pub label: Option<Label>,
    pub color: Option<Color>,
    pub fontcolor: Option<Color>,
}

impl Clone for Edge {
    fn clone(&self) -> (r: Self)
        ensures
            r == *self,
    {
        Edge {
            source: self.source.clone(),
            target: self.target.clone(),
            label: clone_label(&self.label),
            color: clone_color(&self.color),
            fontcolor: clone_color(&self.fontcolor),
        }
    }
}

impl Default for Edge {
    /// An edge with empty endpoints, to be filled in before rendering, and no
    /// attributes.
    fn default() -> (r: Edge)
        ensures
            r.source@.len() == 0,
            r.target@.len() == 0,
            r.label is None,
            r.color is None,
            r.fontcolor is None,
    {
        proof {
            reveal_strlit("");
        }
        Edge { source: Id::new(""), target: Id::new(""), label: None, color: None, fontcolor: None }
    }
}

} // verus!
