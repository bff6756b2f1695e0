//! Values that configure how objects are presented.
use vstd::prelude::*;

verus! {

/// Text to display on or next to an object.
#[derive(Debug)]
pub struct Label(pub String);

/// An HTML color name.
#[derive(Debug)]
pub struct Color(pub String);

/// Default values applied to every vertex of a subgraph through a
/// `node [...]` statement.
#[derive(Debug, Default)]
pub struct NodeDefaults {
    pub color: Option<Color>,
    pub fontcolor: Option<Color>,
}

impl Clone for Label {
    fn clone(&self) -> (r: Self)
        ensures
            r == *self,
    {
        Label(self.0.clone())
    }
}

impl Clone for Color {
    fn clone(&self) -> (r: Self)
        ensures
            r == *self,
    {
        Color(self.0.clone())
    }
}

impl Clone for NodeDefaults {
    fn clone(&self) -> (r: Self)
        ensures
            r == *self,
    {
        NodeDefaults { color: clone_color(&self.color), fontcolor: clone_color(&self.fontcolor) }
    }
}

/// Copies an optional label.
pub(crate) fn clone_label(label: &Option<Label>) -> (r: Option<Label>)
    ensures
        r == *label,
{
    match label {
        Some(l) => Some(l.clone()),
        None => None,
    }
}

/// Copies an optional color.
pub(crate) fn clone_color(color: &Option<Color>) -> (r: Option<Color>)
    ensures
        r == *color,
{
    match color {
        Some(c) => Some(c.clone()),
        None => None,
    }
}

/// Copies optional node defaults.
pub(crate) fn clone_node_defaults(defaults: &Option<NodeDefaults>) -> (r: Option<NodeDefaults>)
    ensures
        r == *defaults,
{
    match defaults {
        Some(d) => Some(d.clone()),
        None => None,
    }
}

} // verus!
