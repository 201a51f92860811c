//! Names of the drawing layers that the beam outline and the rebar go on.
use vstd::prelude::*;
use vstd::string::*;

verus! {

/// The layer that the concrete outline goes on when none is named.
pub const DEFAULT_CONCRETE_LAYER: &'static str = "RC大梁";

/// The layer that the rebar goes on when none is named.
pub const DEFAULT_REBAR_LAYER: &'static str = "RC鉄筋";

/// A layer name as written in the document, resolved: the given text, or the
/// fallback.
pub open spec fn label_or(name: Option<String>, fallback: Seq<char>) -> Seq<char> {
    match name {
        Some(s) => s@,
        None => fallback,
    }
}

/// A copy of an optional name, equal to the original.
pub(crate) fn copy_label(name: &Option<String>) -> (r: Option<String>)
    ensures
        r == *name,
{
    match name {
        Some(s) => Some(s.clone()),
        None => None,
    }
}

/// Layer names as read from the `layer_name` table; an absent key is `None`.
#[derive(Clone, Debug, PartialEq, Eq, Default)]
pub struct LayerName {
    pub concrete: Option<String>,
    pub rebar: Option<String>,
}

impl LayerName {
    /// The table with neither key given: both names resolve to their fallbacks.
    pub open spec fn spec_unset() -> LayerName {
        LayerName { concrete: None, rebar: None }
    }

    pub open spec fn spec_concrete(&self) -> Seq<char> {
        label_or(self.concrete, DEFAULT_CONCRETE_LAYER@)
    }

    pub open spec fn spec_rebar(&self) -> Seq<char> {
        label_or(self.rebar, DEFAULT_REBAR_LAYER@)
    }

    /// A table with neither key given.
    pub fn unset() -> (r: LayerName)
        ensures
            r == LayerName::spec_unset(),
    {
        LayerName { concrete: None, rebar: None }
    }

    /// A copy equal to `self`.
    pub(crate) fn duplicate(&self) -> (r: LayerName)
        ensures
            r == *self,
    {
        LayerName { concrete: copy_label(&self.concrete), rebar: copy_label(&self.rebar) }
    }

    /// The layer for the concrete outline.
    pub fn concrete(&self) -> (r: String)
        ensures
            r@ == self.spec_concrete(),
    {
        match &self.concrete {
            Some(s) => s.clone(),
            None => String::from_str(DEFAULT_CONCRETE_LAYER),
        }
    }

    /// The layer for the rebar.
    pub fn rebar(&self) -> (r: String)
        ensures
            r@ == self.spec_rebar(),
    {
        match &self.rebar {
            Some(s) => s.clone(),
            None => String::from_str(DEFAULT_REBAR_LAYER),
        }
    }
}

/// The two names resolve independently: a given name is kept as written, and
/// an omitted one falls back to its default whatever the other holds.
pub proof fn lemma_labels_resolve_independently(l: LayerName)
    ensures
        l.concrete is Some ==> l.spec_concrete() == l.concrete->0@,
        l.concrete is None ==> l.spec_concrete() == DEFAULT_CONCRETE_LAYER@,
        l.rebar is Some ==> l.spec_rebar() == l.rebar->0@,
        l.rebar is None ==> l.spec_rebar() == DEFAULT_REBAR_LAYER@,
{
}

} // verus!
