use vstd::prelude::*;

verus! {

/// The erased view under which a value travels.
#[derive(Clone, Copy, Debug, PartialEq, Eq, Structural)]
pub enum Capability {
    /// Any introspectable value: the most general view, from which downcast is available.
    Introspect,
    /// A value that can be formatted for display.
    Display,
    /// A value that can be formatted for debugging.
    Debug,
    /// An error-like value: displayable and debuggable.
    Error,
}

/// `from` can be viewed as `to` without loss: every view weakens to itself and
/// to `Introspect`, and an error-like view weakens to displayable and debuggable.
pub open spec fn weakens_to(from: Capability, to: Capability) -> bool {
    from == to || to == Capability::Introspect || (from == Capability::Error && (to
        == Capability::Display || to == Capability::Debug))
}

impl Capability {
    /// Whether a box under `self` may be viewed as `to`.
    pub fn weakens_to(self, to: Capability) -> (r: bool)
        ensures
            r == weakens_to(self, to),
    {
        match (self, to) {
            (_, Capability::Introspect) => true,
            (Capability::Error, Capability::Display) => true,
            (Capability::Error, Capability::Debug) => true,
            _ => self == to,
        }
    }
}

/// Weakening is a partial order: reflexive, transitive, and never leads back
/// up from a weaker interface to a distinct stronger one.
pub proof fn lemma_weakening_order(a: Capability, b: Capability, c: Capability)
    ensures
        weakens_to(a, a),
        weakens_to(a, b) && weakens_to(b, c) ==> weakens_to(a, c),
        weakens_to(a, b) && weakens_to(b, a) ==> a == b,
{
}

} // verus!
