//! Vertical layout anchors and the constraints built from them.
//!
//! An anchor stands for one vertical attribute of a view — a top, a
//! bottom, a centre — and a constraint relates two anchors. The native
//! layout solver owns the mathematics; the bridge's part is only to
//! pair the anchors up under the right relation, and to refuse to build
//! a constraint from an anchor that was never initialised.

use vstd::prelude::*;

verus! {

/// How a constraint relates its two anchors.
#[derive(Clone, Copy, PartialEq, Eq, Structural, Debug)]
pub enum AnchorRelation {
    /// The anchors are equal.
    Equal,
    /// The first anchor is at least the second.
    GreaterOrEqual,
    /// The first anchor is at most the second.
    LessOrEqual,
}

/// A constraint between two vertical anchors, ready to hand to the
/// native layout solver.
#[derive(Clone, Copy, PartialEq, Eq, Structural, Debug)]
pub struct LayoutConstraint {
    /// The handle of the native anchor the constraint starts from.
    pub first: u64,
    /// The handle of the native anchor the constraint relates to.
    pub second: u64,
    /// How the two anchors are related.
    pub relation: AnchorRelation,
}

/// A vertical layout anchor: a factory for constraints along the
/// vertical axis. It wraps the handle of a native anchor object, or
/// nothing at all while the owning view is not yet part of a window.
#[derive(Clone, Debug)]
pub struct LayoutAnchorY(pub Option<u64>);

impl Default for LayoutAnchorY {
    /// An uninitialised anchor: no native anchor object behind it yet.
    fn default() -> (r: LayoutAnchorY)
        ensures
            r.0 is None,
    {
        LayoutAnchorY(None)
    }
}

impl LayoutAnchorY {
    /// Wraps the handle of an existing native anchor object.
    pub fn new(object: u64) -> (r: LayoutAnchorY)
        ensures
            r.0 == Some(object),
    {
        LayoutAnchorY(Some(object))
    }

    /// A constraint pinning this anchor equal to another. Both anchors
    /// must be initialised.
    pub fn constraint_equal_to(&self, anchor_to: &LayoutAnchorY) -> (r: LayoutConstraint)
        requires
            self.0 is Some,
            anchor_to.0 is Some,
        ensures
            r.first == self.0.unwrap(),
            r.second == anchor_to.0.unwrap(),
            r.relation == AnchorRelation::Equal,
    {
        match (&self.0, &anchor_to.0) {
            (Some(from), Some(to)) => LayoutConstraint {
                first: *from,
                second: *to,
                relation: AnchorRelation::Equal,
            },
            _ => unreached(),
        }
    }

    /// A constraint keeping this anchor at or below another. Both
    /// anchors must be initialised.
    pub fn constraint_greater_than_or_equal_to(&self, anchor_to: &LayoutAnchorY) -> (r:
        LayoutConstraint)
        requires
            self.0 is Some,
            anchor_to.0 is Some,
        ensures
            r.first == self.0.unwrap(),
            r.second == anchor_to.0.unwrap(),
            r.relation == AnchorRelation::GreaterOrEqual,
    {
        match (&self.0, &anchor_to.0) {
            (Some(from), Some(to)) => LayoutConstraint {
                first: *from,
                second: *to,
                relation: AnchorRelation::GreaterOrEqual,
            },
            _ => unreached(),
        }
    }

    /// A constraint keeping this anchor at or above another. Both
    /// anchors must be initialised.
    pub fn constraint_less_than_or_equal_to(&self, anchor_to: &LayoutAnchorY) -> (r:
        LayoutConstraint)
        requires
            self.0 is Some,
            anchor_to.0 is Some,
        ensures
            r.first == self.0.unwrap(),
            r.second == anchor_to.0.unwrap(),
            r.relation == AnchorRelation::LessOrEqual,
    {
        match (&self.0, &anchor_to.0) {
            (Some(from), Some(to)) => LayoutConstraint {
                first: *from,
                second: *to,
                relation: AnchorRelation::LessOrEqual,
            },
            _ => unreached(),
        }
    }
}

} // verus!
