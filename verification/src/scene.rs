//! The scene model: a rectangular grid size plus an ordered list of placed
//! circuit symbols. Pure data with a validity invariant; the renderer and the
//! pipeline borrow a scene read-only.

use vstd::prelude::*;
use vstd::string::*;

verus! {

/// The kind of circuit symbol a component draws. Closed set of tags; adding a
/// kind without a render template is a build-time error (exhaustive match).
#[derive(Debug, Clone, Copy, PartialEq, Eq, Structural)]
pub enum ComponentType {
    Nmos,
}

/// The display label of a component kind, as shown in a selection list.
pub open spec fn kind_label(k: ComponentType) -> Seq<char> {
    match k {
        ComponentType::Nmos => "nmos"@,
    }
}

/// The debug-style name of a component kind, as used in status messages.
pub open spec fn kind_name(k: ComponentType) -> Seq<char> {
    match k {
        ComponentType::Nmos => "Nmos"@,
    }
}

impl ComponentType {
    /// The lower-case label of this kind.
    pub fn label(&self) -> (r: String)
        ensures
            r@ == kind_label(*self),
    {
        match self {
            ComponentType::Nmos => String::from_str("nmos"),
        }
    }

    /// The capitalized tag name of this kind.
    pub fn name(&self) -> (r: String)
        ensures
            r@ == kind_name(*self),
    {
        match self {
            ComponentType::Nmos => String::from_str("Nmos"),
        }
    }
}

/// One symbol anchored at integer grid coordinates. Coordinates are
/// non-negative by type; duplicates and overlaps are permitted.
#[derive(Debug, Clone, Copy, PartialEq, Eq, Structural)]
pub struct PlacedComponent {
    pub kind: ComponentType,
    pub x: usize,
    pub y: usize,
}

/// A grid description plus the components placed on it, in insertion order.
#[derive(Debug, PartialEq)]
pub struct Scene {
    pub width: usize,
    pub height: usize,
    pub components: Vec<PlacedComponent>,
}

impl Scene {
    /// A scene is valid when both grid dimensions are positive.
    pub open spec fn wf(&self) -> bool {
        self.width > 0 && self.height > 0
    }

    /// Builds an empty scene with the given grid dimensions; rejects a grid
    /// with a zero dimension.
    pub fn new(width: usize, height: usize) -> (r: Option<Scene>)
        ensures
            r is Some <==> width > 0 && height > 0,
            r matches Some(s) ==> s.width == width && s.height == height && s.components@
                =~= Seq::<PlacedComponent>::empty() && s.wf(),
    {
        if width > 0 && height > 0 {
            Some(
                Scene {
                    width,
                    height,
                    components: Vec::new(),
                },
            )
        } else {
            None
        }
    }

    /// Appends one component; insertion order is preserved and later drives
    /// the order of draw instructions.
    pub fn add_component(&mut self, c: PlacedComponent)
        ensures
            final(self).width == old(self).width,
            final(self).height == old(self).height,
            final(self).components@ == old(self).components@.push(c),
    {
        self.components.push(c);
    }
}

/// An element-by-element copy of a component list.
pub fn clone_components(v: &Vec<PlacedComponent>) -> (r: Vec<PlacedComponent>)
    ensures
        r@ == v@,
{
    let mut r: Vec<PlacedComponent> = Vec::new();
    let mut i: usize = 0;
    while i < v.len()
        invariant
            i <= v@.len(),
            r@ == v@.take(i as int),
        decreases v@.len() - i,
    {
        r.push(v[i]);
        proof {
            assert(v@.take(i + 1) =~= v@.take(i as int).push(v@[i as int]));
        }
        i = i + 1;
    }
    proof {
        assert(v@.take(v@.len() as int) =~= v@);
    }
    r
}

} // verus!
