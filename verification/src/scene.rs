//! Scene storage and the integrator's control decision.
//!
//! The scene is two equal-length parallel sequences: element `i`'s
//! material governs element `i`'s shape. The geometric and radiometric
//! payloads are generic, so the storage invariant is independent of the
//! floating-point types the renderer puts in it.

use vstd::prelude::*;

verus! {

/// A parallel collection of (shape, material) pairs, append-only after
/// construction.
pub struct Scene<S, M> {
    spheres: Vec<S>,
    materials: Vec<M>,
}

impl<S, M> Scene<S, M> {
    /// The shapes, in insertion order.
    pub closed spec fn shapes(&self) -> Seq<S> {
        self.spheres@
    }

    /// The materials, in insertion order; the material at index `i`
    /// governs the shape at index `i`.
    pub closed spec fn mats(&self) -> Seq<M> {
        self.materials@
    }

    /// The two parallel sequences pair up: equal lengths.
    pub open spec fn wf(&self) -> bool {
        self.shapes().len() == self.mats().len()
    }

    /// An empty scene.
    pub fn new() -> (s: Self)
        ensures
            s.wf(),
            s.shapes() == Seq::<S>::empty(),
            s.mats() == Seq::<M>::empty(),
    {
        Scene { spheres: Vec::new(), materials: Vec::new() }
    }

    /// Appends one shape together with the material that governs it;
    /// every earlier pair keeps its index.
    pub fn add(&mut self, sphere: S, material: M)
        requires
            old(self).wf(),
        ensures
            final(self).wf(),
            final(self).shapes() == old(self).shapes().push(sphere),
            final(self).mats() == old(self).mats().push(material),
    {
        self.spheres.push(sphere);
        self.materials.push(material);
    }

    /// How many (shape, material) pairs the scene holds.
    pub fn len(&self) -> (n: usize)
        ensures
            n == self.shapes().len(),
    {
        self.spheres.len()
    }

    /// The shape at index `i`.
    pub fn shape(&self, i: usize) -> (s: &S)
        requires
            i < self.shapes().len(),
        ensures
            *s == self.shapes()[i as int],
    {
        &self.spheres[i]
    }

    /// The material governing the shape at index `i`.
    pub fn material(&self, i: usize) -> (m: &M)
        requires
            self.wf(),
            i < self.shapes().len(),
        ensures
            *m == self.mats()[i as int],
    {
        &self.materials[i]
    }
}

/// What the integrator does with one ray, decided from the remaining
/// bounce budget and the nearest-hit scan.
#[derive(Clone, Copy, PartialEq, Eq, Structural)]
pub enum BounceStep {
    /// The bounce budget is spent: the ray contributes black.
    Absorbed,
    /// The ray hit nothing: it contributes the background gradient,
    /// tinted by its accumulated attenuation.
    Sky,
    /// The ray hit the shape at this index: scatter with the material of
    /// the same index and continue with one bounce less.
    Scatter(usize),
}

/// The integrator's control decision for one bounce.
///
/// A spent depth budget wins over everything; otherwise a miss yields the
/// background and a hit scatters with the owning material.
pub fn bounce_decision(depth: u32, hit: Option<usize>) -> (step: BounceStep)
    ensures
        depth == 0 ==> step == BounceStep::Absorbed,
        depth > 0 && hit is None ==> step == BounceStep::Sky,
        depth > 0 && hit is Some ==> step == BounceStep::Scatter(hit->0),
{
    if depth == 0 {
        BounceStep::Absorbed
    } else {
        match hit {
            None => BounceStep::Sky,
            Some(i) => BounceStep::Scatter(i),
        }
    }
}

} // verus!
