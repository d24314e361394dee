//! Vertices and faces of a scene.

use vstd::prelude::*;
use crate::color::Color;
use crate::vector::{Vector2, Vector3, Vector4};

verus! {

/// A vertex with positions of type `P` and color channels of type `C`.
#[derive(Clone, Copy, Debug, PartialEq, Eq)]
pub struct Vertex<P, C> {
    pub position: Vector3<P>,
    pub normals: [Vector3<P>; 2],
    pub uv: Vector2<P>,
    pub color: Color<C>,
}

/// A face: the positions of its corners among the vertices of its node.
#[derive(Clone, Debug, PartialEq, Eq)]
pub enum Face {
    Triangle(Vector3<u32>),
    Quad(Vector4<u32>),
    Ngon(Vec<u32>),
}

impl Face {
    /// The corners of the face in order.
    pub open spec fn spec_corners(&self) -> Seq<u32> {
        match self {
            Face::Triangle(v) => seq![v.x, v.y, v.z],
            Face::Quad(v) => seq![v.x, v.y, v.z, v.w],
            Face::Ngon(v) => v@,
        }
    }

    /// Whether every corner is a position among `count` vertices.
    pub open spec fn spec_in_bounds(&self, count: u32) -> bool {
        forall|i: int| 0 <= i < self.spec_corners().len() ==> self.spec_corners()[i] < count
    }

    /// The number of corners.
    pub fn corner_count(&self) -> (n: usize)
        ensures
            n == self.spec_corners().len(),
    {
        match self {
            Face::Triangle(_) => 3,
            Face::Quad(_) => 4,
            Face::Ngon(v) => v.len(),
        }
    }

    /// Whether every corner is a position among `count` vertices.
    #[verifier::when_used_as_spec(spec_in_bounds)]
    pub fn in_bounds(&self, count: u32) -> (r: bool)
        ensures
            r == self.spec_in_bounds(count),
    {
        let ghost corners = self.spec_corners();
        match self {
            Face::Triangle(v) => {
                assert(corners[0] == v.x && corners[1] == v.y && corners[2] == v.z);
                v.x < count && v.y < count && v.z < count
            },
            Face::Quad(v) => {
                assert(corners[0] == v.x && corners[1] == v.y && corners[2] == v.z && corners[3]
                    == v.w);
                v.x < count && v.y < count && v.z < count && v.w < count
            },
            Face::Ngon(v) => {
                let mut i: usize = 0;
                while i < v.len()
                    invariant
                        i <= v@.len(),
                        corners == v@,
                        corners == self.spec_corners(),
                        forall|k: int| 0 <= k < i ==> corners[k] < count,
                    decreases v@.len() - i,
                {
                    if v[i] >= count {
                        assert(corners[i as int] >= count);
                        return false;
                    }
                    i = i + 1;
                }
                true
            },
        }
    }
}

} // verus!
