//! Objects of a scene and the nodes they are made of.

use vstd::prelude::*;
use crate::vertex::Vertex;
use crate::LocalizedStringMap;

verus! {

/// A named set of vertices.
#[derive(Clone, Debug, PartialEq, Eq)]
pub struct Node<P, C> {
    pub name: LocalizedStringMap,
    pub vertices: Vec<Vertex<P, C>>,
}

/// A named set of nodes.
#[derive(Clone, Debug, PartialEq, Eq)]
pub struct Object<P, C> {
    pub name: LocalizedStringMap,
    pub nodes: Vec<Node<P, C>>,
}

} // verus!
