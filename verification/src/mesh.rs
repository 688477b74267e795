//! Mesh data model: interleaved vertex scalars, triangle indices and the
//! attribute layout, plus whether the backend has uploaded the buffers yet.

use vstd::prelude::*;
use crate::vertex::Vertex;

verus! {

/// One drawable mesh.
#[derive(Debug)]
pub struct Mesh<S> {
    pub vertex: Vertex<S>,
    pub is_loaded: bool,
}

impl<S> Mesh<S> {
    pub fn new(vertex: Vertex<S>) -> (r: Self)
        ensures
            r.vertex == vertex,
            !r.is_loaded,
    {
        Mesh { vertex, is_loaded: false }
    }
}

} // verus!
