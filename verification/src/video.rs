//! Plain data shared with the rendering side: the choice of backend and the
//! description of a vertex-attribute component.

use vstd::prelude::*;

verus! {

/// The rendering backends a window can be driven by.
#[derive(Clone, Copy)]
pub enum VideoBackendType {
    OpenGL,
}

/// One vertex-attribute component of a vertex array: how many consecutive
/// values belong to it, and the name it is bound under in the shader.
pub struct VertexArrayComponentCreateInfo {
    pub num_elem: usize,
    pub name: String,
}

} // verus!
