//! The names by which a shader program and this library know each other.
//!
//! A program that an object is built on declares one vertex attribute and two
//! uniforms under exactly these names; the match is case-sensitive.

use vstd::prelude::*;

verus! {

/// Name of the attribute that receives the vertex positions.
pub const VERTEX_POSITION: &'static str = "aVertexPosition";

/// Name of the uniform that receives the projection matrix.
pub const PROJECTION_MATRIX: &'static str = "uProjectionMatrix";

/// Name of the uniform that receives the model-view matrix.
pub const MODEL_VIEW_MATRIX: &'static str = "uModelViewMatrix";

/// The vertex attributes of the program.
#[derive(Clone, Copy, Debug, PartialEq, Eq, Structural)]
pub enum Attribute {
    VertexPosition,
}

/// The uniforms of the program. Both are required.
#[derive(Clone, Copy, Debug, PartialEq, Eq, Structural)]
pub enum Uniform {
    ProjectionMatrix,
    ModelViewMatrix,
}

impl Attribute {
    /// The name under which the program declares this attribute.
    pub open spec fn spec_name(self) -> Seq<char> {
        match self {
            Attribute::VertexPosition => "aVertexPosition"@,
        }
    }

    /// The name under which the program declares this attribute.
    pub fn name(self) -> (name: &'static str)
        ensures
            name@ == self.spec_name(),
    {
        match self {
            Attribute::VertexPosition => VERTEX_POSITION,
        }
    }
}

impl Uniform {
    /// The name under which the program declares this uniform.
    pub open spec fn spec_name(self) -> Seq<char> {
        match self {
            Uniform::ProjectionMatrix => "uProjectionMatrix"@,
            Uniform::ModelViewMatrix => "uModelViewMatrix"@,
        }
    }

    /// The name under which the program declares this uniform.
    pub fn name(self) -> (name: &'static str)
        ensures
            name@ == self.spec_name(),
    {
        match self {
            Uniform::ProjectionMatrix => PROJECTION_MATRIX,
            Uniform::ModelViewMatrix => MODEL_VIEW_MATRIX,
        }
    }
}

} // verus!
