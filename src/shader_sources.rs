//! The GLSL source of each shader program.

use vstd::prelude::*;

use crate::shaders::{ShaderName, ShaderSource, UniformType, NUM_SHADERS};

verus! {

/// Vertex stage that passes positions through unchanged.
pub const PASS_THROUGH_VERTEX: &'static str = "attribute vec3 position;
void main() {
    gl_Position = vec4(position, 1);
}
";

/// Vertex stage that places positions with model, view and projection matrices.
pub const PERSPECTIVE_VERTEX: &'static str = "attribute vec3 position;
uniform mat4 model;
uniform mat4 view;
uniform mat4 projection;
void main() {
    gl_Position = projection * view * model * vec4(position, 1);
}
";

/// Fragment stage that paints every fragment orange.
pub const ORANGE_FRAGMENT: &'static str = "precision mediump float;
void main() {
    gl_FragColor = vec4(1, float(1) / float(2), 0, 1);
}
";

/// The source the program `name` is built from.
pub open spec fn spec_source_of(name: ShaderName) -> (Option<&'static str>, Option<&'static str>) {
    match name {
        ShaderName::Basic => (Some(PASS_THROUGH_VERTEX), Some(ORANGE_FRAGMENT)),
        ShaderName::Orange3d => (Some(PERSPECTIVE_VERTEX), Some(ORANGE_FRAGMENT)),
    }
}

/// The source of every shader program, the one of `name` at `name.index()`.
/// None declares uniforms beyond model, view and projection.
pub fn get_shader_sources() -> (r: Vec<ShaderSource>)
    ensures
        r@.len() == NUM_SHADERS,
        forall|n: ShaderName| #![trigger r@[n.slot() as int]]
            {
                let s = r@[n.slot() as int];
                &&& s.wf()
                &&& (s.vertex_shader, s.fragment_shader) == spec_source_of(n)
                &&& s.uniform_names@.len() == 0
            },
{
    let mut sources: Vec<ShaderSource> = Vec::new();
    sources.push(
        ShaderSource {
            vertex_shader: Some(PASS_THROUGH_VERTEX),
            fragment_shader: Some(ORANGE_FRAGMENT),
            uniform_names: Vec::new(),
            uniform_types: Vec::new(),
        },
    );
    sources.push(
        ShaderSource {
            vertex_shader: Some(PERSPECTIVE_VERTEX),
            fragment_shader: Some(ORANGE_FRAGMENT),
            uniform_names: Vec::new(),
            uniform_types: Vec::new(),
        },
    );
    sources
}

} // verus!
