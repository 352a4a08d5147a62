//! Renderable objects: a triangle mesh and the shader program that draws it.

use vstd::prelude::*;

use crate::shaders::ShaderName;

verus! {

/// Whether `indices` is a list of triangles over `component_count` vertex
/// components stored as flat triples `[x0, y0, z0, x1, y1, z1, ...]`: whole
/// triples on both sides, and every index names a vertex that exists.
pub open spec fn mesh_valid(indices: Seq<u8>, component_count: nat) -> bool {
    &&& component_count % 3 == 0
    &&& indices.len() % 3 == 0
    &&& forall|k: int| 0 <= k < indices.len() ==> 3 * (#[trigger] indices[k]) < component_count
}

/// Something that can be drawn: its vertices, the triangles over them, and the
/// program that draws it. `V` is the type of one vertex component.
pub struct Object<V> {
    shader: ShaderName,
    triangle_indices: Vec<u8>,
    vertices: Vec<V>,
}

impl<V> Object<V> {
    /// The program that draws this object.
    pub closed spec fn shader(&self) -> ShaderName {
        self.shader
    }

    /// The triangle list, three vertex indices per triangle.
    pub closed spec fn indices(&self) -> Seq<u8> {
        self.triangle_indices@
    }

    /// The vertex components, three per vertex.
    pub closed spec fn components(&self) -> Seq<V> {
        self.vertices@
    }

    /// Every index of the triangle list names a vertex of this object.
    pub open spec fn wf(&self) -> bool {
        mesh_valid(self.indices(), self.components().len())
    }

    /// Whether `triangle_indices` is a valid triangle list over
    /// `component_count` vertex components.
    pub fn is_valid_mesh(triangle_indices: &Vec<u8>, component_count: usize) -> (r: bool)
        ensures
            r == mesh_valid(triangle_indices@, component_count as nat),
    {
        if component_count % 3 != 0 || triangle_indices.len() % 3 != 0 {
            return false;
        }
        let vertex_count = component_count / 3;
        let mut i: usize = 0;
        while i < triangle_indices.len()
            invariant
                i <= triangle_indices@.len(),
                vertex_count == component_count / 3,
                component_count % 3 == 0,
                forall|k: int| 0 <= k < i ==> 3 * (#[trigger] triangle_indices@[k]) < component_count,
            decreases triangle_indices@.len() - i,
        {
            if triangle_indices[i] as usize >= vertex_count {
                return false;
            }
            i = i + 1;
        }
        true
    }

    /// Creates an object from its program, triangle list and vertex components.
    pub fn new(shader_name: ShaderName, triangle_indices: Vec<u8>, vertices: Vec<V>) -> (r: Self)
        requires
            mesh_valid(triangle_indices@, vertices@.len()),
        ensures
            r.wf(),
            r.shader() == shader_name,
            r.indices() == triangle_indices@,
            r.components() == vertices@,
    {
        Object { shader: shader_name, triangle_indices, vertices }
    }

    /// The program that draws this object.
    pub fn get_shader(&self) -> (r: ShaderName)
        ensures
            r == self.shader(),
    {
        self.shader
    }

    /// The human-readable name of the program that draws this object.
    pub fn get_shader_name(&self) -> (r: &'static str)
        ensures
            r@ == self.shader().spec_label(),
    {
        self.shader.label()
    }

    /// The triangle list, three vertex indices per triangle.
    pub fn get_triangle_indices(&self) -> (r: &Vec<u8>)
        ensures
            r@ == self.indices(),
    {
        &self.triangle_indices
    }

    /// The vertex components, stored as `[x0, y0, z0, x1, y1, z1, ...]`.
    pub fn get_vertices(&self) -> (r: &Vec<V>)
        ensures
            r@ == self.components(),
    {
        &self.vertices
    }
}

} // verus!
