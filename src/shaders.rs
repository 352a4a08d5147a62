//! Shader identities, sources, uniforms and the table of compiled programs.

use vstd::prelude::*;

verus! {

/// The kind of value that a uniform holds.
#[derive(Clone, Copy, PartialEq, Eq, Structural, Debug)]
pub enum UniformType {
    Mat4,
}

/// The shader programs this renderer knows. Each one owns a fixed slot of a
/// `ShaderTable`, so a lookup by name can only find a slot empty, never miss it.
#[derive(Clone, Copy, PartialEq, Eq, Structural, Debug)]
pub enum ShaderName {
    /// A flat pass-through program.
    Basic,
    /// A program that places vertices with model, view and projection matrices.
    Orange3d,
}

/// How many shader programs there are.
pub const NUM_SHADERS: usize = 2;

impl ShaderName {
    /// The slot of this program in a table of shader programs.
    pub open spec fn slot(self) -> nat {
        match self {
            ShaderName::Basic => 0,
            ShaderName::Orange3d => 1,
        }
    }

    /// The human-readable name of this program.
    pub open spec fn spec_label(self) -> Seq<char> {
        match self {
            ShaderName::Basic => "Basic bitch"@,
            ShaderName::Orange3d => "3d orange"@,
        }
    }

    /// The slot of this program in a table of shader programs.
    pub fn index(self) -> (r: usize)
        ensures
            r == self.slot(),
            r < NUM_SHADERS,
    {
        match self {
            ShaderName::Basic => 0,
            ShaderName::Orange3d => 1,
        }
    }

    /// The program that owns slot `i`, if there is one.
    pub fn from_index(i: usize) -> (r: Option<ShaderName>)
        ensures
            i < NUM_SHADERS <==> r is Some,
            r matches Some(n) ==> n.slot() == i,
    {
        if i == 0 {
            Some(ShaderName::Basic)
        } else if i == 1 {
            Some(ShaderName::Orange3d)
        } else {
            None
        }
    }

    /// The human-readable name of this program.
    pub fn label(self) -> (r: &'static str)
        ensures
            r@ == self.spec_label(),
    {
        match self {
            ShaderName::Basic => "Basic bitch",
            ShaderName::Orange3d => "3d orange",
        }
    }
}

/// Source code of one shader program, with the uniforms it declares beyond
/// the model, view and projection matrices that every program has.
pub struct ShaderSource {
    pub vertex_shader: Option<&'static str>,
    pub fragment_shader: Option<&'static str>,
    /// Names of the uniforms other than model, view and projection.
    pub uniform_names: Vec<&'static str>,
    /// Types of those uniforms, one for each name, in the same order.
    pub uniform_types: Vec<UniformType>,
}

impl ShaderSource {
    /// Each extra uniform name has its type.
    pub open spec fn wf(&self) -> bool {
        self.uniform_names@.len() == self.uniform_types@.len()
    }
}

/// Where a uniform of a linked program lives, and what it holds. `L` is the
/// graphics API's handle for a uniform location.
pub struct Uniform<L> {
    pub location: Option<L>,
    pub u_type: UniformType,
}

/// A linked program with its uniforms resolved. `P` is the graphics API's
/// program handle, `L` its uniform location handle.
pub struct CompiledShader<P, L> {
    /// Location of the model matrix.
    pub model_uniform: Uniform<L>,
    /// The linked program.
    pub program: P,
    /// Location of the projection matrix.
    pub projection_uniform: Uniform<L>,
    /// The program's other uniforms by name, in the order its source lists them.
    pub uniforms: Vec<(&'static str, Uniform<L>)>,
    /// Location of the view matrix.
    pub view_uniform: Uniform<L>,
}

impl<P, L> CompiledShader<P, L> {
    /// Puts a linked program together with the locations of its uniforms:
    /// `locations[i]` is where `source.uniform_names[i]` was found.
    pub fn new(
        program: P,
        model_location: Option<L>,
        view_location: Option<L>,
        projection_location: Option<L>,
        source: &ShaderSource,
        locations: Vec<Option<L>>,
    ) -> (r: Self)
        requires
            source.wf(),
            locations@.len() == source.uniform_names@.len(),
        ensures
            r.program == program,
            r.model_uniform == (Uniform { location: model_location, u_type: UniformType::Mat4 }),
            r.view_uniform == (Uniform { location: view_location, u_type: UniformType::Mat4 }),
            r.projection_uniform == (Uniform { location: projection_location, u_type: UniformType::Mat4 }),
            r.uniforms@.len() == source.uniform_names@.len(),
            forall|i: int|
                0 <= i < r.uniforms@.len() ==> #[trigger] r.uniforms@[i] == (
                source.uniform_names@[i],
                Uniform { location: locations@[i], u_type: source.uniform_types@[i] },
            ),
    {
        let n = locations.len();
        let mut rest = locations;
        let mut uniforms: Vec<(&'static str, Uniform<L>)> = Vec::new();
        let mut i: usize = 0;
        while i < n
            invariant
                n == source.uniform_names@.len(),
                n == locations@.len(),
                source.wf(),
                i <= n,
                rest@ == locations@.subrange(i as int, n as int),
                uniforms@.len() == i,
                forall|k: int|
                    0 <= k < i ==> #[trigger] uniforms@[k] == (
                    source.uniform_names@[k],
                    Uniform { location: locations@[k], u_type: source.uniform_types@[k] },
                ),
            decreases n - i,
        {
            let location = rest.remove(0);
            let uniform = Uniform { location, u_type: source.uniform_types[i] };
            uniforms.push((source.uniform_names[i], uniform));
            i = i + 1;
        }
        CompiledShader {
            model_uniform: Uniform { location: model_location, u_type: UniformType::Mat4 },
            program,
            projection_uniform: Uniform { location: projection_location, u_type: UniformType::Mat4 },
            uniforms,
            view_uniform: Uniform { location: view_location, u_type: UniformType::Mat4 },
        }
    }
}

/// The compiled programs of a session, one slot for each `ShaderName`. A slot
/// is empty where its program failed to build.
pub struct ShaderTable<T> {
    slots: Vec<Option<T>>,
}

impl<T> View for ShaderTable<T> {
    type V = Map<ShaderName, T>;

    /// The programs present, by name.
    closed spec fn view(&self) -> Map<ShaderName, T> {
        Map::new(
            |n: ShaderName| self.slots@[n.slot() as int] is Some,
            |n: ShaderName| self.slots@[n.slot() as int]->Some_0,
        )
    }
}

impl<T> ShaderTable<T> {
    /// There is exactly one slot for each name.
    #[verifier::type_invariant]
    closed spec fn wf(&self) -> bool {
        self.slots@.len() == NUM_SHADERS
    }

    /// A table with every slot empty.
    pub fn new() -> (r: Self)
        ensures
            r@ == Map::<ShaderName, T>::empty(),
    {
        let mut slots: Vec<Option<T>> = Vec::new();
        slots.push(None);
        slots.push(None);
        let r = ShaderTable { slots };
        assert(r@ =~= Map::<ShaderName, T>::empty());
        r
    }

    /// Puts `value` in the slot of `name`, replacing what was there.
    pub fn insert(&mut self, name: ShaderName, value: T)
        ensures
            final(self)@ == old(self)@.insert(name, value),
    {
        proof {
            use_type_invariant(&*self);
        }
        let i = name.index();
        self.slots[i] = Some(value);
        proof {
            lemma_slots_distinct(name, name);
            assert(self@ =~= old(self)@.insert(name, value)) by {
                assert forall|n: ShaderName| #![auto] n.slot() == name.slot() <==> n == name by {
                    lemma_slots_distinct(n, name);
                }
            }
        }
    }

    /// Whether the program `name` is present.
    pub fn contains(&self, name: ShaderName) -> (r: bool)
        ensures
            r == self@.contains_key(name),
    {
        proof {
            use_type_invariant(self);
        }
        self.slots[name.index()].is_some()
    }

    /// The program `name`, if it is present.
    pub fn get(&self, name: ShaderName) -> (r: Option<&T>)
        ensures
            r is Some == self@.contains_key(name),
            r matches Some(v) ==> *v == self@[name],
    {
        proof {
            use_type_invariant(self);
        }
        match &self.slots[name.index()] {
            Some(v) => Some(v),
            None => None,
        }
    }

    /// Gathers the outcome of building each program, where `results[i]` is
    /// that of the program in slot `i`: the programs that built are present,
    /// the others absent.
    pub fn from_build_results(results: Vec<Result<T, String>>) -> (r: Self)
        requires
            results@.len() == NUM_SHADERS,
        ensures
            forall|n: ShaderName| #[trigger]
                r@.contains_key(n) <==> results@[n.slot() as int] is Ok,
            forall|n: ShaderName|
                r@.contains_key(n) ==> #[trigger] r@[n] == results@[n.slot() as int]->Ok_0,
    {
        let mut rest = results;
        let mut slots: Vec<Option<T>> = Vec::new();
        let mut i: usize = 0;
        while i < NUM_SHADERS
            invariant
                results@.len() == NUM_SHADERS,
                i <= NUM_SHADERS,
                rest@ == results@.subrange(i as int, NUM_SHADERS as int),
                slots@.len() == i,
                forall|k: int|
                    0 <= k < i ==> (#[trigger] slots@[k] is Some <==> results@[k] is Ok),
                forall|k: int|
                    0 <= k < i && slots@[k] is Some ==> #[trigger] slots@[k]->Some_0
                        == results@[k]->Ok_0,
            decreases NUM_SHADERS - i,
        {
            match rest.remove(0) {
                Ok(program) => slots.push(Some(program)),
                Err(_) => slots.push(None),
            }
            i = i + 1;
        }
        ShaderTable { slots }
    }
}

/// Every name owns a distinct slot below `NUM_SHADERS`.
pub proof fn lemma_slots_distinct(a: ShaderName, b: ShaderName)
    ensures
        a.slot() < NUM_SHADERS,
        a.slot() == b.slot() <==> a == b,
{
}

} // verus!
