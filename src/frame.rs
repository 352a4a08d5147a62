//! Which draw calls a frame issues.

use vstd::prelude::*;

use crate::object::Object;
use crate::shaders::{ShaderName, ShaderTable};
use crate::world::World;

verus! {

/// One indexed draw: the object at `object` in the world's list, drawn by
/// the program `shader`, over `index_count` triangle indices.
#[derive(Clone, Copy, PartialEq, Eq, Structural, Debug)]
pub struct DrawCall {
    pub object: usize,
    pub shader: ShaderName,
    pub index_count: usize,
}

/// The draw call of the object at `i` of `objects`.
pub open spec fn draw_of<V>(objects: Seq<Object<V>>, i: int) -> DrawCall {
    DrawCall {
        object: i as usize,
        shader: objects[i].shader(),
        index_count: objects[i].indices().len() as usize,
    }
}

/// One draw call for each object, in order.
pub open spec fn all_draws<V>(objects: Seq<Object<V>>) -> Seq<DrawCall> {
    Seq::new(objects.len(), |i: int| draw_of(objects, i))
}

/// Whether the program of a draw call is present in `shaders`.
pub open spec fn drawable<T>(shaders: Map<ShaderName, T>) -> spec_fn(DrawCall) -> bool {
    |d: DrawCall| shaders.contains_key(d.shader)
}

/// The draw calls of a frame: those of the objects whose program is present,
/// in the order of the objects.
pub open spec fn planned_draws<V, T>(objects: Seq<Object<V>>, shaders: Map<ShaderName, T>) -> Seq<DrawCall> {
    all_draws(objects).filter(drawable(shaders))
}

/// The draw calls to issue for one frame of `world` with the programs in
/// `shaders`. An object whose program is absent is skipped.
pub fn plan_frame<V, T>(world: &World<V>, shaders: &ShaderTable<T>) -> (r: Vec<DrawCall>)
    ensures
        r@ == planned_draws(world.objects(), shaders@),
{
    let objects = world.get_objects();
    let ghost objs = world.objects();
    let mut draws: Vec<DrawCall> = Vec::new();
    let mut i: usize = 0;
    while i < objects.len()
        invariant
            objects@ == objs,
            i <= objs.len(),
            draws@ == all_draws(objs).take(i as int).filter(drawable(shaders@)),
        decreases objs.len() - i,
    {
        let object = &objects[i];
        let d = DrawCall {
            object: i,
            shader: object.get_shader(),
            index_count: object.get_triangle_indices().len(),
        };
        proof {
            assert(all_draws(objs).take(i as int + 1) =~= all_draws(objs).take(i as int).push(d));
            all_draws(objs).take(i as int).lemma_filter_push(d, drawable(shaders@));
        }
        if shaders.contains(d.shader) {
            draws.push(d);
        }
        i = i + 1;
    }
    assert(all_draws(objs).take(objs.len() as int) =~= all_draws(objs));
    draws
}

/// An object whose program is absent from the table gets no draw call.
pub proof fn lemma_absent_shader_not_drawn<V, T>(
    objects: Seq<Object<V>>,
    shaders: Map<ShaderName, T>,
    i: int,
)
    requires
        objects.len() <= usize::MAX,
        0 <= i < objects.len(),
        !shaders.contains_key(objects[i].shader()),
    ensures
        forall|k: int|
            0 <= k < planned_draws(objects, shaders).len() ==> #[trigger] planned_draws(
                objects,
                shaders,
            )[k].object != i,
{
    let planned = planned_draws(objects, shaders);
    assert forall|k: int| 0 <= k < planned.len() implies #[trigger] planned[k].object != i by {
        all_draws(objects).lemma_filter_pred(drawable(shaders), k);
        assert(planned.contains(planned[k]));
        all_draws(objects).lemma_filter_contains_rev(drawable(shaders), planned[k]);
        let j = choose|j: int| 0 <= j < objects.len() && all_draws(objects)[j] == planned[k];
        if j != i {
            assert(draw_of(objects, j).object as int == j);
        }
    }
}

/// An object whose program is present gets exactly one draw call, with its
/// program and its whole triangle list.
pub proof fn lemma_present_shader_drawn<V, T>(
    objects: Seq<Object<V>>,
    shaders: Map<ShaderName, T>,
    i: int,
)
    requires
        0 <= i < objects.len(),
        shaders.contains_key(objects[i].shader()),
    ensures
        planned_draws(objects, shaders).contains(draw_of(objects, i)),
{
    all_draws(objects).lemma_filter_contains(drawable(shaders), i);
}

} // verus!
