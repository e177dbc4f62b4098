use vstd::prelude::*;

use crate::geometry::{Geometry, GeometryType, GeometryView};
use crate::shapes::Draw;

verus! {

/// A clear colour: red, green and blue as the bit patterns of `f64` values
/// (`f64::to_bits`). Alpha is always one.
#[derive(Clone, Copy, Debug, PartialEq, Eq, Structural)]
pub struct Color {
    pub r: u64,
    pub g: u64,
    pub b: u64,
}

impl Color {
    pub fn new(r: u64, g: u64, b: u64) -> (c: Color)
        ensures
            c == (Color { r, g, b }),
    {
        Color { r, g, b }
    }
}

/// What a draw state holds: the clear colour and the geometries in draw order.
pub type DrawStateView = (Color, Seq<GeometryView>);

/// One indexed draw of a frame: geometry `geometry` of the draw state, with the
/// pipeline of its technique, indices `0 .. index_count` and instances
/// `0 .. instance_count`.
#[derive(Clone, Copy, Debug, PartialEq, Eq, Structural)]
pub struct DrawCall {
    pub geometry: usize,
    pub pipeline: GeometryType,
    pub index_count: u32,
    pub instance_count: u32,
}

/// The draw call for geometry `i` of a frame holding `geometries`.
pub open spec fn draw_call_for(geometries: Seq<GeometryView>, i: int) -> DrawCall {
    DrawCall {
        geometry: i as usize,
        pipeline: geometries[i].0,
        index_count: geometries[i].2.len() as u32,
        instance_count: geometries.len() as u32,
    }
}

/// The scene description of one frame: a clear colour and the geometries to
/// draw over it, in order. Every geometry is drawn with as many instances as
/// there are geometries.
pub struct DrawState {
    background_color: Color,
    geometry_list: Vec<Geometry>,
    instance_count: u32,
}

impl View for DrawState {
    type V = DrawStateView;

    closed spec fn view(&self) -> DrawStateView {
        (self.background_color, self.geometry_list@.map_values(|g: Geometry| g@))
    }
}

impl DrawState {
    #[verifier::type_invariant]
    spec fn inv(&self) -> bool {
        &&& self.geometry_list@.len() <= u32::MAX
        &&& self.instance_count == self.geometry_list@.len()
    }

    /// An empty frame that clears to `background_color`.
    pub fn new(background_color: Color) -> (r: DrawState)
        ensures
            r@ == (background_color, Seq::<GeometryView>::empty()),
    {
        let geometry_list: Vec<Geometry> = Vec::new();
        let r = DrawState { background_color, geometry_list, instance_count: 0 };
        assert(r@.1 =~= Seq::<GeometryView>::empty());
        r
    }

    /// Appends a geometry to the frame.
    pub fn add_geometry(&mut self, geometry: Geometry)
        requires
            old(self)@.1.len() < u32::MAX,
        ensures
            final(self)@ == (old(self)@.0, old(self)@.1.push(geometry@)),
    {
        proof {
            use_type_invariant(&*self);
        }
        let mut taken = DrawState::new(self.background_color);
        std::mem::swap(self, &mut taken);
        let DrawState { background_color, mut geometry_list, instance_count: _ } = taken;
        let ghost before = geometry_list@;
        geometry_list.push(geometry);
        let instance_count = geometry_list.len() as u32;
        proof {
            assert(geometry_list@.map_values(|g: Geometry| g@) =~= before.map_values(
                |g: Geometry| g@,
            ).push(geometry@));
        }
        *self = DrawState { background_color, geometry_list, instance_count };
    }

    /// Asks `object` for its geometry and appends it to the frame.
    pub fn add<T: Draw>(&mut self, object: &T)
        requires
            old(self)@.1.len() < u32::MAX,
        ensures
            final(self)@ == (old(self)@.0, old(self)@.1.push(object.drawn())),
    {
        let geometry = object.draw();
        self.add_geometry(geometry);
    }

    /// Replaces the clear colour; the geometries stay.
    pub fn update_background_color(&mut self, color: Color)
        ensures
            final(self)@ == (color, old(self)@.1),
    {
        proof {
            use_type_invariant(&*self);
        }
        let mut taken = DrawState::new(color);
        std::mem::swap(self, &mut taken);
        let DrawState { background_color: _, geometry_list, instance_count } = taken;
        *self = DrawState { background_color: color, geometry_list, instance_count };
    }

    pub fn background_color(&self) -> (r: Color)
        ensures
            r == self@.0,
    {
        self.background_color
    }

    /// The geometries, in the order they were added.
    pub fn geometry_list(&self) -> (r: &Vec<Geometry>)
        ensures
            r@.map_values(|g: Geometry| g@) == self@.1,
    {
        &self.geometry_list
    }

    /// The number of instances each geometry is drawn with: the number of
    /// geometries in the frame.
    pub fn instance_count(&self) -> (r: u32)
        ensures
            r == self@.1.len(),
    {
        proof {
            use_type_invariant(self);
        }
        self.instance_count
    }

    /// The frame's draw calls, one per geometry and in the same order.
    pub fn draw_calls(&self) -> (r: Vec<DrawCall>)
        ensures
            r@.len() == self@.1.len(),
            forall|i: int| 0 <= i < r@.len() ==> #[trigger] r@[i] == draw_call_for(self@.1, i),
    {
        proof {
            use_type_invariant(self);
        }
        let mut calls: Vec<DrawCall> = Vec::new();
        let mut i: usize = 0;
        while i < self.geometry_list.len()
            invariant
                i <= self.geometry_list@.len(),
                self.instance_count == self.geometry_list@.len(),
                calls@.len() == i,
                forall|k: int| 0 <= k < i ==> #[trigger] calls@[k] == draw_call_for(self@.1, k),
            decreases self.geometry_list@.len() - i,
        {
            let g = &self.geometry_list[i];
            let call = DrawCall {
                geometry: i,
                pipeline: g.geometry_type(),
                index_count: g.num_indices(),
                instance_count: self.instance_count,
            };
            calls.push(call);
            i += 1;
        }
        calls
    }
}

} // verus!
