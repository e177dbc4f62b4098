//! A small real-time drawing framework: shape producers turn user descriptions
//! into validated geometry, a per-frame draw state collects that geometry, and a
//! host state machine decides, event by event, when to update, view and render.

use vstd::prelude::*;

pub mod app;
pub mod vertex;
pub mod geometry;
pub mod shapes;
pub mod draw;
pub mod surface;
pub mod host;

use crate::app::AppBuilder;

verus! {

/// Starts describing an application around a model constructor.
pub fn app<Mf, Uf, Vf>(model: Mf) -> (r: AppBuilder<Mf, Uf, Vf>)
    ensures
        r.parts() == (model, None::<Uf>, None::<Vf>, None::<crate::surface::SurfaceSize>, None::<String>),
{
    AppBuilder::app(model)
}

} // verus!
