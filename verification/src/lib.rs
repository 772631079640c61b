//! Logic of a minimal one-triangle renderer.
//!
//! The library models the decisions a small WebGL2 demo makes: which fixed
//! configuration it renders (canvas size, attribute layout, index data), how
//! a material pairs attribute names with the locations the graphics API
//! assigned, which vertex buffers a draw call binds and where, and which
//! error string each failing graphics call surfaces. The graphics calls
//! themselves live in the embedding shell; they hand this library plain
//! values and execute the plans it returns.

use vstd::prelude::*;

pub mod webgl;

verus! {

use crate::webgl::{Renderer, Material, Geometry, VertexBinding, plan_spec};

/// The application: a renderer, a material and a geometry, drawn together.
pub struct App {
    pub renderer: Renderer,
    pub material: Material,
    pub geometry: Geometry,
}

impl App {
    /// The width, in pixels, the canvas is set to.
    pub fn canvas_width() -> (w: u32)
        ensures
            w == 800,
    {
        800
    }

    /// The height, in pixels, the canvas is set to.
    pub fn canvas_height() -> (h: u32)
        ensures
            h == 600,
    {
        600
    }

    /// The fixed attribute layout: a two-component position and a
    /// three-component color per vertex.
    pub fn attribute_sizes() -> (v: Vec<(String, u8)>)
        ensures
            v@.len() == 2,
            v@[0].0@ == "position"@,
            v@[0].1 == 2,
            v@[1].0@ == "color"@,
            v@[1].1 == 3,
    {
        let mut v: Vec<(String, u8)> = Vec::new();
        v.push(("position".to_owned(), 2));
        v.push(("color".to_owned(), 3));
        v
    }

    /// The fixed index data: one triangle over the three vertices.
    pub fn index_data() -> (v: Vec<u8>)
        ensures
            v@ =~= seq![0u8, 1u8, 2u8],
    {
        let mut v: Vec<u8> = Vec::new();
        v.push(0);
        v.push(1);
        v.push(2);
        v
    }

    /// Assembles the application from its three parts.
    pub fn new(renderer: Renderer, material: Material, geometry: Geometry) -> (a: App)
        ensures
            a.renderer == renderer,
            a.material == material,
            a.geometry == geometry,
    {
        App { renderer, material, geometry }
    }

    /// Plans one frame: the bindings the draw call makes for this
    /// application's material and geometry.
    pub fn render(&self) -> (plan: Vec<VertexBinding>)
        ensures
            plan@ == plan_spec(self.geometry.names(), self.material.attrs()),
            forall|k: int|
                0 <= k < plan@.len() ==> (#[trigger] plan@[k]).buffer_index
                    < self.geometry.names().len(),
    {
        self.renderer.draw(&self.material, &self.geometry)
    }
}

} // verus!
