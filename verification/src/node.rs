//! The render-graph node: whether a view is drawn in a frame, and with what.

use vstd::prelude::*;
use crate::view::{PrepassView, ShowPrepassBindGroup, Viewport};

verus! {

/// The number of vertices of the triangle that covers the screen.
pub const FULLSCREEN_VERTICES: u32 = 3;

/// The one draw of the overlay for a view: a color-only pass into the
/// view's post-processing target.
#[derive(Debug, Clone, Copy, PartialEq, Eq, Structural)]
pub struct DrawCall {
    /// The identifier of the pipeline to draw with.
    pub pipeline: usize,
    /// The bind group, bound at index 0.
    pub bind_group: ShowPrepassBindGroup,
    /// Where the view's uniform lies in the uniform buffer.
    pub dynamic_offset: u32,
    /// The camera's viewport, where it has one.
    pub viewport: Option<Viewport>,
    /// The vertices drawn, from 0 up to this number.
    pub vertices: u32,
    /// The instances drawn, from 0 up to this number.
    pub instances: u32,
}

/// The draw of a view in a frame: a view is drawn where it carries the mode
/// tag, a pipeline, a bind group and the place of its uniform, and its
/// pipeline is compiled; else it is not drawn.
pub open spec fn draw_of(view: PrepassView, pipeline_ready: bool) -> Option<DrawCall> {
    if view.show_prepass is Some && view.pipeline is Some && view.bind_group is Some
        && view.uniform_index is Some && pipeline_ready {
        Some(
            DrawCall {
                pipeline: view.pipeline.unwrap(),
                bind_group: view.bind_group.unwrap(),
                dynamic_offset: view.uniform_index.unwrap(),
                viewport: view.viewport,
                vertices: FULLSCREEN_VERTICES,
                instances: 1,
            },
        )
    } else {
        None
    }
}

/// The node of the overlay in the render graph. It runs after tonemapping
/// and before the post-processing that ends the main pass.
#[derive(Debug, Default, Clone, Copy)]
pub struct ShowPrepassNode;

impl ShowPrepassNode {
    /// Decides the draw of a view in this frame. `pipeline_ready` says
    /// whether the view's pipeline is compiled. A view that lacks any of
    /// what the draw needs is passed over without an error.
    pub fn run(&self, view: &PrepassView, pipeline_ready: bool) -> (draw: Option<DrawCall>)
        ensures
            draw == draw_of(*view, pipeline_ready),
    {
        if view.show_prepass.is_none() {
            return None;
        }
        let pipeline: usize = match view.pipeline {
            Some(pipeline) => pipeline,
            None => {
                return None;
            },
        };
        let bind_group = match view.bind_group {
            Some(bind_group) => bind_group,
            None => {
                return None;
            },
        };
        let dynamic_offset: u32 = match view.uniform_index {
            Some(index) => index,
            None => {
                return None;
            },
        };
        if !pipeline_ready {
            return None;
        }
        Some(
            DrawCall {
                pipeline,
                bind_group,
                dynamic_offset,
                viewport: view.viewport,
                vertices: FULLSCREEN_VERTICES,
                instances: 1,
            },
        )
    }
}

} // verus!
