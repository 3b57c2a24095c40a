//! A view as the overlay sees it: what the host hands over for a camera and
//! what the overlay's stages attach to it frame by frame.

use vstd::prelude::*;
use crate::key::{ShowPrepassPipelineKey, ShowPrepassPipelineLayoutKey};
use crate::layout::{layout_of, PrepassLayout, ShowPrepassPipeline, TEXTURE_BINDING, UNIFORM_BINDING};
use crate::mode::{depth_power_bits, ShowPrepass, ShowPrepassDepthPower, ONE_BITS};

verus! {

/// The uniform that the fragment shader reads. Both numbers are held as
/// IEEE 754 single-precision bit patterns.
#[derive(Debug, Clone, Copy, PartialEq, Eq, Structural)]
pub struct ShowPrepassUniform {
    pub depth_power: u32,
    pub delta_time: u32,
}

/// The prepass textures of a view, each by the identifier of its texture
/// view, present where the camera ran that prepass.
#[derive(Debug, Clone, Copy, PartialEq, Eq, Structural)]
pub struct ViewPrepassTextures {
    pub depth: Option<u64>,
    pub normal: Option<u64>,
    pub motion_vectors: Option<u64>,
}

/// The part of the target that a camera draws into. The depth range is held
/// as two IEEE 754 single-precision bit patterns.
#[derive(Debug, Clone, Copy, PartialEq, Eq, Structural)]
pub struct Viewport {
    pub x: u32,
    pub y: u32,
    pub width: u32,
    pub height: u32,
    pub min_depth: u32,
    pub max_depth: u32,
}

/// What is bound at a binding of a bind group.
#[derive(Debug, Clone, Copy, PartialEq, Eq, Structural)]
pub enum BindingResource {
    /// The buffer with this identifier.
    Buffer(u64),
    /// The texture view with this identifier.
    TextureView(u64),
}

/// One entry of a bind group.
#[derive(Debug, Clone, Copy, PartialEq, Eq, Structural)]
pub struct BindGroupEntry {
    pub binding: u32,
    pub resource: BindingResource,
}

/// The bind group of a view: the uniform buffer and the prepass texture that
/// the view's mode asks for, against the layout of the view's key.
#[derive(Debug, Clone, Copy, PartialEq, Eq, Structural)]
pub struct ShowPrepassBindGroup {
    pub layout: PrepassLayout,
    pub uniform: BindGroupEntry,
    pub texture: BindGroupEntry,
}

/// A view in the render world.
///
/// The host sets the first seven fields; the overlay's stages write the
/// last three.
#[derive(Debug, Clone, Copy, PartialEq, Eq)]
pub struct PrepassView {
    /// The mode tag; a view without it shows its normal view.
    pub show_prepass: Option<ShowPrepass>,
    pub depth_power: Option<ShowPrepassDepthPower>,
    pub hdr: bool,
    /// The sample count of the view's multisampling setting, where it has one.
    pub msaa_samples: Option<u32>,
    pub prepass_textures: Option<ViewPrepassTextures>,
    pub viewport: Option<Viewport>,
    /// Where the view's uniform lies in the uniform buffer, once the host
    /// has written it there.
    pub uniform_index: Option<u32>,
    pub uniform: Option<ShowPrepassUniform>,
    /// The identifier of the view's specialized pipeline.
    pub pipeline: Option<usize>,
    pub bind_group: Option<ShowPrepassBindGroup>,
}

/// What happens to the bind group of a view in a frame.
#[derive(Debug, Clone, Copy, PartialEq, Eq, Structural)]
pub enum BindGroupUpdate {
    /// The view is passed over: what it carries stays.
    Keep,
    /// The texture that the mode asks for is missing: the bind group goes.
    Remove,
    /// The view gets this bind group.
    Insert(ShowPrepassBindGroup),
}

/// The uniform of a tagged view: its exponent, or one where it has none, and
/// the frame's delta time.
pub open spec fn uniform_of(depth_power: Option<ShowPrepassDepthPower>, delta_time: u32) -> ShowPrepassUniform {
    ShowPrepassUniform { depth_power: depth_power_bits(depth_power), delta_time }
}

/// Whether a view is multisampled: it has a multisampling setting of more
/// than one sample.
pub open spec fn multisampled_of(msaa_samples: Option<u32>) -> bool {
    msaa_samples is Some && msaa_samples.unwrap() > 1
}

/// The pipeline key of a view with the given mode.
pub open spec fn pipeline_key_of(show_prepass: ShowPrepass, hdr: bool, msaa_samples: Option<u32>) -> ShowPrepassPipelineKey {
    ShowPrepassPipelineKey { show_prepass, hdr, multisampled: multisampled_of(msaa_samples) }
}

/// The texture that a mode asks for, where the view has it.
pub open spec fn requested_texture(show_prepass: ShowPrepass, textures: Option<ViewPrepassTextures>) -> Option<u64> {
    match textures {
        None => None,
        Some(textures) => match show_prepass {
            ShowPrepass::Depth => textures.depth,
            ShowPrepass::Normals => textures.normal,
            ShowPrepass::MotionVectors => textures.motion_vectors,
        },
    }
}

/// The bind group of a view whose uniform buffer and texture are there.
pub open spec fn bind_group_of(key: ShowPrepassPipelineLayoutKey, uniform_buffer: u64, texture: u64) -> ShowPrepassBindGroup {
    ShowPrepassBindGroup {
        layout: layout_of(key),
        uniform: BindGroupEntry { binding: UNIFORM_BINDING, resource: BindingResource::Buffer(uniform_buffer) },
        texture: BindGroupEntry { binding: TEXTURE_BINDING, resource: BindingResource::TextureView(texture) },
    }
}

/// What happens to the bind group of a tagged view: nothing while the
/// uniform buffer is not there yet; it goes where the mode's texture is
/// missing; else it is built anew.
pub open spec fn bind_group_update_of(
    show_prepass: ShowPrepass,
    textures: Option<ViewPrepassTextures>,
    msaa_samples: Option<u32>,
    uniform_buffer: Option<u64>,
) -> BindGroupUpdate {
    match uniform_buffer {
        None => BindGroupUpdate::Keep,
        Some(buffer) => match requested_texture(show_prepass, textures) {
            None => BindGroupUpdate::Remove,
            Some(texture) => BindGroupUpdate::Insert(
                bind_group_of(
                    ShowPrepassPipelineLayoutKey { show_prepass, multisampled: multisampled_of(msaa_samples) },
                    buffer,
                    texture,
                ),
            ),
        },
    }
}

impl ShowPrepassUniform {
    /// The uniform of a tagged view in a frame with the given delta time.
    pub fn new(depth_power: Option<ShowPrepassDepthPower>, delta_time: u32) -> (uniform: ShowPrepassUniform)
        ensures
            uniform == uniform_of(depth_power, delta_time),
    {
        let depth_power: u32 = match depth_power {
            Some(power) => power.0,
            None => ONE_BITS,
        };
        ShowPrepassUniform { depth_power, delta_time }
    }
}

impl ViewPrepassTextures {
    /// The texture that a mode asks for, where the view has it.
    pub fn requested(&self, show_prepass: ShowPrepass) -> (texture: Option<u64>)
        ensures
            texture == requested_texture(show_prepass, Some(*self)),
    {
        match show_prepass {
            ShowPrepass::Depth => self.depth,
            ShowPrepass::Normals => self.normal,
            ShowPrepass::MotionVectors => self.motion_vectors,
        }
    }
}

/// Whether a view is multisampled.
pub fn is_multisampled(msaa_samples: Option<u32>) -> (multisampled: bool)
    ensures
        multisampled == multisampled_of(msaa_samples),
{
    match msaa_samples {
        Some(samples) => samples > 1,
        None => false,
    }
}

/// The pipeline key of a view with the given mode.
pub fn pipeline_key(show_prepass: ShowPrepass, hdr: bool, msaa_samples: Option<u32>) -> (key: ShowPrepassPipelineKey)
    ensures
        key == pipeline_key_of(show_prepass, hdr, msaa_samples),
{
    ShowPrepassPipelineKey { show_prepass, hdr, multisampled: is_multisampled(msaa_samples) }
}

/// Decides what happens to the bind group of a tagged view in this frame.
pub fn bind_group_update(
    show_prepass: ShowPrepass,
    textures: Option<ViewPrepassTextures>,
    msaa_samples: Option<u32>,
    uniform_buffer: Option<u64>,
    pipeline: &ShowPrepassPipeline,
) -> (update: BindGroupUpdate)
    ensures
        update == bind_group_update_of(show_prepass, textures, msaa_samples, uniform_buffer),
{
    let key = ShowPrepassPipelineLayoutKey { show_prepass, multisampled: is_multisampled(msaa_samples) };
    let layout = pipeline.layout(key);
    let buffer: u64 = match uniform_buffer {
        Some(buffer) => buffer,
        None => {
            return BindGroupUpdate::Keep;
        },
    };
    let resource: Option<u64> = match textures {
        Some(textures) => textures.requested(show_prepass),
        None => None,
    };
    let texture: u64 = match resource {
        Some(texture) => texture,
        None => {
            return BindGroupUpdate::Remove;
        },
    };
    BindGroupUpdate::Insert(
        ShowPrepassBindGroup {
            layout,
            uniform: BindGroupEntry { binding: UNIFORM_BINDING, resource: BindingResource::Buffer(buffer) },
            texture: BindGroupEntry { binding: TEXTURE_BINDING, resource: BindingResource::TextureView(texture) },
        },
    )
}

} // verus!
