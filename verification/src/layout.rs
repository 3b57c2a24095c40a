//! Bind-group layouts: what each of the six layouts holds, and the cache
//! that is filled with them once at startup.

use vstd::prelude::*;
use bevy::platform::collections::HashMap;
use bevy::platform::hash::FixedHasher;
use crate::key::{all_layout_keys, lemma_layout_keys_complete, ShowPrepassPipelineLayoutKey, LAYOUT_KEYS};
use crate::mode::ShowPrepass;

verus! {

/// The shader stage that can see a binding.
#[derive(Debug, Clone, Copy, PartialEq, Eq, Structural)]
pub enum ShaderStage {
    Vertex,
    Fragment,
    Compute,
}

/// How a bound texture is sampled.
#[derive(Debug, Clone, Copy, PartialEq, Eq, Structural)]
pub enum TextureSampleType {
    Depth,
    Float { filterable: bool },
}

/// What a binding of a layout expects.
#[derive(Debug, Clone, Copy, PartialEq, Eq, Structural)]
pub enum BindingType {
    /// A uniform buffer of at least `min_binding_size` bytes.
    UniformBuffer { has_dynamic_offset: bool, min_binding_size: u64 },
    /// A two-dimensional texture.
    Texture2d { sample_type: TextureSampleType, multisampled: bool },
}

/// One entry of a bind-group layout.
#[derive(Debug, Clone, Copy, PartialEq, Eq, Structural)]
pub struct LayoutEntry {
    pub binding: u32,
    pub visibility: ShaderStage,
    pub ty: BindingType,
}

/// A bind-group layout of the overlay: the uniform, then the prepass texture.
#[derive(Debug, Clone, Copy, PartialEq, Eq, Structural)]
pub struct PrepassLayout {
    pub uniform: LayoutEntry,
    pub texture: LayoutEntry,
}

/// The binding of the per-view uniform.
pub const UNIFORM_BINDING: u32 = 0;

/// The binding of the prepass texture.
pub const TEXTURE_BINDING: u32 = 1;

/// The size in bytes of the per-view uniform: two single-precision numbers.
pub const UNIFORM_SIZE: u64 = 8;

/// How the prepass texture of a mode is sampled: the depth buffer as depth,
/// normals and motion vectors as unfilterable floats.
pub open spec fn sample_type_of(show_prepass: ShowPrepass) -> TextureSampleType {
    match show_prepass {
        ShowPrepass::Depth => TextureSampleType::Depth,
        ShowPrepass::Normals => TextureSampleType::Float { filterable: false },
        ShowPrepass::MotionVectors => TextureSampleType::Float { filterable: false },
    }
}

/// The layout of a key: at binding 0 the uniform buffer with a dynamic
/// offset, at binding 1 the mode's texture, single- or multisampled as the
/// key says; both visible to the fragment stage only.
pub open spec fn layout_of(key: ShowPrepassPipelineLayoutKey) -> PrepassLayout {
    PrepassLayout {
        uniform: LayoutEntry {
            binding: UNIFORM_BINDING,
            visibility: ShaderStage::Fragment,
            ty: BindingType::UniformBuffer {
                has_dynamic_offset: true,
                min_binding_size: UNIFORM_SIZE,
            },
        },
        texture: LayoutEntry {
            binding: TEXTURE_BINDING,
            visibility: ShaderStage::Fragment,
            ty: BindingType::Texture2d {
                sample_type: sample_type_of(key.show_prepass),
                multisampled: key.multisampled,
            },
        },
    }
}

/// The layout cache as it stands for good once it is filled: every one of
/// the six keys with its layout.
pub open spec fn all_layouts() -> Map<ShowPrepassPipelineLayoutKey, PrepassLayout> {
    Map::new(|key: ShowPrepassPipelineLayoutKey| true, |key: ShowPrepassPipelineLayoutKey| layout_of(key))
}

impl PrepassLayout {
    /// The layout of a key.
    pub fn for_key(key: ShowPrepassPipelineLayoutKey) -> (layout: PrepassLayout)
        ensures
            layout == layout_of(key),
    {
        let sample_type = match key.show_prepass {
            ShowPrepass::Depth => TextureSampleType::Depth,
            ShowPrepass::Normals => TextureSampleType::Float { filterable: false },
            ShowPrepass::MotionVectors => TextureSampleType::Float { filterable: false },
        };
        PrepassLayout {
            uniform: LayoutEntry {
                binding: UNIFORM_BINDING,
                visibility: ShaderStage::Fragment,
                ty: BindingType::UniformBuffer {
                    has_dynamic_offset: true,
                    min_binding_size: UNIFORM_SIZE,
                },
            },
            texture: LayoutEntry {
                binding: TEXTURE_BINDING,
                visibility: ShaderStage::Fragment,
                ty: BindingType::Texture2d { sample_type, multisampled: key.multisampled },
            },
        }
    }

    /// The entries in the order of their bindings.
    pub fn entries(&self) -> (entries: Vec<LayoutEntry>)
        ensures
            entries@ == seq![self.uniform, self.texture],
    {
        let mut entries: Vec<LayoutEntry> = Vec::new();
        entries.push(self.uniform);
        entries.push(self.texture);
        assert(entries@ =~= seq![self.uniform, self.texture]);
        entries
    }
}

/// The hash map of bevy's platform collections. Nothing is claimed of what
/// is inside it but through the wrappers below.
#[verifier::external_type_specification]
#[verifier::external_body]
#[verifier::reject_recursive_types(K)]
#[verifier::reject_recursive_types(V)]
#[verifier::reject_recursive_types(S)]
pub struct ExHashMap<K, V, S>(HashMap<K, V, S>);

/// The hasher that the hash map of bevy's platform collections uses where
/// none is named. Nothing is claimed of it.
#[verifier::external_type_specification]
#[verifier::external_body]
pub struct ExFixedHasher(FixedHasher);

/// What a map from slots to layouts holds.
pub uninterp spec fn layout_map_contents(map: HashMap<u8, PrepassLayout>) -> Map<u8, PrepassLayout>;

/// `HashMap::new` of bevy's platform collections: the new map holds nothing.
#[verifier::external_body]
fn layout_map_new() -> (created: HashMap<u8, PrepassLayout>)
    ensures
        layout_map_contents(created).dom() == Set::<u8>::empty(),
{
    HashMap::new()
}

/// `HashMap::insert` of bevy's platform collections: afterwards the slot
/// holds the layout and every other slot what it held before; the result is
/// what the slot held before, if anything.
#[verifier::external_body]
fn layout_map_insert(map: &mut HashMap<u8, PrepassLayout>, slot: u8, layout: PrepassLayout) -> (previous: Option<PrepassLayout>)
    ensures
        layout_map_contents(*final(map)) == layout_map_contents(*old(map)).insert(slot, layout),
        previous == if layout_map_contents(*old(map)).contains_key(slot) {
            Some(layout_map_contents(*old(map))[slot])
        } else {
            None::<PrepassLayout>
        },
{
    map.insert(slot, layout)
}

/// `HashMap::get` of bevy's platform collections: the layout that the slot
/// holds, or nothing where the slot holds none.
#[verifier::external_body]
fn layout_map_get(map: &HashMap<u8, PrepassLayout>, slot: u8) -> (found: Option<PrepassLayout>)
    ensures
        found == if layout_map_contents(*map).contains_key(slot) {
            Some(layout_map_contents(*map)[slot])
        } else {
            None::<PrepassLayout>
        },
{
    map.get(&slot).copied()
}

/// `HashMap::len` of bevy's platform collections: the number of slots that
/// hold a layout.
#[verifier::external_body]
fn layout_map_len(map: &HashMap<u8, PrepassLayout>) -> (len: usize)
    ensures
        len == layout_map_contents(*map).dom().len(),
{
    map.len()
}

/// What the filled cache holds by slot.
pub open spec fn layouts_by_slot() -> Map<u8, PrepassLayout> {
    Map::new(
        |slot: u8| slot < LAYOUT_KEYS,
        |slot: u8| layout_of(all_layout_keys()[slot as int]),
    )
}

/// The layout cache of the overlay's pipeline. It is filled when it is made
/// and offers no way to change it afterwards.
pub struct ShowPrepassPipeline {
    layouts: HashMap<u8, PrepassLayout>,
}

impl View for ShowPrepassPipeline {
    type V = Map<ShowPrepassPipelineLayoutKey, PrepassLayout>;

    /// The layouts by key.
    closed spec fn view(&self) -> Map<ShowPrepassPipelineLayoutKey, PrepassLayout> {
        Map::new(
            |key: ShowPrepassPipelineLayoutKey|
                layout_map_contents(self.layouts).contains_key(key.slot_of() as u8),
            |key: ShowPrepassPipelineLayoutKey|
                layout_map_contents(self.layouts)[key.slot_of() as u8],
        )
    }
}

impl ShowPrepassPipeline {
    #[verifier::type_invariant]
    closed spec fn filled(&self) -> bool {
        layout_map_contents(self.layouts) == layouts_by_slot()
    }

    /// A cache that holds every slot with its layout holds every key with its
    /// layout.
    proof fn lemma_filled_view(&self)
        requires
            self.filled(),
        ensures
            self@ == all_layouts(),
    {
        assert forall|key: ShowPrepassPipelineLayoutKey|
            layouts_by_slot().contains_key(key.slot_of() as u8)
            && layouts_by_slot()[key.slot_of() as u8] == layout_of(key) by {
            lemma_layout_keys_complete(key);
        }
        assert(self@ =~= all_layouts());
    }

    /// The layout kept for a key.
    pub fn layout(&self, key: ShowPrepassPipelineLayoutKey) -> (layout: PrepassLayout)
        ensures
            layout == layout_of(key),
            self@ == all_layouts(),
    {
        proof {
            use_type_invariant(self);
            self.lemma_filled_view();
            lemma_layout_keys_complete(key);
        }
        layout_map_get(&self.layouts, key.slot()).unwrap()
    }

    /// The number of layouts kept: one for each of the six keys.
    pub fn layout_count(&self) -> (count: usize)
        ensures
            count == LAYOUT_KEYS,
    {
        proof {
            use_type_invariant(self);
            lemma_slots_counted();
        }
        layout_map_len(&self.layouts)
    }
}

/// The filled cache holds six slots.
proof fn lemma_slots_counted()
    ensures
        layouts_by_slot().dom().len() == LAYOUT_KEYS,
{
    let slots: Set<u8> = set![0u8, 1u8, 2u8, 3u8, 4u8, 5u8];
    assert(layouts_by_slot().dom() =~= slots);
    assert(slots.len() == 6);
}

/// Builds the layout cache: one layout for each of the six keys, each built
/// once.
pub fn init_pipeline() -> (pipeline: ShowPrepassPipeline)
    ensures
        pipeline@ == all_layouts(),
{
    let keys = ShowPrepassPipelineLayoutKey::keys();
    let mut layouts = layout_map_new();
    let mut i: usize = 0;
    while i < keys.len()
        invariant
            i <= keys.len(),
            keys@ == all_layout_keys(),
            layout_map_contents(layouts) =~= Map::new(
                |slot: u8| slot < i,
                |slot: u8| layout_of(all_layout_keys()[slot as int]),
            ),
        decreases keys.len() - i,
    {
        let key = keys[i];
        proof {
            lemma_layout_keys_complete(key);
        }
        let previous = layout_map_insert(&mut layouts, key.slot(), PrepassLayout::for_key(key));
        assert(previous is None);
        i = i + 1;
    }
    assert(layout_map_contents(layouts) =~= layouts_by_slot());
    let pipeline = ShowPrepassPipeline { layouts };
    proof {
        pipeline.lemma_filled_view();
    }
    pipeline
}

} // verus!
