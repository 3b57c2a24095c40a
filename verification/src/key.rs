//! The keys under which bind-group layouts and specialized pipelines are kept.

use vstd::prelude::*;
use crate::mode::ShowPrepass;

verus! {

/// What a bind-group layout depends on: the mode and whether the prepass
/// texture is multisampled.
#[derive(Debug, Clone, Copy, PartialEq, Eq, Hash, Structural)]
pub struct ShowPrepassPipelineLayoutKey {
    pub show_prepass: ShowPrepass,
    pub multisampled: bool,
}

/// What a specialized pipeline depends on: the layout key's two parts and
/// whether the view renders to the HDR format.
#[derive(Debug, Clone, Copy, PartialEq, Eq, Hash, Structural)]
pub struct ShowPrepassPipelineKey {
    pub show_prepass: ShowPrepass,
    pub hdr: bool,
    pub multisampled: bool,
}

/// The number of layout keys.
pub const LAYOUT_KEYS: usize = 6;

/// The six layout keys: the modes in their fixed order, each first
/// multisampled and then not.
pub open spec fn all_layout_keys() -> Seq<ShowPrepassPipelineLayoutKey> {
    seq![
        ShowPrepassPipelineLayoutKey { show_prepass: ShowPrepass::Depth, multisampled: true },
        ShowPrepassPipelineLayoutKey { show_prepass: ShowPrepass::Depth, multisampled: false },
        ShowPrepassPipelineLayoutKey { show_prepass: ShowPrepass::Normals, multisampled: true },
        ShowPrepassPipelineLayoutKey { show_prepass: ShowPrepass::Normals, multisampled: false },
        ShowPrepassPipelineLayoutKey { show_prepass: ShowPrepass::MotionVectors, multisampled: true },
        ShowPrepassPipelineLayoutKey { show_prepass: ShowPrepass::MotionVectors, multisampled: false },
    ]
}

impl ShowPrepassPipelineLayoutKey {
    /// The key's position among the six layout keys.
    pub open spec fn slot_of(self) -> nat {
        2 * self.show_prepass.ordinal() + if self.multisampled { 0nat } else { 1nat }
    }

    /// The key's position among the six layout keys.
    pub fn slot(self) -> (s: u8)
        ensures
            s == self.slot_of(),
            s < LAYOUT_KEYS,
    {
        let base: u8 = 2 * self.show_prepass.index();
        if self.multisampled {
            base
        } else {
            base + 1
        }
    }

    /// All six layout keys, each once, in the order of their slots.
    pub fn keys() -> (keys: Vec<ShowPrepassPipelineLayoutKey>)
        ensures
            keys@ == all_layout_keys(),
    {
        let modes: [ShowPrepass; 3] = [
            ShowPrepass::Depth,
            ShowPrepass::Normals,
            ShowPrepass::MotionVectors,
        ];
        let mut keys: Vec<ShowPrepassPipelineLayoutKey> = Vec::new();
        let mut i: usize = 0;
        while i < 3
            invariant
                i <= 3,
                modes@ == seq![ShowPrepass::Depth, ShowPrepass::Normals, ShowPrepass::MotionVectors],
                keys@ == all_layout_keys().take(2 * i),
            decreases 3 - i,
        {
            let show_prepass = modes[i];
            keys.push(ShowPrepassPipelineLayoutKey { show_prepass, multisampled: true });
            keys.push(ShowPrepassPipelineLayoutKey { show_prepass, multisampled: false });
            i = i + 1;
            assert(keys@ =~= all_layout_keys().take(2 * i));
        }
        assert(keys@ =~= all_layout_keys());
        keys
    }
}

impl ShowPrepassPipelineKey {
    /// The part of the key that the bind-group layout depends on.
    pub open spec fn layout_key_of(self) -> ShowPrepassPipelineLayoutKey {
        ShowPrepassPipelineLayoutKey {
            show_prepass: self.show_prepass,
            multisampled: self.multisampled,
        }
    }

    /// The part of the key that the bind-group layout depends on.
    pub fn layout_key(&self) -> (key: ShowPrepassPipelineLayoutKey)
        ensures
            key == self.layout_key_of(),
    {
        ShowPrepassPipelineLayoutKey {
            show_prepass: self.show_prepass,
            multisampled: self.multisampled,
        }
    }
}

/// Every layout key stands in the list of all keys at its slot, so the list
/// holds each of the six once and nothing else.
pub proof fn lemma_layout_keys_complete(key: ShowPrepassPipelineLayoutKey)
    ensures
        all_layout_keys().len() == LAYOUT_KEYS,
        key.slot_of() < LAYOUT_KEYS,
        all_layout_keys()[key.slot_of() as int] == key,
        forall|i: int|
            0 <= i < all_layout_keys().len() ==> (#[trigger] all_layout_keys()[i]).slot_of() == i,
{
}

} // verus!
