//! Pipeline specialization: what the pipeline of a key is made of, and the
//! cache that hands out one identifier per key.

use vstd::prelude::*;
use crate::key::ShowPrepassPipelineKey;
use crate::layout::{layout_of, PrepassLayout, ShowPrepassPipeline};

verus! {

/// The format of the color target that the overlay is drawn into.
#[derive(Debug, Clone, Copy, PartialEq, Eq, Structural)]
pub enum TargetFormat {
    /// The standard 8-bit format.
    Standard,
    /// The floating-point format of HDR views.
    Hdr,
}

/// A specialized render pipeline of the overlay: a full-screen pass that
/// writes color only.
#[derive(Debug)]
pub struct PipelineDescription {
    pub label: &'static str,
    /// The one bind-group layout of the pipeline.
    pub layout: PrepassLayout,
    /// The defines that the fragment shader is compiled with.
    pub shader_defs: Vec<&'static str>,
    /// The entry point of the fragment shader.
    pub entry_point: &'static str,
    /// The format of the one color target.
    pub format: TargetFormat,
    /// Whether the color target blends with what it holds.
    pub blend: bool,
    /// Whether the pipeline has a depth and stencil attachment.
    pub depth_stencil: bool,
}

/// A pipeline description as a mathematical value.
pub ghost struct PipelineModel {
    pub label: Seq<char>,
    pub layout: PrepassLayout,
    pub shader_defs: Seq<Seq<char>>,
    pub entry_point: Seq<char>,
    pub format: TargetFormat,
    pub blend: bool,
    pub depth_stencil: bool,
}

impl View for PipelineDescription {
    type V = PipelineModel;

    open spec fn view(&self) -> PipelineModel {
        PipelineModel {
            label: self.label@,
            layout: self.layout,
            shader_defs: Seq::new(self.shader_defs@.len(), |i: int| self.shader_defs@[i]@),
            entry_point: self.entry_point@,
            format: self.format,
            blend: self.blend,
            depth_stencil: self.depth_stencil,
        }
    }
}

/// The defines of a key: the mode's define, then `MULTISAMPLED` where the
/// key is multisampled.
pub open spec fn shader_defs_of(key: ShowPrepassPipelineKey) -> Seq<Seq<char>> {
    if key.multisampled {
        seq![key.show_prepass.define(), "MULTISAMPLED"@]
    } else {
        seq![key.show_prepass.define()]
    }
}

/// The color target's format of a key.
pub open spec fn format_of(key: ShowPrepassPipelineKey) -> TargetFormat {
    if key.hdr {
        TargetFormat::Hdr
    } else {
        TargetFormat::Standard
    }
}

/// The pipeline of a key: the layout of the key's layout part, the key's
/// defines and format, no blending and no depth or stencil attachment.
pub open spec fn pipeline_of(key: ShowPrepassPipelineKey) -> PipelineModel {
    PipelineModel {
        label: "show prepass pipeline"@,
        layout: layout_of(key.layout_key_of()),
        shader_defs: shader_defs_of(key),
        entry_point: "fragment"@,
        format: format_of(key),
        blend: false,
        depth_stencil: false,
    }
}

impl ShowPrepassPipeline {
    /// Describes the pipeline of a key, with the layout that the cache keeps
    /// for the key's layout part.
    pub fn specialize(&self, key: ShowPrepassPipelineKey) -> (description: PipelineDescription)
        ensures
            description@ == pipeline_of(key),
    {
        let layout = self.layout(key.layout_key());
        let mut shader_defs: Vec<&'static str> = Vec::new();
        shader_defs.push(key.show_prepass.shader_def());
        if key.multisampled {
            shader_defs.push("MULTISAMPLED");
        }
        let format = if key.hdr {
            TargetFormat::Hdr
        } else {
            TargetFormat::Standard
        };
        let description = PipelineDescription {
            label: "show prepass pipeline",
            layout,
            shader_defs,
            entry_point: "fragment",
            format,
            blend: false,
            depth_stencil: false,
        };
        assert(description@.shader_defs =~= shader_defs_of(key));
        description
    }
}

/// The keys of a cache after a key was asked for: as before where the cache
/// held the key, with the key at the end where it did not.
pub open spec fn specialized(cache: Seq<ShowPrepassPipelineKey>, key: ShowPrepassPipelineKey) -> Seq<
    ShowPrepassPipelineKey,
> {
    if cache.contains(key) {
        cache
    } else {
        cache.push(key)
    }
}

/// Asking a cache for a key leaves the identifier of every key that the
/// cache held as it was.
pub proof fn lemma_identifier_stays(
    cache: Seq<ShowPrepassPipelineKey>,
    held: ShowPrepassPipelineKey,
    asked: ShowPrepassPipelineKey,
)
    requires
        cache.no_duplicates(),
        cache.contains(held),
    ensures
        specialized(cache, asked).contains(held),
        specialized(cache, asked).index_of(held) == cache.index_of(held),
{
    let after = specialized(cache, asked);
    let at = cache.index_of(held);
    assert(after[at] == held);
    assert(after.no_duplicates()) by {
        if !cache.contains(asked) {
            assert forall|i: int, j: int| 0 <= i < after.len() && 0 <= j < after.len() && i != j implies after[i]
                != after[j] by {
                if i < cache.len() {
                    assert(cache[i] == after[i]);
                }
                if j < cache.len() {
                    assert(cache[j] == after[j]);
                }
            }
        }
    }
    let found = after.index_of(held);
    assert(0 <= found < after.len() && after[found] == held);
}

/// What asking the cache for a key's pipeline gives.
#[derive(Debug)]
pub struct Specialization {
    /// The identifier of the key's pipeline.
    pub id: usize,
    /// The pipeline to compile, where the key was asked for the first time.
    pub queued: Option<PipelineDescription>,
}

/// The cache of specialized pipelines: the keys asked for so far, in the
/// order in which each was first asked for. A key's identifier is its
/// position. Nothing ever leaves the cache, so an identifier stays good.
pub struct SpecializedPipelines {
    keys: Vec<ShowPrepassPipelineKey>,
}

impl View for SpecializedPipelines {
    type V = Seq<ShowPrepassPipelineKey>;

    closed spec fn view(&self) -> Seq<ShowPrepassPipelineKey> {
        self.keys@
    }
}

impl SpecializedPipelines {
    #[verifier::type_invariant]
    closed spec fn distinct(&self) -> bool {
        self.keys@.no_duplicates()
    }

    /// A cache that holds nothing.
    pub fn new() -> (cache: SpecializedPipelines)
        ensures
            cache@ == Seq::<ShowPrepassPipelineKey>::empty(),
    {
        SpecializedPipelines { keys: Vec::new() }
    }

    /// The number of pipelines specialized so far.
    pub fn len(&self) -> (len: usize)
        ensures
            len == self@.len(),
            self@.no_duplicates(),
    {
        proof {
            use_type_invariant(self);
        }
        self.keys.len()
    }

    /// The identifier of a key's pipeline, where the key was asked for before.
    pub fn get(&self, key: ShowPrepassPipelineKey) -> (id: Option<usize>)
        ensures
            self@.no_duplicates(),
            id is Some <==> self@.contains(key),
            id is Some ==> id.unwrap() == self@.index_of(key),
    {
        proof {
            use_type_invariant(self);
        }
        let mut i: usize = 0;
        while i < self.keys.len()
            invariant
                i <= self.keys@.len(),
                self.keys@.no_duplicates(),
                forall|j: int| 0 <= j < i ==> self.keys@[j] != key,
            decreases self.keys@.len() - i,
        {
            if self.keys[i] == key {
                return Some(i);
            }
            i = i + 1;
        }
        None
    }

    /// Hands out the identifier of a key's pipeline. The first time a key is
    /// asked for, its pipeline is described for compiling and the key gets
    /// the next identifier; every later time the same identifier comes back
    /// and nothing is to compile.
    pub fn specialize(&mut self, pipeline: &ShowPrepassPipeline, key: ShowPrepassPipelineKey) -> (outcome:
        Specialization)
        ensures
            final(self)@ == specialized(old(self)@, key),
            final(self)@.no_duplicates(),
            outcome.id == final(self)@.index_of(key),
            outcome.id < final(self)@.len(),
            final(self)@[outcome.id as int] == key,
            outcome.queued is None <==> old(self)@.contains(key),
            outcome.queued is Some ==> outcome.queued.unwrap()@ == pipeline_of(key),
    {
        match self.get(key) {
            Some(id) => Specialization { id, queued: None },
            None => {
                let mut held = SpecializedPipelines::new();
                core::mem::swap(self, &mut held);
                let mut keys = held.keys;
                let id = keys.len();
                keys.push(key);
                *self = SpecializedPipelines { keys };
                Specialization { id, queued: Some(pipeline.specialize(key)) }
            },
        }
    }
}

} // verus!
