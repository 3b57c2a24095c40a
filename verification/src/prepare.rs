//! The three stages that prepare the views of a frame: uniforms, pipelines,
//! bind groups. Each passes over the untagged views and leaves them as they
//! are.

use vstd::prelude::*;
use crate::key::ShowPrepassPipelineKey;
use crate::layout::ShowPrepassPipeline;
use crate::mode::ShowPrepass;
use crate::pipeline::{
    lemma_identifier_stays, pipeline_of, specialized, PipelineDescription, SpecializedPipelines,
};
use crate::view::{
    bind_group_update, bind_group_update_of, pipeline_key, pipeline_key_of, uniform_of,
    BindGroupUpdate, PrepassView, ShowPrepassUniform,
};

verus! {

/// A view after its uniform was prepared: a tagged view carries the uniform
/// of this frame, an untagged view is as it was.
pub open spec fn with_uniform(view: PrepassView, delta_time: u32) -> PrepassView {
    match view.show_prepass {
        Some(_) => PrepassView { uniform: Some(uniform_of(view.depth_power, delta_time)), ..view },
        None => view,
    }
}

/// The pipeline key of a view, where it is tagged.
pub open spec fn view_key(view: PrepassView) -> Option<ShowPrepassPipelineKey> {
    match view.show_prepass {
        Some(show_prepass) => Some(pipeline_key_of(show_prepass, view.hdr, view.msaa_samples)),
        None => None,
    }
}

/// The keys of a cache after the keys of the tagged views were asked for,
/// view by view.
pub open spec fn specialized_all(cache: Seq<ShowPrepassPipelineKey>, views: Seq<PrepassView>) -> Seq<
    ShowPrepassPipelineKey,
>
    decreases views.len(),
{
    if views.len() == 0 {
        cache
    } else {
        let before = specialized_all(cache, views.drop_last());
        match view_key(views.last()) {
            Some(key) => specialized(before, key),
            None => before,
        }
    }
}

/// A view after its pipeline was selected from a cache that holds its key:
/// a tagged view carries the identifier of its key, an untagged view is as
/// it was.
pub open spec fn with_pipeline(view: PrepassView, cache: Seq<ShowPrepassPipelineKey>) -> PrepassView {
    match view_key(view) {
        Some(key) => PrepassView { pipeline: Some(cache.index_of(key) as usize), ..view },
        None => view,
    }
}

/// What happens to the bind group of a view in a frame: an untagged view
/// is passed over.
pub open spec fn view_bind_group_update(view: PrepassView, uniform_buffer: Option<u64>) -> BindGroupUpdate {
    match view.show_prepass {
        Some(show_prepass) => bind_group_update_of(
            show_prepass,
            view.prepass_textures,
            view.msaa_samples,
            uniform_buffer,
        ),
        None => BindGroupUpdate::Keep,
    }
}

/// A view after its bind group was prepared.
pub open spec fn with_bind_group(view: PrepassView, uniform_buffer: Option<u64>) -> PrepassView {
    match view_bind_group_update(view, uniform_buffer) {
        BindGroupUpdate::Keep => view,
        BindGroupUpdate::Remove => PrepassView { bind_group: None, ..view },
        BindGroupUpdate::Insert(bind_group) => PrepassView { bind_group: Some(bind_group), ..view },
    }
}

/// The mode of the first view whose texture is missing, if there is one.
pub open spec fn first_missing(views: Seq<PrepassView>, uniform_buffer: Option<u64>) -> Option<ShowPrepass>
    decreases views.len(),
{
    if views.len() == 0 {
        None
    } else {
        match first_missing(views.drop_last(), uniform_buffer) {
            Some(show_prepass) => Some(show_prepass),
            None => if view_bind_group_update(views.last(), uniform_buffer) == BindGroupUpdate::Remove {
                views.last().show_prepass
            } else {
                None
            },
        }
    }
}

/// The warning of a pass over the views: none once one was given; else the
/// mode of the first view whose texture is missing.
pub open spec fn warning_of(warned: bool, views: Seq<PrepassView>, uniform_buffer: Option<u64>) -> Option<
    ShowPrepass,
> {
    if warned {
        None
    } else {
        first_missing(views, uniform_buffer)
    }
}

/// Whether a warning was given by the end of a pass over the views.
pub open spec fn warned_after(warned: bool, views: Seq<PrepassView>, uniform_buffer: Option<u64>) -> bool {
    warned || first_missing(views, uniform_buffer) is Some
}

/// Gives every tagged view the uniform of this frame: its exponent, or one
/// where it has none, and the frame's delta time.
pub fn prepare_uniforms(views: &mut Vec<PrepassView>, delta_time: u32)
    ensures
        final(views)@ == old(views)@.map_values(|view: PrepassView| with_uniform(view, delta_time)),
{
    let mut i: usize = 0;
    while i < views.len()
        invariant
            i <= views@.len(),
            views@.len() == old(views)@.len(),
            forall|j: int| 0 <= j < i ==> views@[j] == with_uniform(old(views)@[j], delta_time),
            forall|j: int| i <= j < views@.len() ==> views@[j] == old(views)@[j],
        decreases views@.len() - i,
    {
        let mut view = views[i];
        if view.show_prepass.is_some() {
            view.uniform = Some(ShowPrepassUniform::new(view.depth_power, delta_time));
            views.set(i, view);
        }
        i = i + 1;
    }
    assert(views@ =~= old(views)@.map_values(|view: PrepassView| with_uniform(view, delta_time)));
}

/// Selects the pipeline of every tagged view: asks the cache for the view's
/// key and stores the identifier on the view. Returns the pipelines that
/// were asked for the first time, in the order of their identifiers, for
/// compiling.
pub fn prepare_pipelines(
    views: &mut Vec<PrepassView>,
    pipelines: &mut SpecializedPipelines,
    pipeline: &ShowPrepassPipeline,
) -> (queued: Vec<PipelineDescription>)
    ensures
        final(pipelines)@ == specialized_all(old(pipelines)@, old(views)@),
        final(pipelines)@.no_duplicates(),
        final(views)@ == old(views)@.map_values(|view: PrepassView| with_pipeline(view, final(pipelines)@)),
        queued@.len() == final(pipelines)@.len() - old(pipelines)@.len(),
        forall|j: int|
            0 <= j < queued@.len() ==> (#[trigger] queued@[j])@ == pipeline_of(
                final(pipelines)@[old(pipelines)@.len() + j],
            ),
{
    let mut queued: Vec<PipelineDescription> = Vec::new();
    let held: usize = pipelines.len();
    let mut i: usize = 0;
    while i < views.len()
        invariant
            i <= views@.len(),
            views@.len() == old(views)@.len(),
            held == old(pipelines)@.len(),
            pipelines@ == specialized_all(old(pipelines)@, old(views)@.take(i as int)),
            pipelines@.no_duplicates(),
            forall|j: int|
                0 <= j < i ==> match view_key(old(views)@[j]) {
                    Some(key) => {
                        &&& pipelines@.contains(key)
                        &&& #[trigger] views@[j] == PrepassView {
                            pipeline: Some(pipelines@.index_of(key) as usize),
                            ..old(views)@[j]
                        }
                    },
                    None => views@[j] == old(views)@[j],
                },
            forall|j: int| i <= j < views@.len() ==> views@[j] == old(views)@[j],
            queued@.len() == pipelines@.len() - held,
            forall|j: int| 0 <= j < queued@.len() ==> (#[trigger] queued@[j])@ == pipeline_of(pipelines@[held + j]),
        decreases views@.len() - i,
    {
        let mut view = views[i];
        let ghost before = pipelines@;
        proof {
            assert(old(views)@.take(i + 1).drop_last() =~= old(views)@.take(i as int));
        }
        match view.show_prepass {
            Some(show_prepass) => {
                let key = pipeline_key(show_prepass, view.hdr, view.msaa_samples);
                let outcome = pipelines.specialize(pipeline, key);
                view.pipeline = Some(outcome.id);
                views.set(i, view);
                match outcome.queued {
                    Some(description) => {
                        queued.push(description);
                    },
                    None => {},
                }
                proof {
                    assert forall|j: int| 0 <= j < i implies match view_key(old(views)@[j]) {
                        Some(key) => {
                            &&& pipelines@.contains(key)
                            &&& #[trigger] views@[j] == PrepassView {
                                pipeline: Some(pipelines@.index_of(key) as usize),
                                ..old(views)@[j]
                            }
                        },
                        None => views@[j] == old(views)@[j],
                    } by {
                        match view_key(old(views)@[j]) {
                            Some(earlier) => {
                                lemma_identifier_stays(before, earlier, key);
                            },
                            None => {},
                        }
                    }
                }
            },
            None => {},
        }
        i = i + 1;
    }
    proof {
        assert(old(views)@.take(i as int) =~= old(views)@);
        assert(views@ =~= old(views)@.map_values(|view: PrepassView| with_pipeline(view, pipelines@)));
    }
    queued
}

/// Builds the bind group of every tagged view, once the uniform buffer is
/// there. A view whose mode asks for a texture that it does not have loses
/// its bind group. The first time ever that a texture is missing, the mode
/// of that view is returned for a warning, and `warned` is set; afterwards
/// nothing is returned.
pub fn prepare_bind_groups(
    views: &mut Vec<PrepassView>,
    uniform_buffer: Option<u64>,
    pipeline: &ShowPrepassPipeline,
    warned: &mut bool,
) -> (warning: Option<ShowPrepass>)
    ensures
        final(views)@ == old(views)@.map_values(|view: PrepassView| with_bind_group(view, uniform_buffer)),
        *final(warned) == warned_after(*old(warned), old(views)@, uniform_buffer),
        warning == warning_of(*old(warned), old(views)@, uniform_buffer),
{
    let mut missing: Option<ShowPrepass> = None;
    let mut i: usize = 0;
    while i < views.len()
        invariant
            i <= views@.len(),
            views@.len() == old(views)@.len(),
            missing == first_missing(old(views)@.take(i as int), uniform_buffer),
            forall|j: int| 0 <= j < i ==> views@[j] == with_bind_group(old(views)@[j], uniform_buffer),
            forall|j: int| i <= j < views@.len() ==> views@[j] == old(views)@[j],
        decreases views@.len() - i,
    {
        let mut view = views[i];
        proof {
            assert(old(views)@.take(i + 1).drop_last() =~= old(views)@.take(i as int));
        }
        match view.show_prepass {
            Some(show_prepass) => {
                match bind_group_update(
                    show_prepass,
                    view.prepass_textures,
                    view.msaa_samples,
                    uniform_buffer,
                    pipeline,
                ) {
                    BindGroupUpdate::Keep => {},
                    BindGroupUpdate::Remove => {
                        if missing.is_none() {
                            missing = Some(show_prepass);
                        }
                        view.bind_group = None;
                        views.set(i, view);
                    },
                    BindGroupUpdate::Insert(bind_group) => {
                        view.bind_group = Some(bind_group);
                        views.set(i, view);
                    },
                }
            },
            None => {},
        }
        i = i + 1;
    }
    proof {
        assert(old(views)@.take(i as int) =~= old(views)@);
        assert(views@ =~= old(views)@.map_values(|view: PrepassView| with_bind_group(view, uniform_buffer)));
    }
    if *warned {
        None
    } else {
        if missing.is_some() {
            *warned = true;
        }
        missing
    }
}

} // verus!
