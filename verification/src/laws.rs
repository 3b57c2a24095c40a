//! What holds of the overlay whatever the views and the frame.

use vstd::prelude::*;
use crate::key::{all_layout_keys, ShowPrepassPipelineKey, ShowPrepassPipelineLayoutKey, LAYOUT_KEYS};
use crate::layout::{all_layouts, layout_of};
use crate::mode::ONE_BITS;
use crate::node::draw_of;
use crate::pipeline::specialized;
use crate::prepare::{
    first_missing, view_bind_group_update, warned_after, warning_of, with_bind_group,
    with_pipeline, with_uniform,
};
use crate::view::{requested_texture, BindGroupUpdate, PrepassView};

verus! {

/// The filled layout cache holds exactly one layout for each of the six
/// combinations of mode and multisampling: the list of keys has six
/// entries, no key twice and every key once, and the cache maps each key
/// to the layout of that key.
pub proof fn lemma_one_layout_per_key(key: ShowPrepassPipelineLayoutKey)
    ensures
        all_layout_keys().len() == LAYOUT_KEYS,
        all_layout_keys().no_duplicates(),
        all_layout_keys().contains(key),
        all_layouts().contains_key(key),
        all_layouts()[key] == layout_of(key),
{
    assert(all_layout_keys()[key.slot_of() as int] == key);
    assert forall|i: int, j: int|
        0 <= i < all_layout_keys().len() && 0 <= j < all_layout_keys().len() && i != j implies all_layout_keys()[i]
        != all_layout_keys()[j] by {
        assert(all_layout_keys()[i].slot_of() == i);
        assert(all_layout_keys()[j].slot_of() == j);
    }
}

/// Asking the cache of specialized pipelines twice for a key gives the same
/// identifier both times, and the second time leaves the cache as it is.
pub proof fn lemma_specialize_idempotent(cache: Seq<ShowPrepassPipelineKey>, key: ShowPrepassPipelineKey)
    requires
        cache.no_duplicates(),
    ensures
        specialized(cache, key).contains(key),
        specialized(specialized(cache, key), key) == specialized(cache, key),
        specialized(specialized(cache, key), key).index_of(key) == specialized(cache, key).index_of(key),
{
    let once = specialized(cache, key);
    if cache.contains(key) {
    } else {
        assert(once[cache.len() as int] == key);
    }
}

/// A view without the mode tag is not drawn, whatever pipeline or bind
/// group it still carries; and the three stages leave it as it is.
pub proof fn lemma_untagged_view_not_drawn(
    view: PrepassView,
    delta_time: u32,
    cache: Seq<ShowPrepassPipelineKey>,
    uniform_buffer: Option<u64>,
    pipeline_ready: bool,
)
    requires
        view.show_prepass is None,
    ensures
        draw_of(view, pipeline_ready) is None,
        with_uniform(view, delta_time) == view,
        with_pipeline(view, cache) == view,
        with_bind_group(view, uniform_buffer) == view,
{
}

/// A tagged view whose mode asks for a texture that the view does not have
/// carries no bind group once the bind groups are prepared with the uniform
/// buffer there, and is not drawn.
pub proof fn lemma_missing_texture_not_drawn(view: PrepassView, uniform_buffer: u64, pipeline_ready: bool)
    requires
        view.show_prepass is Some,
        requested_texture(view.show_prepass.unwrap(), view.prepass_textures) is None,
    ensures
        view_bind_group_update(view, Some(uniform_buffer)) == BindGroupUpdate::Remove,
        with_bind_group(view, Some(uniform_buffer)).bind_group is None,
        draw_of(with_bind_group(view, Some(uniform_buffer)), pipeline_ready) is None,
{
}

/// A missing texture is found among the views exactly where some view's
/// bind group goes, and then the mode reported is that of such a view.
pub proof fn lemma_first_missing(views: Seq<PrepassView>, uniform_buffer: Option<u64>)
    ensures
        first_missing(views, uniform_buffer) is Some <==> exists|i: int|
            0 <= i < views.len() && #[trigger] view_bind_group_update(views[i], uniform_buffer)
                == BindGroupUpdate::Remove,
        first_missing(views, uniform_buffer) is Some ==> exists|i: int|
            0 <= i < views.len() && #[trigger] view_bind_group_update(views[i], uniform_buffer)
                == BindGroupUpdate::Remove && views[i].show_prepass == first_missing(views, uniform_buffer),
    decreases views.len(),
{
    if views.len() > 0 {
        let front = views.drop_last();
        lemma_first_missing(front, uniform_buffer);
        assert forall|i: int| 0 <= i < front.len() implies front[i] == views[i] by {}
        if first_missing(front, uniform_buffer) is Some {
            let i = choose|i: int|
                0 <= i < front.len() && #[trigger] view_bind_group_update(front[i], uniform_buffer)
                    == BindGroupUpdate::Remove && front[i].show_prepass == first_missing(front, uniform_buffer);
            assert(view_bind_group_update(views[i], uniform_buffer) == BindGroupUpdate::Remove);
        } else if view_bind_group_update(views.last(), uniform_buffer) == BindGroupUpdate::Remove {
            assert(view_bind_group_update(views[views.len() - 1], uniform_buffer) == BindGroupUpdate::Remove);
            assert(views.last().show_prepass is Some);
        } else {
            assert forall|i: int| 0 <= i < views.len() implies #[trigger] view_bind_group_update(
                views[i],
                uniform_buffer,
            ) != BindGroupUpdate::Remove by {
                if i < front.len() {
                    assert(front[i] == views[i]);
                }
            }
        }
    }
}

/// The warning about a missing texture is given once: a pass gives one only
/// where none was given before and a texture is missing, and after a pass
/// that gave one no later pass gives another.
pub proof fn lemma_warns_once(
    warned: bool,
    views: Seq<PrepassView>,
    uniform_buffer: Option<u64>,
    later_views: Seq<PrepassView>,
    later_uniform_buffer: Option<u64>,
)
    ensures
        warning_of(warned, views, uniform_buffer) is Some <==> !warned && first_missing(views, uniform_buffer)
            is Some,
        warning_of(warned, views, uniform_buffer) is Some ==> warning_of(
            warned_after(warned, views, uniform_buffer),
            later_views,
            later_uniform_buffer,
        ) is None,
        warned ==> warned_after(warned, views, uniform_buffer),
{
}

/// A view with the depth mode and no exponent of its own uses the exponent
/// one in its uniform; so does a view of any other mode.
pub proof fn lemma_depth_power_defaults_to_one(view: PrepassView, delta_time: u32)
    requires
        view.show_prepass is Some,
        view.depth_power is None,
    ensures
        with_uniform(view, delta_time).uniform is Some,
        with_uniform(view, delta_time).uniform.unwrap().depth_power == ONE_BITS,
        with_uniform(view, delta_time).uniform.unwrap().delta_time == delta_time,
{
}

} // verus!
