use bevy_show_prepass::key::{ShowPrepassPipelineKey, ShowPrepassPipelineLayoutKey};
use bevy_show_prepass::layout::{
    init_pipeline, BindingType, LayoutEntry, PrepassLayout, ShaderStage, TextureSampleType,
};
use bevy_show_prepass::mode::{ShowPrepass, ShowPrepassDepthPower, ONE_BITS};
use bevy_show_prepass::node::{DrawCall, ShowPrepassNode};
use bevy_show_prepass::pipeline::{SpecializedPipelines, TargetFormat};
use bevy_show_prepass::prepare::{prepare_bind_groups, prepare_pipelines, prepare_uniforms};
use bevy_show_prepass::view::{
    bind_group_update, is_multisampled, pipeline_key, BindGroupEntry, BindGroupUpdate,
    BindingResource, PrepassView, ShowPrepassBindGroup, ShowPrepassUniform, ViewPrepassTextures,
    Viewport,
};

fn blank_view() -> PrepassView {
    PrepassView {
        show_prepass: None,
        depth_power: None,
        hdr: false,
        msaa_samples: None,
        prepass_textures: None,
        viewport: None,
        uniform_index: None,
        uniform: None,
        pipeline: None,
        bind_group: None,
    }
}

fn uniform_entry() -> LayoutEntry {
    LayoutEntry {
        binding: 0,
        visibility: ShaderStage::Fragment,
        ty: BindingType::UniformBuffer { has_dynamic_offset: true, min_binding_size: 8 },
    }
}

fn texture_entry(sample_type: TextureSampleType, multisampled: bool) -> LayoutEntry {
    LayoutEntry {
        binding: 1,
        visibility: ShaderStage::Fragment,
        ty: BindingType::Texture2d { sample_type, multisampled },
    }
}

fn all_modes() -> [ShowPrepass; 3] {
    [ShowPrepass::Depth, ShowPrepass::Normals, ShowPrepass::MotionVectors]
}

#[test]
fn mode_indices_and_defines() {
    assert_eq!(ShowPrepass::Depth.index(), 0);
    assert_eq!(ShowPrepass::Normals.index(), 1);
    assert_eq!(ShowPrepass::MotionVectors.index(), 2);
    assert_eq!(ShowPrepass::Depth.shader_def(), "SHOW_DEPTH");
    assert_eq!(ShowPrepass::Normals.shader_def(), "SHOW_NORMALS");
    assert_eq!(ShowPrepass::MotionVectors.shader_def(), "SHOW_MOTION_VECTORS");
}

#[test]
fn one_is_the_bit_pattern_of_one() {
    assert_eq!(ONE_BITS, 1.0f32.to_bits());
}

#[test]
fn layout_keys_in_order() {
    let keys = ShowPrepassPipelineLayoutKey::keys();
    let expected = vec![
        ShowPrepassPipelineLayoutKey { show_prepass: ShowPrepass::Depth, multisampled: true },
        ShowPrepassPipelineLayoutKey { show_prepass: ShowPrepass::Depth, multisampled: false },
        ShowPrepassPipelineLayoutKey { show_prepass: ShowPrepass::Normals, multisampled: true },
        ShowPrepassPipelineLayoutKey { show_prepass: ShowPrepass::Normals, multisampled: false },
        ShowPrepassPipelineLayoutKey { show_prepass: ShowPrepass::MotionVectors, multisampled: true },
        ShowPrepassPipelineLayoutKey { show_prepass: ShowPrepass::MotionVectors, multisampled: false },
    ];
    assert_eq!(keys, expected);
}

#[test]
fn layout_key_slots_follow_the_order() {
    let keys = ShowPrepassPipelineLayoutKey::keys();
    for (i, key) in keys.iter().enumerate() {
        assert_eq!(key.slot() as usize, i);
    }
}

#[test]
fn layout_key_of_pipeline_key_drops_hdr() {
    for show_prepass in all_modes() {
        for hdr in [false, true] {
            for multisampled in [false, true] {
                let key = ShowPrepassPipelineKey { show_prepass, hdr, multisampled };
                assert_eq!(
                    key.layout_key(),
                    ShowPrepassPipelineLayoutKey { show_prepass, multisampled }
                );
            }
        }
    }
}

#[test]
fn layout_cache_holds_one_layout_per_key() {
    let pipeline = init_pipeline();
    assert_eq!(pipeline.layout_count(), 6);
    for key in ShowPrepassPipelineLayoutKey::keys() {
        assert_eq!(pipeline.layout(key), PrepassLayout::for_key(key));
    }
    assert_eq!(pipeline.layout_count(), 6);
}

#[test]
fn layout_cache_tells_the_keys_apart() {
    let pipeline = init_pipeline();
    let keys = ShowPrepassPipelineLayoutKey::keys();
    let depth_multi = pipeline.layout(keys[0]);
    let depth_single = pipeline.layout(keys[1]);
    let normals_single = pipeline.layout(keys[3]);
    assert_ne!(depth_multi, depth_single);
    assert_ne!(depth_single, normals_single);
    assert_eq!(pipeline.layout(keys[3]), pipeline.layout(keys[5]));
}

#[test]
fn depth_layouts() {
    let pipeline = init_pipeline();
    let single = pipeline.layout(ShowPrepassPipelineLayoutKey {
        show_prepass: ShowPrepass::Depth,
        multisampled: false,
    });
    assert_eq!(
        single,
        PrepassLayout {
            uniform: uniform_entry(),
            texture: texture_entry(TextureSampleType::Depth, false),
        }
    );
    let multi = pipeline.layout(ShowPrepassPipelineLayoutKey {
        show_prepass: ShowPrepass::Depth,
        multisampled: true,
    });
    assert_eq!(
        multi,
        PrepassLayout {
            uniform: uniform_entry(),
            texture: texture_entry(TextureSampleType::Depth, true),
        }
    );
}

#[test]
fn float_layouts() {
    let pipeline = init_pipeline();
    for show_prepass in [ShowPrepass::Normals, ShowPrepass::MotionVectors] {
        for multisampled in [false, true] {
            let layout = pipeline.layout(ShowPrepassPipelineLayoutKey { show_prepass, multisampled });
            assert_eq!(
                layout,
                PrepassLayout {
                    uniform: uniform_entry(),
                    texture: texture_entry(
                        TextureSampleType::Float { filterable: false },
                        multisampled
                    ),
                }
            );
        }
    }
}

#[test]
fn layout_entries_in_binding_order() {
    let layout = PrepassLayout::for_key(ShowPrepassPipelineLayoutKey {
        show_prepass: ShowPrepass::Normals,
        multisampled: true,
    });
    assert_eq!(
        layout.entries(),
        vec![
            uniform_entry(),
            texture_entry(TextureSampleType::Float { filterable: false }, true)
        ]
    );
}

#[test]
fn specialize_normals_standard() {
    let pipeline = init_pipeline();
    let key = ShowPrepassPipelineKey {
        show_prepass: ShowPrepass::Normals,
        hdr: false,
        multisampled: false,
    };
    let description = pipeline.specialize(key);
    assert_eq!(description.label, "show prepass pipeline");
    assert_eq!(description.entry_point, "fragment");
    assert_eq!(description.shader_defs, vec!["SHOW_NORMALS"]);
    assert_eq!(description.format, TargetFormat::Standard);
    assert_eq!(description.layout, pipeline.layout(key.layout_key()));
    assert!(!description.blend);
    assert!(!description.depth_stencil);
}

#[test]
fn specialize_depth_hdr_multisampled() {
    let pipeline = init_pipeline();
    let key = ShowPrepassPipelineKey {
        show_prepass: ShowPrepass::Depth,
        hdr: true,
        multisampled: true,
    };
    let description = pipeline.specialize(key);
    assert_eq!(description.shader_defs, vec!["SHOW_DEPTH", "MULTISAMPLED"]);
    assert_eq!(description.format, TargetFormat::Hdr);
    assert_eq!(
        description.layout,
        PrepassLayout {
            uniform: uniform_entry(),
            texture: texture_entry(TextureSampleType::Depth, true),
        }
    );
}

#[test]
fn specialize_motion_vectors() {
    let pipeline = init_pipeline();
    let key = ShowPrepassPipelineKey {
        show_prepass: ShowPrepass::MotionVectors,
        hdr: true,
        multisampled: false,
    };
    let description = pipeline.specialize(key);
    assert_eq!(description.shader_defs, vec!["SHOW_MOTION_VECTORS"]);
    assert_eq!(description.format, TargetFormat::Hdr);
}

#[test]
fn specializer_returns_the_same_identifier() {
    let pipeline = init_pipeline();
    let mut pipelines = SpecializedPipelines::new();
    assert_eq!(pipelines.len(), 0);
    for show_prepass in all_modes() {
        for hdr in [false, true] {
            for multisampled in [false, true] {
                let key = ShowPrepassPipelineKey { show_prepass, hdr, multisampled };
                assert_eq!(pipelines.get(key), None);
                let first = pipelines.specialize(&pipeline, key);
                assert!(first.queued.is_some());
                let second = pipelines.specialize(&pipeline, key);
                assert!(second.queued.is_none());
                assert_eq!(first.id, second.id);
                assert_eq!(pipelines.get(key), Some(first.id));
            }
        }
    }
    assert_eq!(pipelines.len(), 12);
}

#[test]
fn specializer_numbers_keys_as_they_come() {
    let pipeline = init_pipeline();
    let mut pipelines = SpecializedPipelines::new();
    let a = ShowPrepassPipelineKey { show_prepass: ShowPrepass::Normals, hdr: false, multisampled: false };
    let b = ShowPrepassPipelineKey { show_prepass: ShowPrepass::Normals, hdr: true, multisampled: false };
    assert_eq!(pipelines.specialize(&pipeline, a).id, 0);
    assert_eq!(pipelines.specialize(&pipeline, b).id, 1);
    assert_eq!(pipelines.specialize(&pipeline, a).id, 0);
    let queued = pipelines.specialize(&pipeline, b).queued;
    assert!(queued.is_none());
    assert_eq!(pipelines.len(), 2);
}

#[test]
fn specializer_queues_the_description_of_the_key() {
    let pipeline = init_pipeline();
    let mut pipelines = SpecializedPipelines::new();
    let key = ShowPrepassPipelineKey { show_prepass: ShowPrepass::Depth, hdr: false, multisampled: true };
    let outcome = pipelines.specialize(&pipeline, key);
    let description = outcome.queued.unwrap();
    assert_eq!(description.shader_defs, vec!["SHOW_DEPTH", "MULTISAMPLED"]);
    assert_eq!(description.format, TargetFormat::Standard);
}

#[test]
fn multisampled_needs_more_than_one_sample() {
    assert!(!is_multisampled(None));
    assert!(!is_multisampled(Some(0)));
    assert!(!is_multisampled(Some(1)));
    assert!(is_multisampled(Some(2)));
    assert!(is_multisampled(Some(4)));
    assert!(is_multisampled(Some(8)));
}

#[test]
fn pipeline_key_of_a_view() {
    assert_eq!(
        pipeline_key(ShowPrepass::MotionVectors, true, Some(4)),
        ShowPrepassPipelineKey { show_prepass: ShowPrepass::MotionVectors, hdr: true, multisampled: true }
    );
    assert_eq!(
        pipeline_key(ShowPrepass::Depth, false, Some(1)),
        ShowPrepassPipelineKey { show_prepass: ShowPrepass::Depth, hdr: false, multisampled: false }
    );
}

#[test]
fn uniform_defaults_to_power_one() {
    let uniform = ShowPrepassUniform::new(None, 0.016f32.to_bits());
    assert_eq!(f32::from_bits(uniform.depth_power), 1.0);
    assert_eq!(f32::from_bits(uniform.delta_time), 0.016);
}

#[test]
fn uniform_takes_the_power_of_the_view() {
    let uniform = ShowPrepassUniform::new(Some(ShowPrepassDepthPower(0.75f32.to_bits())), 0.5f32.to_bits());
    assert_eq!(f32::from_bits(uniform.depth_power), 0.75);
    assert_eq!(f32::from_bits(uniform.delta_time), 0.5);
}

#[test]
fn depth_view_without_power_uses_one() {
    let mut views = vec![PrepassView { show_prepass: Some(ShowPrepass::Depth), ..blank_view() }];
    prepare_uniforms(&mut views, 0.25f32.to_bits());
    let uniform = views[0].uniform.unwrap();
    assert_eq!(f32::from_bits(uniform.depth_power), 1.0);
    assert_eq!(f32::from_bits(uniform.delta_time), 0.25);
}

#[test]
fn prepare_uniforms_passes_over_untagged_views() {
    let stale = ShowPrepassUniform { depth_power: 7, delta_time: 9 };
    let untagged = PrepassView {
        depth_power: Some(ShowPrepassDepthPower(2.0f32.to_bits())),
        uniform: Some(stale),
        ..blank_view()
    };
    let tagged = PrepassView {
        show_prepass: Some(ShowPrepass::Normals),
        depth_power: Some(ShowPrepassDepthPower(2.0f32.to_bits())),
        uniform: Some(stale),
        ..blank_view()
    };
    let mut views = vec![untagged, tagged, blank_view()];
    prepare_uniforms(&mut views, 1.5f32.to_bits());
    assert_eq!(views[0], untagged);
    assert_eq!(
        views[1],
        PrepassView {
            uniform: Some(ShowPrepassUniform {
                depth_power: 2.0f32.to_bits(),
                delta_time: 1.5f32.to_bits()
            }),
            ..tagged
        }
    );
    assert_eq!(views[2], blank_view());
}

#[test]
fn prepare_pipelines_shares_identifiers_between_views() {
    let pipeline = init_pipeline();
    let mut pipelines = SpecializedPipelines::new();
    let normals = PrepassView { show_prepass: Some(ShowPrepass::Normals), ..blank_view() };
    let depth_hdr = PrepassView {
        show_prepass: Some(ShowPrepass::Depth),
        hdr: true,
        msaa_samples: Some(4),
        ..blank_view()
    };
    let untagged = PrepassView { pipeline: Some(77), hdr: true, ..blank_view() };
    let mut views = vec![normals, untagged, depth_hdr, normals];
    let queued = prepare_pipelines(&mut views, &mut pipelines, &pipeline);
    assert_eq!(views[0].pipeline, Some(0));
    assert_eq!(views[1], untagged);
    assert_eq!(views[2].pipeline, Some(1));
    assert_eq!(views[3].pipeline, Some(0));
    assert_eq!(queued.len(), 2);
    assert_eq!(queued[0].shader_defs, vec!["SHOW_NORMALS"]);
    assert_eq!(queued[0].format, TargetFormat::Standard);
    assert_eq!(queued[1].shader_defs, vec!["SHOW_DEPTH", "MULTISAMPLED"]);
    assert_eq!(queued[1].format, TargetFormat::Hdr);

    let again = prepare_pipelines(&mut views, &mut pipelines, &pipeline);
    assert!(again.is_empty());
    assert_eq!(views[0].pipeline, Some(0));
    assert_eq!(views[2].pipeline, Some(1));
    assert_eq!(pipelines.len(), 2);
}

#[test]
fn bind_group_waits_for_the_uniform_buffer() {
    let pipeline = init_pipeline();
    let textures = ViewPrepassTextures { depth: Some(10), normal: Some(11), motion_vectors: Some(12) };
    assert_eq!(
        bind_group_update(ShowPrepass::Depth, Some(textures), None, None, &pipeline),
        BindGroupUpdate::Keep
    );
    assert_eq!(
        bind_group_update(ShowPrepass::Depth, None, None, None, &pipeline),
        BindGroupUpdate::Keep
    );
}

#[test]
fn bind_group_goes_where_the_texture_is_missing() {
    let pipeline = init_pipeline();
    let textures = ViewPrepassTextures { depth: Some(10), normal: None, motion_vectors: Some(12) };
    assert_eq!(
        bind_group_update(ShowPrepass::Normals, Some(textures), None, Some(5), &pipeline),
        BindGroupUpdate::Remove
    );
    assert_eq!(
        bind_group_update(ShowPrepass::Depth, None, Some(4), Some(5), &pipeline),
        BindGroupUpdate::Remove
    );
}

#[test]
fn bind_group_binds_the_texture_of_the_mode() {
    let pipeline = init_pipeline();
    let textures = ViewPrepassTextures { depth: Some(10), normal: Some(11), motion_vectors: Some(12) };
    let expected = [(ShowPrepass::Depth, 10u64), (ShowPrepass::Normals, 11), (ShowPrepass::MotionVectors, 12)];
    for (show_prepass, texture) in expected {
        for samples in [None, Some(1), Some(4)] {
            let key = ShowPrepassPipelineLayoutKey {
                show_prepass,
                multisampled: is_multisampled(samples),
            };
            assert_eq!(
                bind_group_update(show_prepass, Some(textures), samples, Some(5), &pipeline),
                BindGroupUpdate::Insert(ShowPrepassBindGroup {
                    layout: pipeline.layout(key),
                    uniform: BindGroupEntry { binding: 0, resource: BindingResource::Buffer(5) },
                    texture: BindGroupEntry {
                        binding: 1,
                        resource: BindingResource::TextureView(texture)
                    },
                })
            );
        }
    }
}

#[test]
fn requested_texture_by_mode() {
    let textures = ViewPrepassTextures { depth: None, normal: Some(1), motion_vectors: None };
    assert_eq!(textures.requested(ShowPrepass::Depth), None);
    assert_eq!(textures.requested(ShowPrepass::Normals), Some(1));
    assert_eq!(textures.requested(ShowPrepass::MotionVectors), None);
}

#[test]
fn missing_texture_removes_the_bind_group_and_warns_once() {
    let pipeline = init_pipeline();
    let stale = ShowPrepassBindGroup {
        layout: pipeline.layout(ShowPrepassPipelineLayoutKey {
            show_prepass: ShowPrepass::Depth,
            multisampled: false,
        }),
        uniform: BindGroupEntry { binding: 0, resource: BindingResource::Buffer(5) },
        texture: BindGroupEntry { binding: 1, resource: BindingResource::TextureView(10) },
    };
    let view = PrepassView {
        show_prepass: Some(ShowPrepass::MotionVectors),
        prepass_textures: Some(ViewPrepassTextures { depth: Some(10), normal: None, motion_vectors: None }),
        pipeline: Some(0),
        uniform_index: Some(0),
        bind_group: Some(stale),
        ..blank_view()
    };
    let mut views = vec![view];
    let mut warned = false;
    let warning = prepare_bind_groups(&mut views, Some(5), &pipeline, &mut warned);
    assert_eq!(warning, Some(ShowPrepass::MotionVectors));
    assert!(warned);
    assert_eq!(views[0].bind_group, None);
    assert_eq!(ShowPrepassNode.run(&views[0], true), None);

    let warning = prepare_bind_groups(&mut views, Some(5), &pipeline, &mut warned);
    assert_eq!(warning, None);
    assert!(warned);
    assert_eq!(views[0].bind_group, None);
    assert_eq!(ShowPrepassNode.run(&views[0], true), None);
}

#[test]
fn warning_names_the_first_view_with_a_missing_texture() {
    let pipeline = init_pipeline();
    let complete = ViewPrepassTextures { depth: Some(1), normal: Some(2), motion_vectors: Some(3) };
    let fine = PrepassView {
        show_prepass: Some(ShowPrepass::Depth),
        prepass_textures: Some(complete),
        ..blank_view()
    };
    let no_normals = PrepassView { show_prepass: Some(ShowPrepass::Normals), ..blank_view() };
    let no_depth = PrepassView { show_prepass: Some(ShowPrepass::Depth), ..blank_view() };
    let mut views = vec![blank_view(), fine, no_normals, no_depth];
    let mut warned = false;
    let warning = prepare_bind_groups(&mut views, Some(9), &pipeline, &mut warned);
    assert_eq!(warning, Some(ShowPrepass::Normals));
    assert!(warned);
    assert!(views[1].bind_group.is_some());
    assert_eq!(views[2].bind_group, None);
    assert_eq!(views[3].bind_group, None);
}

#[test]
fn no_warning_while_nothing_is_missing() {
    let pipeline = init_pipeline();
    let complete = ViewPrepassTextures { depth: Some(1), normal: Some(2), motion_vectors: Some(3) };
    let fine = PrepassView {
        show_prepass: Some(ShowPrepass::Depth),
        prepass_textures: Some(complete),
        ..blank_view()
    };
    let no_normals = PrepassView { show_prepass: Some(ShowPrepass::Normals), ..blank_view() };
    let mut warned = false;

    let mut views = vec![fine, blank_view()];
    assert_eq!(prepare_bind_groups(&mut views, Some(9), &pipeline, &mut warned), None);
    assert!(!warned);

    let mut views = vec![no_normals];
    assert_eq!(prepare_bind_groups(&mut views, None, &pipeline, &mut warned), None);
    assert!(!warned);
}

#[test]
fn prepare_bind_groups_keeps_what_it_passes_over() {
    let pipeline = init_pipeline();
    let stale = ShowPrepassBindGroup {
        layout: pipeline.layout(ShowPrepassPipelineLayoutKey {
            show_prepass: ShowPrepass::Depth,
            multisampled: false,
        }),
        uniform: BindGroupEntry { binding: 0, resource: BindingResource::Buffer(5) },
        texture: BindGroupEntry { binding: 1, resource: BindingResource::TextureView(10) },
    };
    let untagged = PrepassView { bind_group: Some(stale), ..blank_view() };
    let tagged = PrepassView {
        show_prepass: Some(ShowPrepass::Normals),
        bind_group: Some(stale),
        ..blank_view()
    };
    let mut warned = false;
    let mut views = vec![untagged, tagged];
    assert_eq!(prepare_bind_groups(&mut views, None, &pipeline, &mut warned), None);
    assert_eq!(views, vec![untagged, tagged]);

    assert_eq!(
        prepare_bind_groups(&mut views, Some(5), &pipeline, &mut warned),
        Some(ShowPrepass::Normals)
    );
    assert_eq!(views[0], untagged);
    assert_eq!(views[1], PrepassView { bind_group: None, ..tagged });
}

#[test]
fn untagged_view_is_not_drawn() {
    let pipeline = init_pipeline();
    let mut pipelines = SpecializedPipelines::new();
    let textures = ViewPrepassTextures { depth: Some(10), normal: Some(11), motion_vectors: Some(12) };
    let tagged = PrepassView {
        show_prepass: Some(ShowPrepass::Depth),
        prepass_textures: Some(textures),
        uniform_index: Some(256),
        ..blank_view()
    };
    let mut views = vec![tagged];
    let mut warned = false;
    prepare_uniforms(&mut views, 0);
    prepare_pipelines(&mut views, &mut pipelines, &pipeline);
    prepare_bind_groups(&mut views, Some(5), &pipeline, &mut warned);
    assert!(ShowPrepassNode.run(&views[0], true).is_some());

    views[0].show_prepass = None;
    let toggled = views[0];
    assert!(toggled.pipeline.is_some());
    assert!(toggled.bind_group.is_some());
    prepare_uniforms(&mut views, 0);
    prepare_pipelines(&mut views, &mut pipelines, &pipeline);
    prepare_bind_groups(&mut views, Some(5), &pipeline, &mut warned);
    assert_eq!(views[0], toggled);
    assert_eq!(ShowPrepassNode.run(&views[0], true), None);
}

#[test]
fn node_needs_every_part() {
    let pipeline = init_pipeline();
    let bind_group = ShowPrepassBindGroup {
        layout: pipeline.layout(ShowPrepassPipelineLayoutKey {
            show_prepass: ShowPrepass::Depth,
            multisampled: false,
        }),
        uniform: BindGroupEntry { binding: 0, resource: BindingResource::Buffer(5) },
        texture: BindGroupEntry { binding: 1, resource: BindingResource::TextureView(10) },
    };
    let viewport = Viewport {
        x: 10,
        y: 20,
        width: 640,
        height: 480,
        min_depth: 0.0f32.to_bits(),
        max_depth: 1.0f32.to_bits(),
    };
    let full = PrepassView {
        show_prepass: Some(ShowPrepass::Depth),
        pipeline: Some(3),
        bind_group: Some(bind_group),
        uniform_index: Some(512),
        viewport: Some(viewport),
        ..blank_view()
    };
    assert_eq!(
        ShowPrepassNode.run(&full, true),
        Some(DrawCall {
            pipeline: 3,
            bind_group,
            dynamic_offset: 512,
            viewport: Some(viewport),
            vertices: 3,
            instances: 1,
        })
    );
    assert_eq!(ShowPrepassNode.run(&full, false), None);
    assert_eq!(ShowPrepassNode.run(&PrepassView { show_prepass: None, ..full }, true), None);
    assert_eq!(ShowPrepassNode.run(&PrepassView { pipeline: None, ..full }, true), None);
    assert_eq!(ShowPrepassNode.run(&PrepassView { bind_group: None, ..full }, true), None);
    assert_eq!(ShowPrepassNode.run(&PrepassView { uniform_index: None, ..full }, true), None);
    let without_viewport = ShowPrepassNode.run(&PrepassView { viewport: None, ..full }, true);
    assert_eq!(without_viewport.unwrap().viewport, None);
}

#[test]
fn normals_view_is_drawn_once_with_the_standard_pipeline() {
    let pipeline = init_pipeline();
    let mut pipelines = SpecializedPipelines::new();
    let mut warned = false;
    let view = PrepassView {
        show_prepass: Some(ShowPrepass::Normals),
        hdr: false,
        msaa_samples: Some(1),
        prepass_textures: Some(ViewPrepassTextures { depth: None, normal: Some(42), motion_vectors: None }),
        uniform_index: Some(0),
        ..blank_view()
    };
    let mut views = vec![view];
    for frame in 0..3u32 {
        prepare_uniforms(&mut views, frame);
        let queued = prepare_pipelines(&mut views, &mut pipelines, &pipeline);
        if frame == 0 {
            assert_eq!(queued.len(), 1);
            assert_eq!(queued[0].shader_defs, vec!["SHOW_NORMALS"]);
            assert_eq!(queued[0].format, TargetFormat::Standard);
            assert_eq!(
                queued[0].layout,
                PrepassLayout {
                    uniform: uniform_entry(),
                    texture: texture_entry(TextureSampleType::Float { filterable: false }, false),
                }
            );
        } else {
            assert!(queued.is_empty());
        }
        let warning = prepare_bind_groups(&mut views, Some(7), &pipeline, &mut warned);
        assert_eq!(warning, None);
        let draws: Vec<DrawCall> =
            views.iter().filter_map(|view| ShowPrepassNode.run(view, true)).collect();
        assert_eq!(draws.len(), 1);
        assert_eq!(draws[0].pipeline, 0);
        assert_eq!(draws[0].vertices, 3);
        assert_eq!(draws[0].instances, 1);
        assert_eq!(
            draws[0].bind_group.texture,
            BindGroupEntry { binding: 1, resource: BindingResource::TextureView(42) }
        );
        assert_eq!(
            views[0].uniform,
            Some(ShowPrepassUniform { depth_power: 1.0f32.to_bits(), delta_time: frame })
        );
    }
    assert!(!warned);
}
