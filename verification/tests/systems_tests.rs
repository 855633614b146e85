use stochastic_texturing::pbr::{
    adapt_standard_material, reset_material, restore_removed_surface, sync_adapted_material,
    SurfaceMaterialSlots, SyncAction,
};
use stochastic_texturing::setup::{
    plan_pbr_asset_setup, plan_pbr_plugin_build, plan_shader_library_setup, AssetStores,
};
use stochastic_texturing::systems::{
    activate_pbr_runtime, activate_runtime, deactivate_pbr_runtime, deactivate_runtime,
    pbr_runtime_is_active, publish_core_diagnostics, publish_pbr_diagnostics, runtime_is_active,
    StochasticPbrRuntimeState, StochasticTexturingRuntimeState,
};
use stochastic_texturing::{
    StochasticBlendMode, StochasticDebugSettings, StochasticQuality, StochasticSamplingMode,
    StochasticTexturing, StochasticTexturingDiagnostics, StochasticUvSpace,
};

type Slots = SurfaceMaterialSlots<&'static str, u32>;

fn standard_surface(material: &'static str) -> Slots {
    SurfaceMaterialSlots { has_surface: true, standard: Some(material), adapted: None, binding: None }
}

#[test]
fn diagnostics_count_public_authoring_and_pbr_surfaces() {
    let surfaces = vec![StochasticTexturing::default(), StochasticTexturing::default()];
    // "Hex Wall" has a loaded standard material; "Height Surface" has none.
    let hex_wall = adapt_standard_material(standard_surface("wall"), Some(1u32));
    let height_surface: Slots =
        adapt_standard_material(SurfaceMaterialSlots {
            has_surface: true,
            standard: None,
            adapted: None,
            binding: None,
        }, None);
    let bound = [&hex_wall, &height_surface].iter().filter(|s| s.binding.is_some()).count();

    let mut diagnostics = StochasticTexturingDiagnostics::default();
    publish_core_diagnostics(&surfaces, 1, &StochasticDebugSettings::default(), &mut diagnostics);
    publish_pbr_diagnostics(bound, &mut diagnostics);

    assert_eq!(diagnostics.active_surfaces, 2);
    assert_eq!(diagnostics.active_height_maps, 1);
    assert_eq!(diagnostics.active_pbr_surfaces, 1);
    assert!(diagnostics.estimated_base_sample_count >= 6);
}

#[test]
fn removing_stochastic_texturing_restores_standard_material_slot() {
    let entity = standard_surface("restored_wall");
    let entity = adapt_standard_material(entity, Some(5u32));
    assert_eq!(entity.adapted, Some(5));

    let entity = SurfaceMaterialSlots { has_surface: false, ..entity };
    let entity = restore_removed_surface(entity);
    assert_eq!(entity.standard, Some("restored_wall"));
    assert!(entity.adapted.is_none());
    assert!(entity.binding.is_none());
}

#[test]
fn adaptation_records_source_and_adapted_material() {
    let entity = adapt_standard_material(standard_surface("brick"), Some(3u32));
    assert!(entity.standard.is_none());
    let binding = entity.binding.expect("bound");
    assert_eq!(binding.source_material, "brick");
    assert_eq!(binding.adapted_material, 3);
}

#[test]
fn adaptation_waits_for_the_source_material() {
    let entity = adapt_standard_material(standard_surface("brick"), None);
    assert_eq!(entity.standard, Some("brick"));
    assert!(entity.adapted.is_none());
    assert!(entity.binding.is_none());
}

#[test]
fn adapting_twice_keeps_the_first_binding() {
    let once = adapt_standard_material(standard_surface("brick"), Some(3u32));
    let twice = adapt_standard_material(once.clone(), Some(8u32));
    assert_eq!(twice.adapted, Some(3));
    assert_eq!(twice.binding.map(|b| b.adapted_material), Some(3));
}

#[test]
fn restoring_leaves_surfaces_that_remain() {
    let adapted = adapt_standard_material(standard_surface("brick"), Some(3u32));
    let after = restore_removed_surface(adapted.clone());
    assert_eq!(after.adapted, Some(3));
    assert!(after.binding.is_some());
    assert!(after.standard.is_none());
}

#[test]
fn reset_restores_even_with_surface() {
    let adapted = adapt_standard_material(standard_surface("brick"), Some(3u32));
    let after = reset_material(adapted);
    assert!(after.has_surface);
    assert_eq!(after.standard, Some("brick"));
    assert!(after.adapted.is_none());
    assert!(after.binding.is_none());
}

#[test]
fn sync_decisions() {
    assert_eq!(sync_adapted_material(false, true, true), SyncAction::Skip);
    assert_eq!(sync_adapted_material(true, false, true), SyncAction::Skip);
    assert_eq!(sync_adapted_material(true, true, false), SyncAction::RefreshExtension);
    assert_eq!(sync_adapted_material(true, true, true), SyncAction::RefreshBaseAndExtension);
}

#[test]
fn runtime_activation_round_trip() {
    let mut core = StochasticTexturingRuntimeState::default();
    assert!(!runtime_is_active(&core));
    activate_runtime(&mut core);
    assert!(runtime_is_active(&core));
    deactivate_runtime(&mut core);
    assert!(!runtime_is_active(&core));

    let mut pbr = StochasticPbrRuntimeState::default();
    assert!(!pbr_runtime_is_active(&pbr));
    activate_pbr_runtime(&mut pbr);
    assert!(pbr_runtime_is_active(&pbr));
    deactivate_pbr_runtime(&mut pbr);
    assert!(!pbr_runtime_is_active(&pbr));
}

#[test]
fn core_diagnostics_count_categories() {
    let surfaces = vec![
        StochasticTexturing {
            uv_space: StochasticUvSpace::WorldTriplanar,
            sampling_mode: StochasticSamplingMode::TextureBombing,
            ..StochasticTexturing::default()
        },
        StochasticTexturing {
            quality: StochasticQuality::HighQuality,
            sampling_mode: StochasticSamplingMode::HistogramPreserving,
            ..StochasticTexturing::default()
        },
        StochasticTexturing {
            blend_mode: StochasticBlendMode::HistogramPreserving,
            sampling_mode: StochasticSamplingMode::Off,
            ..StochasticTexturing::default()
        },
    ];
    let mut diagnostics = StochasticTexturingDiagnostics::default();
    diagnostics.active_pbr_surfaces = 7;
    diagnostics.world_triplanar_surfaces = 99;
    let debug = StochasticDebugSettings { enabled: true, ..StochasticDebugSettings::default() };
    publish_core_diagnostics(&surfaces, 0, &debug, &mut diagnostics);
    assert_eq!(diagnostics.active_surfaces, 3);
    assert_eq!(diagnostics.active_height_maps, 0);
    assert_eq!(diagnostics.world_triplanar_surfaces, 1);
    assert_eq!(diagnostics.high_quality_surfaces, 1);
    assert_eq!(diagnostics.histogram_preserving_surfaces, 2);
    assert_eq!(diagnostics.estimated_base_sample_count, 4 + 3 + 1);
    assert_eq!(diagnostics.debug_views_enabled, 1);
    assert!(diagnostics.has_debug_view());
    assert_eq!(diagnostics.active_pbr_surfaces, 7);
}

#[test]
fn empty_scene_publishes_zero_counts() {
    let mut diagnostics = StochasticTexturingDiagnostics::default();
    diagnostics.estimated_base_sample_count = 12;
    publish_core_diagnostics(&[], 0, &StochasticDebugSettings::default(), &mut diagnostics);
    assert_eq!(diagnostics.active_surfaces, 0);
    assert_eq!(diagnostics.estimated_base_sample_count, 0);
    assert!(!diagnostics.has_debug_view());
}

#[test]
fn pbr_diagnostics_only_touch_their_count() {
    let mut diagnostics = StochasticTexturingDiagnostics::default();
    diagnostics.active_surfaces = 4;
    publish_pbr_diagnostics(2, &mut diagnostics);
    assert_eq!(diagnostics.active_pbr_surfaces, 2);
    assert_eq!(diagnostics.active_surfaces, 4);
}

#[test]
fn headless_setup_inserts_missing_stores() {
    let stores = AssetStores {
        asset_server: false,
        images: true,
        shaders: false,
        standard_materials: false,
        pbr_materials: false,
    };
    let plan = plan_pbr_asset_setup(stores);
    assert!(!plan.library.init_shaders);
    assert!(!plan.library.load_library_shaders);
    assert!(!plan.load_adapter);
    assert!(!plan.insert_images);
    assert!(plan.insert_standard_materials);
    assert!(plan.insert_pbr_materials);
}

#[test]
fn asset_server_setup_initialises_through_the_server() {
    let stores = AssetStores {
        asset_server: true,
        images: false,
        shaders: false,
        standard_materials: true,
        pbr_materials: false,
    };
    let library = plan_shader_library_setup(stores);
    assert!(library.init_shaders);
    assert!(library.load_library_shaders);
    let plan = plan_pbr_asset_setup(stores);
    assert_eq!(plan.library, library);
    assert!(plan.init_images);
    assert!(!plan.init_shaders);
    assert!(!plan.init_standard_materials);
    assert!(plan.load_adapter);
    assert!(!plan.insert_images && !plan.insert_standard_materials && !plan.insert_pbr_materials);
}

#[test]
fn adapter_plugin_adds_core_plugin_only_when_missing() {
    let fresh = plan_pbr_plugin_build(false, true);
    assert!(fresh.add_core_plugin);
    assert!(fresh.init_never_schedule);
    let existing = plan_pbr_plugin_build(true, false);
    assert!(!existing.add_core_plugin);
    assert!(!existing.init_never_schedule);
}

#[test]
fn publishing_twice_equals_publishing_once() {
    let surfaces = vec![StochasticTexturing::default(), StochasticTexturing {
        quality: StochasticQuality::HighQuality,
        ..StochasticTexturing::default()
    }];
    let debug = StochasticDebugSettings { enabled: true, ..StochasticDebugSettings::default() };
    let mut diagnostics = StochasticTexturingDiagnostics::default();
    diagnostics.active_pbr_surfaces = 3;
    diagnostics.high_quality_surfaces = 50;
    publish_core_diagnostics(&surfaces, 2, &debug, &mut diagnostics);
    let once = diagnostics;
    publish_core_diagnostics(&surfaces, 2, &debug, &mut diagnostics);
    assert_eq!(diagnostics, once);
    assert_eq!(diagnostics.active_pbr_surfaces, 3);
    assert_eq!(diagnostics.high_quality_surfaces, 1);
    assert!(diagnostics.has_debug_view());
}

#[test]
fn adapter_leaves_entities_it_does_not_take_over() {
    let without_surface: Slots = SurfaceMaterialSlots {
        has_surface: false,
        standard: Some("brick"),
        adapted: None,
        binding: None,
    };
    let after = adapt_standard_material(without_surface.clone(), Some(4u32));
    assert!(!after.has_surface);
    assert_eq!(after.standard, Some("brick"));
    assert!(after.adapted.is_none());
    assert!(after.binding.is_none());
}
