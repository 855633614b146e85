use stochastic_texturing::{
    StochasticBlendMode, StochasticDebugSettings, StochasticDebugView, StochasticHeightMap,
    StochasticNormalMapMode, StochasticQuality, StochasticRotationMode, StochasticSamplingMode,
    StochasticTexturing, StochasticUvSpace, TextureChannel,
};

#[test]
fn stochastic_defaults_match_mvp_direction() {
    let settings = StochasticTexturing::default();

    assert!(settings.enabled);
    assert_eq!(settings.sampling_mode, StochasticSamplingMode::Hex3);
    assert_eq!(settings.blend_mode, StochasticBlendMode::HeightAware);
    assert_eq!(settings.quality, StochasticQuality::Balanced);
    assert_eq!(settings.uv_space, StochasticUvSpace::MeshUv0);
    assert_eq!(settings.rotation_mode, StochasticRotationMode::RotateMirror);
    assert_eq!(
        (f32::from_bits(settings.base_scale_x_bits), f32::from_bits(settings.base_scale_y_bits)),
        (1.0, 1.0)
    );
    assert!(settings.uses_height_map());
}

#[test]
fn debug_defaults_start_disabled() {
    let settings = StochasticDebugSettings::default();
    assert!(!settings.enabled);
    assert!(settings.show_overlay);
}

#[test]
fn height_map_constructor_uses_luminance_channel() {
    let image = String::from("height.png");
    let map = StochasticHeightMap::new(image);
    assert_eq!(map.channel, TextureChannel::Luminance);
    assert_eq!(f32::from_bits(map.remap_min_bits), 0.0);
    assert_eq!(f32::from_bits(map.remap_max_bits), 1.0);
}

#[test]
fn surface_defaults_carry_documented_real_values() {
    let settings = StochasticTexturing::default();
    assert_eq!(settings.normal_map_mode, StochasticNormalMapMode::RotateTangentSpace);
    assert_eq!(f32::from_bits(settings.variation_strength_bits), 1.0);
    assert_eq!(f32::from_bits(settings.blend_softness_bits), 0.35);
    assert_eq!(f32::from_bits(settings.height_blend_strength_bits), 0.65);
    assert_eq!(f32::from_bits(settings.sample_cull_threshold_bits), 0.08);
    assert_eq!(f32::from_bits(settings.mip_bias_bits), 0.0);
    assert_eq!(settings.seed, 1);
}

#[test]
fn height_map_constructor_keeps_image_and_unit_amplitude() {
    let map = StochasticHeightMap::new(42u64);
    assert_eq!(map.image, 42);
    assert_eq!(f32::from_bits(map.amplitude_bits), 1.0);
}

#[test]
fn enum_defaults_follow_surface_defaults() {
    assert_eq!(StochasticSamplingMode::default(), StochasticSamplingMode::Hex3);
    assert_eq!(StochasticBlendMode::default(), StochasticBlendMode::HeightAware);
    assert_eq!(StochasticQuality::default(), StochasticQuality::Balanced);
    assert_eq!(StochasticUvSpace::default(), StochasticUvSpace::MeshUv0);
    assert_eq!(StochasticRotationMode::default(), StochasticRotationMode::RotateMirror);
    assert_eq!(
        StochasticNormalMapMode::default(),
        StochasticNormalMapMode::RotateTangentSpace
    );
    assert_eq!(TextureChannel::default(), TextureChannel::Luminance);
    assert_eq!(StochasticDebugView::default(), StochasticDebugView::Off);
    let debug = StochasticDebugSettings::default();
    assert_eq!(debug.view, StochasticDebugView::Off);
    assert!(!debug.show_surface_bounds);
    assert!(!debug.freeze_seed);
}

#[test]
fn expected_sample_count_per_sampling_mode() {
    let cases = [
        (StochasticSamplingMode::Off, 1),
        (StochasticSamplingMode::Checker2, 2),
        (StochasticSamplingMode::Hex3, 3),
        (StochasticSamplingMode::HistogramPreserving, 3),
        (StochasticSamplingMode::Wang, 3),
        (StochasticSamplingMode::TextureBombing, 4),
    ];
    for (mode, expected) in cases {
        let surface = StochasticTexturing { sampling_mode: mode, ..StochasticTexturing::default() };
        assert_eq!(surface.expected_sample_count_per_map(), expected);
    }
}

#[test]
fn only_linear_blending_skips_the_height_map() {
    let linear = StochasticTexturing {
        blend_mode: StochasticBlendMode::Linear,
        ..StochasticTexturing::default()
    };
    let histogram = StochasticTexturing {
        blend_mode: StochasticBlendMode::HistogramPreserving,
        ..StochasticTexturing::default()
    };
    assert!(!linear.uses_height_map());
    assert!(histogram.uses_height_map());
}

#[test]
fn surface_equality_follows_f32_equality() {
    let positive = StochasticTexturing { mip_bias_bits: 0.0f32.to_bits(), ..StochasticTexturing::default() };
    let negative = StochasticTexturing { mip_bias_bits: (-0.0f32).to_bits(), ..StochasticTexturing::default() };
    assert!(positive == negative);

    let nan = StochasticTexturing { blend_softness_bits: f32::NAN.to_bits(), ..StochasticTexturing::default() };
    assert!(nan != nan);

    let other_seed = StochasticTexturing { seed: 2, ..StochasticTexturing::default() };
    assert!(StochasticTexturing::default() == StochasticTexturing::default());
    assert!(other_seed != StochasticTexturing::default());

    let infinite = StochasticTexturing { variation_strength_bits: f32::INFINITY.to_bits(), ..StochasticTexturing::default() };
    assert!(infinite == infinite);
}
