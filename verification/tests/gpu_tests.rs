use stochastic_texturing::gpu::{
    blend_mode_to_u32, height_signal, normal_map_mode_to_u32, quality_to_u32,
    rotation_mode_to_u32, sampling_mode_to_u32, texture_channel_to_u32, uv_space_to_u32, U32x4,
    STATE_ENABLED, STATE_HEIGHT_PRESENT,
};
use stochastic_texturing::{
    StochasticBlendMode, StochasticHeightMap, StochasticNormalMapMode, StochasticQuality,
    StochasticRotationMode, StochasticSamplingMode, StochasticShaderUniform,
    StochasticTexturing, StochasticTexturingMaterialExtension, StochasticUvSpace, TextureChannel,
};

#[test]
fn mode_codes_match_shader_constants() {
    assert_eq!(sampling_mode_to_u32(StochasticSamplingMode::Off), 0);
    assert_eq!(sampling_mode_to_u32(StochasticSamplingMode::Checker2), 1);
    assert_eq!(sampling_mode_to_u32(StochasticSamplingMode::Hex3), 2);
    assert_eq!(sampling_mode_to_u32(StochasticSamplingMode::HistogramPreserving), 3);
    assert_eq!(sampling_mode_to_u32(StochasticSamplingMode::TextureBombing), 4);
    assert_eq!(sampling_mode_to_u32(StochasticSamplingMode::Wang), 5);
    assert_eq!(blend_mode_to_u32(StochasticBlendMode::Linear), 0);
    assert_eq!(blend_mode_to_u32(StochasticBlendMode::HeightAware), 1);
    assert_eq!(blend_mode_to_u32(StochasticBlendMode::HistogramPreserving), 2);
    assert_eq!(quality_to_u32(StochasticQuality::Fast), 0);
    assert_eq!(quality_to_u32(StochasticQuality::Balanced), 1);
    assert_eq!(quality_to_u32(StochasticQuality::HighQuality), 2);
    assert_eq!(uv_space_to_u32(StochasticUvSpace::MeshUv0), 0);
    assert_eq!(uv_space_to_u32(StochasticUvSpace::MeshUv1), 1);
    assert_eq!(uv_space_to_u32(StochasticUvSpace::WorldTriplanar), 2);
    assert_eq!(rotation_mode_to_u32(StochasticRotationMode::NoRotation), 0);
    assert_eq!(rotation_mode_to_u32(StochasticRotationMode::Rotate60), 1);
    assert_eq!(rotation_mode_to_u32(StochasticRotationMode::RotateMirror), 2);
    assert_eq!(normal_map_mode_to_u32(StochasticNormalMapMode::Disabled), 0);
    assert_eq!(normal_map_mode_to_u32(StochasticNormalMapMode::RotateTangentSpace), 1);
    assert_eq!(normal_map_mode_to_u32(StochasticNormalMapMode::DerivativeReconstruction), 2);
    assert_eq!(texture_channel_to_u32(TextureChannel::Red), 0);
    assert_eq!(texture_channel_to_u32(TextureChannel::Green), 1);
    assert_eq!(texture_channel_to_u32(TextureChannel::Blue), 2);
    assert_eq!(texture_channel_to_u32(TextureChannel::Alpha), 3);
    assert_eq!(texture_channel_to_u32(TextureChannel::Luminance), 4);
}

#[test]
fn default_surface_without_height_map_packs_neutral_signal() {
    let surface = StochasticTexturing::default();
    let uniform = StochasticShaderUniform::from_surface::<u32>(&surface, None);
    assert_eq!(uniform.state, U32x4 { x: STATE_ENABLED, y: 2, z: 1, w: 1 });
    assert_eq!(uniform.space, U32x4 { x: 0, y: 2, z: 1, w: 4 });
    assert_eq!(uniform.seed, U32x4 { x: 1, y: 0, z: 0, w: 0 });
    assert_eq!(f32::from_bits(uniform.remap.x), 0.0);
    assert_eq!(f32::from_bits(uniform.remap.y), 1.0);
    assert_eq!(uniform.remap.z, 0);
    assert_eq!(uniform.remap.w, 0);
    assert!(uniform.enabled());
}

#[test]
fn height_map_parameters_reach_the_uniform() {
    let surface = StochasticTexturing {
        enabled: false,
        sampling_mode: StochasticSamplingMode::TextureBombing,
        blend_mode: StochasticBlendMode::Linear,
        quality: StochasticQuality::HighQuality,
        uv_space: StochasticUvSpace::WorldTriplanar,
        rotation_mode: StochasticRotationMode::Rotate60,
        normal_map_mode: StochasticNormalMapMode::Disabled,
        seed: 77,
        ..StochasticTexturing::default()
    };
    let map = StochasticHeightMap {
        image: 9u32,
        channel: TextureChannel::Alpha,
        amplitude_bits: 2.5f32.to_bits(),
        remap_min_bits: 0.25f32.to_bits(),
        remap_max_bits: 0.75f32.to_bits(),
    };
    let uniform = StochasticShaderUniform::from_surface(&surface, Some(&map));
    assert_eq!(uniform.state, U32x4 { x: STATE_HEIGHT_PRESENT, y: 4, z: 0, w: 2 });
    assert_eq!(uniform.space, U32x4 { x: 2, y: 1, z: 0, w: 3 });
    assert_eq!(uniform.seed.x, 77);
    assert_eq!(f32::from_bits(uniform.remap.x), 0.25);
    assert_eq!(f32::from_bits(uniform.remap.y), 0.75);
    assert!(!uniform.enabled());

    let signal = height_signal(Some(&map));
    assert_eq!(signal.channel, TextureChannel::Alpha);
    assert_eq!(f32::from_bits(signal.amplitude_bits), 2.5);
}

#[test]
fn enabled_surface_with_height_map_sets_both_flags() {
    let surface = StochasticTexturing::default();
    let map = StochasticHeightMap::new(1u8);
    let uniform = StochasticShaderUniform::from_surface(&surface, Some(&map));
    assert_eq!(uniform.state.x, STATE_ENABLED | STATE_HEIGHT_PRESENT);
    assert!(uniform.enabled());
}

#[test]
fn neutral_height_signal_without_map() {
    let signal = height_signal::<u8>(None);
    assert_eq!(signal.channel, TextureChannel::Luminance);
    assert_eq!(f32::from_bits(signal.amplitude_bits), 1.0);
    assert_eq!(f32::from_bits(signal.remap_min_bits), 0.0);
    assert_eq!(f32::from_bits(signal.remap_max_bits), 1.0);
}

#[test]
fn material_extension_carries_uniform_and_height_image() {
    let surface = StochasticTexturing::default();
    let map = StochasticHeightMap::new(String::from("rock_height"));
    let extension = StochasticTexturingMaterialExtension::from_surface(&surface, Some(&map));
    assert_eq!(extension.height_map, Some(String::from("rock_height")));
    assert_eq!(extension.uniform, StochasticShaderUniform::from_surface(&surface, Some(&map)));

    let bare = StochasticTexturingMaterialExtension::<String>::from_surface(&surface, None);
    assert_eq!(bare.height_map, None);
    assert_eq!(bare.uniform.state.x, STATE_ENABLED);
}
