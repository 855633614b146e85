//! Packing of per-surface settings into the integer lanes of the shader
//! uniform.
//!
//! The uniform the shaders read holds six four-component lanes. Three
//! (`state`, `space`, `seed`) are integers; `remap` holds `f32` bit patterns
//! that are selected, never computed, here. The two remaining lanes clamp
//! real-valued settings and are filled in by the renderer.

use vstd::prelude::*;

use crate::components::{StochasticHeightMap, StochasticTexturing, F32_ONE_BITS, F32_ZERO_BITS};
use crate::config::{
    StochasticBlendMode, StochasticNormalMapMode, StochasticQuality, StochasticRotationMode,
    StochasticSamplingMode, StochasticUvSpace, TextureChannel,
};

verus! {

/// Bit of `state.x` set when the surface is enabled.
pub const STATE_ENABLED: u32 = 1;

/// Bit of `state.x` set when a height map accompanies the surface.
pub const STATE_HEIGHT_PRESENT: u32 = 2;

/// Four `u32` lanes, laid out as a shader `vec4<u32>`.
#[derive(Clone, Copy, Debug, PartialEq, Eq, Structural)]
pub struct U32x4 {
    pub x: u32,
    pub y: u32,
    pub z: u32,
    pub w: u32,
}

/// The height signal a surface is shaded with: the parameters of its height
/// map, or the neutral luminance signal with unit amplitude and identity
/// remap when it has none.
#[derive(Clone, Copy, Debug, PartialEq, Eq, Structural)]
pub struct HeightSignal {
    pub channel: TextureChannel,
    /// `f32` bits of the height contrast multiplier.
    pub amplitude_bits: u32,
    /// `f32` bits of the remap floor.
    pub remap_min_bits: u32,
    /// `f32` bits of the remap ceiling.
    pub remap_max_bits: u32,
}

pub open spec fn spec_height_signal<H>(height_map: Option<&StochasticHeightMap<H>>) -> HeightSignal {
    match height_map {
        Some(map) => HeightSignal {
            channel: map.channel,
            amplitude_bits: map.amplitude_bits,
            remap_min_bits: map.remap_min_bits,
            remap_max_bits: map.remap_max_bits,
        },
        None => HeightSignal {
            channel: TextureChannel::Luminance,
            amplitude_bits: F32_ONE_BITS,
            remap_min_bits: F32_ZERO_BITS,
            remap_max_bits: F32_ONE_BITS,
        },
    }
}

/// The height signal of `height_map`, or the neutral signal when absent.
pub fn height_signal<H>(height_map: Option<&StochasticHeightMap<H>>) -> (signal: HeightSignal)
    ensures
        signal == spec_height_signal(height_map),
{
    match height_map {
        Some(map) => HeightSignal {
            channel: map.channel,
            amplitude_bits: map.amplitude_bits,
            remap_min_bits: map.remap_min_bits,
            remap_max_bits: map.remap_max_bits,
        },
        None => HeightSignal {
            channel: TextureChannel::Luminance,
            amplitude_bits: F32_ONE_BITS,
            remap_min_bits: F32_ZERO_BITS,
            remap_max_bits: F32_ONE_BITS,
        },
    }
}

pub open spec fn spec_sampling_mode_code(mode: StochasticSamplingMode) -> u32 {
    match mode {
        StochasticSamplingMode::Off => 0,
        StochasticSamplingMode::Checker2 => 1,
        StochasticSamplingMode::Hex3 => 2,
        StochasticSamplingMode::HistogramPreserving => 3,
        StochasticSamplingMode::TextureBombing => 4,
        StochasticSamplingMode::Wang => 5,
    }
}

pub open spec fn spec_blend_mode_code(mode: StochasticBlendMode) -> u32 {
    match mode {
        StochasticBlendMode::Linear => 0,
        StochasticBlendMode::HeightAware => 1,
        StochasticBlendMode::HistogramPreserving => 2,
    }
}

pub open spec fn spec_quality_code(quality: StochasticQuality) -> u32 {
    match quality {
        StochasticQuality::Fast => 0,
        StochasticQuality::Balanced => 1,
        StochasticQuality::HighQuality => 2,
    }
}

pub open spec fn spec_uv_space_code(space: StochasticUvSpace) -> u32 {
    match space {
        StochasticUvSpace::MeshUv0 => 0,
        StochasticUvSpace::MeshUv1 => 1,
        StochasticUvSpace::WorldTriplanar => 2,
    }
}

pub open spec fn spec_rotation_mode_code(mode: StochasticRotationMode) -> u32 {
    match mode {
        StochasticRotationMode::NoRotation => 0,
        StochasticRotationMode::Rotate60 => 1,
        StochasticRotationMode::RotateMirror => 2,
    }
}

pub open spec fn spec_normal_map_mode_code(mode: StochasticNormalMapMode) -> u32 {
    match mode {
        StochasticNormalMapMode::Disabled => 0,
        StochasticNormalMapMode::RotateTangentSpace => 1,
        StochasticNormalMapMode::DerivativeReconstruction => 2,
    }
}

pub open spec fn spec_texture_channel_code(channel: TextureChannel) -> u32 {
    match channel {
        TextureChannel::Red => 0,
        TextureChannel::Green => 1,
        TextureChannel::Blue => 2,
        TextureChannel::Alpha => 3,
        TextureChannel::Luminance => 4,
    }
}

/// Shader code of a sampling mode.
pub fn sampling_mode_to_u32(mode: StochasticSamplingMode) -> (code: u32)
    ensures
        code == spec_sampling_mode_code(mode),
{
    match mode {
        StochasticSamplingMode::Off => 0,
        StochasticSamplingMode::Checker2 => 1,
        StochasticSamplingMode::Hex3 => 2,
        StochasticSamplingMode::HistogramPreserving => 3,
        StochasticSamplingMode::TextureBombing => 4,
        StochasticSamplingMode::Wang => 5,
    }
}

/// Shader code of a blend mode.
pub fn blend_mode_to_u32(mode: StochasticBlendMode) -> (code: u32)
    ensures
        code == spec_blend_mode_code(mode),
{
    match mode {
        StochasticBlendMode::Linear => 0,
        StochasticBlendMode::HeightAware => 1,
        StochasticBlendMode::HistogramPreserving => 2,
    }
}

/// Shader code of a quality tier.
pub fn quality_to_u32(quality: StochasticQuality) -> (code: u32)
    ensures
        code == spec_quality_code(quality),
{
    match quality {
        StochasticQuality::Fast => 0,
        StochasticQuality::Balanced => 1,
        StochasticQuality::HighQuality => 2,
    }
}

/// Shader code of a UV space.
pub fn uv_space_to_u32(space: StochasticUvSpace) -> (code: u32)
    ensures
        code == spec_uv_space_code(space),
{
    match space {
        StochasticUvSpace::MeshUv0 => 0,
        StochasticUvSpace::MeshUv1 => 1,
        StochasticUvSpace::WorldTriplanar => 2,
    }
}

/// Shader code of a rotation mode.
pub fn rotation_mode_to_u32(mode: StochasticRotationMode) -> (code: u32)
    ensures
        code == spec_rotation_mode_code(mode),
{
    match mode {
        StochasticRotationMode::NoRotation => 0,
        StochasticRotationMode::Rotate60 => 1,
        StochasticRotationMode::RotateMirror => 2,
    }
}

/// Shader code of a normal-map mode.
pub fn normal_map_mode_to_u32(mode: StochasticNormalMapMode) -> (code: u32)
    ensures
        code == spec_normal_map_mode_code(mode),
{
    match mode {
        StochasticNormalMapMode::Disabled => 0,
        StochasticNormalMapMode::RotateTangentSpace => 1,
        StochasticNormalMapMode::DerivativeReconstruction => 2,
    }
}

/// Shader code of a texture channel.
pub fn texture_channel_to_u32(channel: TextureChannel) -> (code: u32)
    ensures
        code == spec_texture_channel_code(channel),
{
    match channel {
        TextureChannel::Red => 0,
        TextureChannel::Green => 1,
        TextureChannel::Blue => 2,
        TextureChannel::Alpha => 3,
        TextureChannel::Luminance => 4,
    }
}

/// Each encoding gives distinct variants distinct codes, all below the
/// number of variants, so a shader can tell every variant apart.
pub proof fn lemma_codes_are_distinct_and_bounded()
    ensures
        forall|a: StochasticSamplingMode, b: StochasticSamplingMode|
            spec_sampling_mode_code(a) == spec_sampling_mode_code(b) ==> a == b,
        forall|a: StochasticBlendMode, b: StochasticBlendMode|
            spec_blend_mode_code(a) == spec_blend_mode_code(b) ==> a == b,
        forall|a: StochasticQuality, b: StochasticQuality|
            spec_quality_code(a) == spec_quality_code(b) ==> a == b,
        forall|a: StochasticUvSpace, b: StochasticUvSpace|
            spec_uv_space_code(a) == spec_uv_space_code(b) ==> a == b,
        forall|a: StochasticRotationMode, b: StochasticRotationMode|
            spec_rotation_mode_code(a) == spec_rotation_mode_code(b) ==> a == b,
        forall|a: StochasticNormalMapMode, b: StochasticNormalMapMode|
            spec_normal_map_mode_code(a) == spec_normal_map_mode_code(b) ==> a == b,
        forall|a: TextureChannel, b: TextureChannel|
            spec_texture_channel_code(a) == spec_texture_channel_code(b) ==> a == b,
        forall|a: StochasticSamplingMode| spec_sampling_mode_code(a) < 6,
        forall|a: StochasticBlendMode| spec_blend_mode_code(a) < 3,
        forall|a: StochasticQuality| spec_quality_code(a) < 3,
        forall|a: StochasticUvSpace| spec_uv_space_code(a) < 3,
        forall|a: StochasticRotationMode| spec_rotation_mode_code(a) < 3,
        forall|a: StochasticNormalMapMode| spec_normal_map_mode_code(a) < 3,
        forall|a: TextureChannel| spec_texture_channel_code(a) < 5,
{
}

/// The state flags word: `STATE_ENABLED` when enabled, `STATE_HEIGHT_PRESENT`
/// when a height map is present.
pub open spec fn spec_state_flags(enabled: bool, height_present: bool) -> u32 {
    (if enabled { STATE_ENABLED } else { 0u32 }) | (if height_present {
        STATE_HEIGHT_PRESENT
    } else {
        0u32
    })
}

/// The integer lanes of the shader uniform for one surface.
#[derive(Clone, Copy, Debug, PartialEq, Eq, Structural)]
pub struct StochasticShaderUniform {
    /// `f32` bits of (remap floor, remap ceiling, 0, 0).
    pub remap: U32x4,
    /// (flags, sampling-mode code, blend-mode code, quality code).
    pub state: U32x4,
    /// (UV-space code, rotation-mode code, normal-map-mode code, channel code).
    pub space: U32x4,
    /// (seed, 0, 0, 0).
    pub seed: U32x4,
}

impl StochasticShaderUniform {
    pub open spec fn spec_from_surface<H>(
        surface: StochasticTexturing,
        height_map: Option<&StochasticHeightMap<H>>,
    ) -> StochasticShaderUniform {
        let signal = spec_height_signal(height_map);
        StochasticShaderUniform {
            remap: U32x4 {
                x: signal.remap_min_bits,
                y: signal.remap_max_bits,
                z: F32_ZERO_BITS,
                w: F32_ZERO_BITS,
            },
            state: U32x4 {
                x: spec_state_flags(surface.enabled, height_map.is_some()),
                y: spec_sampling_mode_code(surface.sampling_mode),
                z: spec_blend_mode_code(surface.blend_mode),
                w: spec_quality_code(surface.quality),
            },
            space: U32x4 {
                x: spec_uv_space_code(surface.uv_space),
                y: spec_rotation_mode_code(surface.rotation_mode),
                z: spec_normal_map_mode_code(surface.normal_map_mode),
                w: spec_texture_channel_code(signal.channel),
            },
            seed: U32x4 { x: surface.seed, y: 0, z: 0, w: 0 },
        }
    }

    pub open spec fn spec_enabled(self) -> bool {
        self.state.x & STATE_ENABLED != 0
    }

    pub open spec fn spec_height_present(self) -> bool {
        self.state.x & STATE_HEIGHT_PRESENT != 0
    }

    /// Packs `surface` and its optional height map into the uniform's
    /// integer lanes.
    pub fn from_surface<H>(
        surface: &StochasticTexturing,
        height_map: Option<&StochasticHeightMap<H>>,
    ) -> (uniform: Self)
        ensures
            uniform == Self::spec_from_surface(*surface, height_map),
    {
        let enabled_flag: u32 = if surface.enabled {
            STATE_ENABLED
        } else {
            0
        };
        let height_flag: u32 = if height_map.is_some() {
            STATE_HEIGHT_PRESENT
        } else {
            0
        };
        let flags: u32 = enabled_flag | height_flag;
        let signal = height_signal(height_map);
        StochasticShaderUniform {
            remap: U32x4 {
                x: signal.remap_min_bits,
                y: signal.remap_max_bits,
                z: F32_ZERO_BITS,
                w: F32_ZERO_BITS,
            },
            state: U32x4 {
                x: flags,
                y: sampling_mode_to_u32(surface.sampling_mode),
                z: blend_mode_to_u32(surface.blend_mode),
                w: quality_to_u32(surface.quality),
            },
            space: U32x4 {
                x: uv_space_to_u32(surface.uv_space),
                y: rotation_mode_to_u32(surface.rotation_mode),
                z: normal_map_mode_to_u32(surface.normal_map_mode),
                w: texture_channel_to_u32(signal.channel),
            },
            seed: U32x4 { x: surface.seed, y: 0, z: 0, w: 0 },
        }
    }

    /// Whether the enabled flag is set.
    pub fn enabled(&self) -> (enabled: bool)
        ensures
            enabled == self.spec_enabled(),
    {
        (self.state.x & STATE_ENABLED) != 0
    }
}

/// The flags word records exactly the two facts it packs.
proof fn lemma_state_flags_decode(enabled: bool, height_present: bool)
    ensures
        (spec_state_flags(enabled, height_present) & STATE_ENABLED != 0) == enabled,
        (spec_state_flags(enabled, height_present) & STATE_HEIGHT_PRESENT != 0) == height_present,
{
    let e: u32 = if enabled { 1 } else { 0 };
    let h: u32 = if height_present { 2 } else { 0 };
    assert((e | h) & 1 != 0 <==> e == 1) by (bit_vector)
        requires e == 0 || e == 1, h == 0 || h == 2;
    assert((e | h) & 2 != 0 <==> h == 2) by (bit_vector)
        requires e == 0 || e == 1, h == 0 || h == 2;
}

/// A packed uniform reads back as enabled exactly when its surface is
/// enabled, and flags a height map exactly when one was given.
pub proof fn lemma_uniform_reads_back_surface_flags<H>(
    surface: StochasticTexturing,
    height_map: Option<&StochasticHeightMap<H>>,
)
    ensures
        StochasticShaderUniform::spec_from_surface(surface, height_map).spec_enabled()
            == surface.enabled,
        StochasticShaderUniform::spec_from_surface(surface, height_map).spec_height_present()
            == height_map.is_some(),
{
    lemma_state_flags_decode(surface.enabled, height_map.is_some());
}

/// The packed uniform names the height channel by its position in RGBA
/// order (red 0, green 1, blue 2, alpha 3), with luminance after them (4);
/// a surface without a height map is read through luminance.
pub proof fn lemma_uniform_channel_code<H>(
    surface: StochasticTexturing,
    height_map: Option<&StochasticHeightMap<H>>,
)
    ensures
        ({
            let w = StochasticShaderUniform::spec_from_surface(surface, height_map).space.w;
            &&& height_map.is_none() ==> w == 4
            &&& height_map.is_some() ==> {
                let channel = height_map.unwrap().channel;
                &&& channel == TextureChannel::Red ==> w == 0
                &&& channel == TextureChannel::Green ==> w == 1
                &&& channel == TextureChannel::Blue ==> w == 2
                &&& channel == TextureChannel::Alpha ==> w == 3
                &&& channel == TextureChannel::Luminance ==> w == 4
            }
        }),
{
}

/// The packed uniform carries each mode of the surface under its shader
/// code: sampling modes in declaration order Off, Checker2, Hex3,
/// HistogramPreserving, TextureBombing, Wang (0 to 5); blend modes Linear 0,
/// HeightAware 1, HistogramPreserving 2; qualities Fast 0, Balanced 1,
/// HighQuality 2; UV spaces MeshUv0 0, MeshUv1 1, WorldTriplanar 2;
/// rotations none 0, Rotate60 1, RotateMirror 2; normal maps Disabled 0,
/// RotateTangentSpace 1, DerivativeReconstruction 2.
pub proof fn lemma_uniform_mode_codes<H>(
    surface: StochasticTexturing,
    height_map: Option<&StochasticHeightMap<H>>,
)
    ensures
        ({
            let u = StochasticShaderUniform::spec_from_surface(surface, height_map);
            &&& surface.sampling_mode == StochasticSamplingMode::Off ==> u.state.y == 0
            &&& surface.sampling_mode == StochasticSamplingMode::Checker2 ==> u.state.y == 1
            &&& surface.sampling_mode == StochasticSamplingMode::Hex3 ==> u.state.y == 2
            &&& surface.sampling_mode == StochasticSamplingMode::HistogramPreserving ==> u.state.y
                == 3
            &&& surface.sampling_mode == StochasticSamplingMode::TextureBombing ==> u.state.y == 4
            &&& surface.sampling_mode == StochasticSamplingMode::Wang ==> u.state.y == 5
            &&& surface.blend_mode == StochasticBlendMode::Linear ==> u.state.z == 0
            &&& surface.blend_mode == StochasticBlendMode::HeightAware ==> u.state.z == 1
            &&& surface.blend_mode == StochasticBlendMode::HistogramPreserving ==> u.state.z == 2
            &&& surface.quality == StochasticQuality::Fast ==> u.state.w == 0
            &&& surface.quality == StochasticQuality::Balanced ==> u.state.w == 1
            &&& surface.quality == StochasticQuality::HighQuality ==> u.state.w == 2
            &&& surface.uv_space == StochasticUvSpace::MeshUv0 ==> u.space.x == 0
            &&& surface.uv_space == StochasticUvSpace::MeshUv1 ==> u.space.x == 1
            &&& surface.uv_space == StochasticUvSpace::WorldTriplanar ==> u.space.x == 2
            &&& surface.rotation_mode == StochasticRotationMode::NoRotation ==> u.space.y == 0
            &&& surface.rotation_mode == StochasticRotationMode::Rotate60 ==> u.space.y == 1
            &&& surface.rotation_mode == StochasticRotationMode::RotateMirror ==> u.space.y == 2
            &&& surface.normal_map_mode == StochasticNormalMapMode::Disabled ==> u.space.z == 0
            &&& surface.normal_map_mode == StochasticNormalMapMode::RotateTangentSpace
                ==> u.space.z == 1
            &&& surface.normal_map_mode == StochasticNormalMapMode::DerivativeReconstruction
                ==> u.space.z == 2
        }),
{
}

/// The flags word is 1 for an enabled surface plus 2 when a height map is
/// present; the seed lane holds the surface seed followed by zeros; the remap
/// lane holds the height map's remap floor and ceiling (or `0.0` and `1.0`
/// without one) followed by two `0.0`s.
pub proof fn lemma_uniform_flags_seed_and_remap<H>(
    surface: StochasticTexturing,
    height_map: Option<&StochasticHeightMap<H>>,
)
    ensures
        ({
            let u = StochasticShaderUniform::spec_from_surface(surface, height_map);
            &&& u.state.x == (if surface.enabled {
                1u32
            } else {
                0u32
            }) + (if height_map.is_some() {
                2u32
            } else {
                0u32
            })
            &&& u.seed.x == surface.seed && u.seed.y == 0 && u.seed.z == 0 && u.seed.w == 0
            &&& u.remap.z == 0 && u.remap.w == 0
            &&& height_map.is_some() ==> u.remap.x == height_map.unwrap().remap_min_bits
                && u.remap.y == height_map.unwrap().remap_max_bits
            &&& height_map.is_none() ==> u.remap.x == 0 && u.remap.y == 0x3f80_0000
        }),
{
    let e: u32 = if surface.enabled { 1 } else { 0 };
    let h: u32 = if height_map.is_some() { 2 } else { 0 };
    assert(e | h == e + h) by (bit_vector)
        requires e == 0 || e == 1, h == 0 || h == 2;
}

/// Without a height map the shaders see the neutral signal: luminance, unit
/// amplitude, identity remap; with one, they see exactly its parameters.
pub proof fn lemma_height_signal_fallback<H>(height_map: Option<&StochasticHeightMap<H>>)
    ensures
        height_map.is_none() ==> spec_height_signal(height_map) == (HeightSignal {
            channel: TextureChannel::Luminance,
            amplitude_bits: 0x3f80_0000,
            remap_min_bits: 0,
            remap_max_bits: 0x3f80_0000,
        }),
        height_map.is_some() ==> spec_height_signal(height_map) == (HeightSignal {
            channel: height_map.unwrap().channel,
            amplitude_bits: height_map.unwrap().amplitude_bits,
            remap_min_bits: height_map.unwrap().remap_min_bits,
            remap_max_bits: height_map.unwrap().remap_max_bits,
        }),
{
}

} // verus!
