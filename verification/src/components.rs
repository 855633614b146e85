//! Per-surface authoring data.
//!
//! Real-valued authoring parameters are carried in their IEEE-754 `f32` bit
//! patterns (`f32::to_bits`); their arithmetic belongs to the renderer.

use vstd::prelude::*;

use crate::config::{
    StochasticBlendMode, StochasticNormalMapMode, StochasticQuality, StochasticRotationMode,
    StochasticSamplingMode, StochasticUvSpace, TextureChannel,
};

verus! {

/// Bit pattern of the `f32` value `0.0`.
pub const F32_ZERO_BITS: u32 = 0x0000_0000;

/// Bit pattern of the `f32` value `1.0`.
pub const F32_ONE_BITS: u32 = 0x3f80_0000;

/// Bit pattern of the `f32` value `0.35`.
pub const F32_0_35_BITS: u32 = 0x3eb3_3333;

/// Bit pattern of the `f32` value `0.65`.
pub const F32_0_65_BITS: u32 = 0x3f26_6666;

/// Bit pattern of the `f32` value `0.08`.
pub const F32_0_08_BITS: u32 = 0x3da3_d70a;

/// Whether `bits` is the pattern of an `f32` NaN: all exponent bits set and
/// a non-zero mantissa.
pub open spec fn f32_bits_is_nan(bits: u32) -> bool {
    bits & 0x7fff_ffff > 0x7f80_0000
}

/// IEEE-754 equality of the `f32` values with bit patterns `a` and `b`: a NaN
/// equals nothing, `0.0` equals `-0.0`, and otherwise equal values have
/// equal bit patterns.
pub open spec fn f32_bits_eq(a: u32, b: u32) -> bool {
    &&& !f32_bits_is_nan(a)
    &&& !f32_bits_is_nan(b)
    &&& (a == b || (a & 0x7fff_ffff == 0 && b & 0x7fff_ffff == 0))
}

/// `f32` equality on bit patterns.
pub fn f32_bits_equal(a: u32, b: u32) -> (equal: bool)
    ensures
        equal == f32_bits_eq(a, b),
{
    let a_magnitude: u32 = a & 0x7fff_ffff;
    let b_magnitude: u32 = b & 0x7fff_ffff;
    a_magnitude <= 0x7f80_0000 && b_magnitude <= 0x7f80_0000 && (a == b || (a_magnitude == 0
        && b_magnitude == 0))
}

/// Per-entity anti-repetition authoring surface.
#[derive(Clone, Copy, Debug)]
pub struct StochasticTexturing {
    pub enabled: bool,
    pub sampling_mode: StochasticSamplingMode,
    pub blend_mode: StochasticBlendMode,
    pub quality: StochasticQuality,
    pub uv_space: StochasticUvSpace,
    pub rotation_mode: StochasticRotationMode,
    pub normal_map_mode: StochasticNormalMapMode,
    /// `f32` bits of the horizontal authoring scale.
    pub base_scale_x_bits: u32,
    /// `f32` bits of the vertical authoring scale.
    pub base_scale_y_bits: u32,
    /// `f32` bits of the per-cell variation amplitude.
    pub variation_strength_bits: u32,
    /// `f32` bits of the lattice blend softness.
    pub blend_softness_bits: u32,
    /// `f32` bits of the height-signal emphasis.
    pub height_blend_strength_bits: u32,
    /// `f32` bits of the weight below which samples are culled.
    pub sample_cull_threshold_bits: u32,
    /// `f32` bits of the mip bias.
    pub mip_bias_bits: u32,
    /// Per-surface deterministic variation seed.
    pub seed: u32,
}

/// Number of texture samples one map takes per pixel under `mode`.
pub open spec fn spec_sample_count(mode: StochasticSamplingMode) -> u32 {
    match mode {
        StochasticSamplingMode::Off => 1,
        StochasticSamplingMode::Checker2 => 2,
        StochasticSamplingMode::Hex3 => 3,
        StochasticSamplingMode::HistogramPreserving => 3,
        StochasticSamplingMode::Wang => 3,
        StochasticSamplingMode::TextureBombing => 4,
    }
}

/// Whether blending under `mode` consumes a height signal.
pub open spec fn spec_blend_uses_height(mode: StochasticBlendMode) -> bool {
    mode == StochasticBlendMode::HeightAware || mode == StochasticBlendMode::HistogramPreserving
}

impl StochasticTexturing {
    /// Surfaces are equal when their discrete settings and seed are equal
    /// and their real-valued settings compare equal under `f32` equality.
    pub open spec fn same_settings(&self, other: &StochasticTexturing) -> bool {
        &&& self.enabled == other.enabled
        &&& self.sampling_mode == other.sampling_mode
        &&& self.blend_mode == other.blend_mode
        &&& self.quality == other.quality
        &&& self.uv_space == other.uv_space
        &&& self.rotation_mode == other.rotation_mode
        &&& self.normal_map_mode == other.normal_map_mode
        &&& f32_bits_eq(self.base_scale_x_bits, other.base_scale_x_bits)
        &&& f32_bits_eq(self.base_scale_y_bits, other.base_scale_y_bits)
        &&& f32_bits_eq(self.variation_strength_bits, other.variation_strength_bits)
        &&& f32_bits_eq(self.blend_softness_bits, other.blend_softness_bits)
        &&& f32_bits_eq(self.height_blend_strength_bits, other.height_blend_strength_bits)
        &&& f32_bits_eq(self.sample_cull_threshold_bits, other.sample_cull_threshold_bits)
        &&& f32_bits_eq(self.mip_bias_bits, other.mip_bias_bits)
        &&& self.seed == other.seed
    }
}

impl PartialEq for StochasticTexturing {
    fn eq(&self, other: &Self) -> (equal: bool) {
        self.enabled == other.enabled && self.sampling_mode == other.sampling_mode
            && self.blend_mode == other.blend_mode && self.quality == other.quality
            && self.uv_space == other.uv_space && self.rotation_mode == other.rotation_mode
            && self.normal_map_mode == other.normal_map_mode && f32_bits_equal(
            self.base_scale_x_bits,
            other.base_scale_x_bits,
        ) && f32_bits_equal(self.base_scale_y_bits, other.base_scale_y_bits) && f32_bits_equal(
            self.variation_strength_bits,
            other.variation_strength_bits,
        ) && f32_bits_equal(self.blend_softness_bits, other.blend_softness_bits)
            && f32_bits_equal(self.height_blend_strength_bits, other.height_blend_strength_bits)
            && f32_bits_equal(self.sample_cull_threshold_bits, other.sample_cull_threshold_bits)
            && f32_bits_equal(self.mip_bias_bits, other.mip_bias_bits) && self.seed == other.seed
    }
}

impl vstd::std_specs::cmp::PartialEqSpecImpl for StochasticTexturing {
    open spec fn obeys_eq_spec() -> bool {
        true
    }

    open spec fn eq_spec(&self, other: &StochasticTexturing) -> bool {
        self.same_settings(other)
    }
}

impl Default for StochasticTexturing {
    /// Hex tiling with height-aware blending, balanced quality, mesh UV0,
    /// rotate-and-mirror cells and rotated tangent-space normals.
    fn default() -> (surface: Self)
        ensures
            surface.enabled,
            surface.sampling_mode == StochasticSamplingMode::Hex3,
            surface.blend_mode == StochasticBlendMode::HeightAware,
            surface.quality == StochasticQuality::Balanced,
            surface.uv_space == StochasticUvSpace::MeshUv0,
            surface.rotation_mode == StochasticRotationMode::RotateMirror,
            surface.normal_map_mode == StochasticNormalMapMode::RotateTangentSpace,
            surface.base_scale_x_bits == F32_ONE_BITS,
            surface.base_scale_y_bits == F32_ONE_BITS,
            surface.variation_strength_bits == F32_ONE_BITS,
            surface.blend_softness_bits == F32_0_35_BITS,
            surface.height_blend_strength_bits == F32_0_65_BITS,
            surface.sample_cull_threshold_bits == F32_0_08_BITS,
            surface.mip_bias_bits == F32_ZERO_BITS,
            surface.seed == 1,
    {
        StochasticTexturing {
            enabled: true,
            sampling_mode: StochasticSamplingMode::Hex3,
            blend_mode: StochasticBlendMode::HeightAware,
            quality: StochasticQuality::Balanced,
            uv_space: StochasticUvSpace::MeshUv0,
            rotation_mode: StochasticRotationMode::RotateMirror,
            normal_map_mode: StochasticNormalMapMode::RotateTangentSpace,
            base_scale_x_bits: F32_ONE_BITS,
            base_scale_y_bits: F32_ONE_BITS,
            variation_strength_bits: F32_ONE_BITS,
            blend_softness_bits: F32_0_35_BITS,
            height_blend_strength_bits: F32_0_65_BITS,
            sample_cull_threshold_bits: F32_0_08_BITS,
            mip_bias_bits: F32_ZERO_BITS,
            seed: 1,
        }
    }
}

impl StochasticTexturing {
    /// Samples taken per texture map per pixel by this surface's sampling mode.
    pub fn expected_sample_count_per_map(&self) -> (count: u32)
        ensures
            count == spec_sample_count(self.sampling_mode),
            1 <= count <= 4,
    {
        match self.sampling_mode {
            StochasticSamplingMode::Off => 1,
            StochasticSamplingMode::Checker2 => 2,
            StochasticSamplingMode::Hex3
            | StochasticSamplingMode::HistogramPreserving
            | StochasticSamplingMode::Wang => 3,
            StochasticSamplingMode::TextureBombing => 4,
        }
    }

    /// Whether this surface's blend mode reads a height map.
    pub fn uses_height_map(&self) -> (uses: bool)
        ensures
            uses == spec_blend_uses_height(self.blend_mode),
    {
        match self.blend_mode {
            StochasticBlendMode::HeightAware | StochasticBlendMode::HistogramPreserving => true,
            StochasticBlendMode::Linear => false,
        }
    }
}

/// Optional height data for height-aware or histogram-preserving blending.
/// `H` is the handle by which the renderer finds the height image.
#[derive(Clone, Debug)]
pub struct StochasticHeightMap<H> {
    pub image: H,
    pub channel: TextureChannel,
    /// `f32` bits of the height contrast multiplier.
    pub amplitude_bits: u32,
    /// `f32` bits of the input floor remapped to zero.
    pub remap_min_bits: u32,
    /// `f32` bits of the input ceiling remapped to one.
    pub remap_max_bits: u32,
}

impl<H> StochasticHeightMap<H> {
    /// A height map over `image` read through its luminance, with unit
    /// amplitude and the identity remap `[0, 1]`.
    pub fn new(image: H) -> (map: Self)
        ensures
            map.image == image,
            map.channel == TextureChannel::Luminance,
            map.amplitude_bits == F32_ONE_BITS,
            map.remap_min_bits == F32_ZERO_BITS,
            map.remap_max_bits == F32_ONE_BITS,
    {
        StochasticHeightMap {
            image,
            channel: TextureChannel::Luminance,
            amplitude_bits: F32_ONE_BITS,
            remap_min_bits: F32_ZERO_BITS,
            remap_max_bits: F32_ONE_BITS,
        }
    }
}

/// Off takes one sample, Checker2 two, Hex3, HistogramPreserving and Wang
/// three, and TextureBombing four; only linear blending ignores the height
/// map.
pub proof fn lemma_sample_counts_and_height_use(surface: StochasticTexturing)
    ensures
        surface.sampling_mode == StochasticSamplingMode::Off ==> spec_sample_count(
            surface.sampling_mode,
        ) == 1,
        surface.sampling_mode == StochasticSamplingMode::Checker2 ==> spec_sample_count(
            surface.sampling_mode,
        ) == 2,
        surface.sampling_mode == StochasticSamplingMode::Hex3 ==> spec_sample_count(
            surface.sampling_mode,
        ) == 3,
        surface.sampling_mode == StochasticSamplingMode::HistogramPreserving ==> spec_sample_count(
            surface.sampling_mode,
        ) == 3,
        surface.sampling_mode == StochasticSamplingMode::Wang ==> spec_sample_count(
            surface.sampling_mode,
        ) == 3,
        surface.sampling_mode == StochasticSamplingMode::TextureBombing ==> spec_sample_count(
            surface.sampling_mode,
        ) == 4,
        spec_blend_uses_height(surface.blend_mode) <==> surface.blend_mode
            != StochasticBlendMode::Linear,
{
}

/// Equal surfaces agree on every discrete setting and on the seed.
pub proof fn lemma_equal_surfaces_share_settings(a: StochasticTexturing, b: StochasticTexturing)
    requires
        a.same_settings(&b),
    ensures
        a.enabled == b.enabled,
        a.sampling_mode == b.sampling_mode,
        a.blend_mode == b.blend_mode,
        a.quality == b.quality,
        a.uv_space == b.uv_space,
        a.rotation_mode == b.rotation_mode,
        a.normal_map_mode == b.normal_map_mode,
        a.seed == b.seed,
{
}

/// Surface equality is symmetric, and a surface equals any surface with the
/// same settings and real values of the same non-NaN bit patterns.
pub proof fn lemma_surface_equality_on_identical_values(
    a: StochasticTexturing,
    b: StochasticTexturing,
)
    ensures
        a.same_settings(&b) == b.same_settings(&a),
        (a == b && a.base_scale_x_bits & 0x7fff_ffff <= 0x7f80_0000 && a.base_scale_y_bits
            & 0x7fff_ffff <= 0x7f80_0000 && a.variation_strength_bits & 0x7fff_ffff <= 0x7f80_0000
            && a.blend_softness_bits & 0x7fff_ffff <= 0x7f80_0000 && a.height_blend_strength_bits
            & 0x7fff_ffff <= 0x7f80_0000 && a.sample_cull_threshold_bits & 0x7fff_ffff
            <= 0x7f80_0000 && a.mip_bias_bits & 0x7fff_ffff <= 0x7f80_0000) ==> a.same_settings(
            &b,
        ),
{
}

/// `f32` equality on bit patterns: `0.0` equals `-0.0`; a NaN (exponent all
/// ones, non-zero mantissa) equals nothing, not even itself; any other value
/// equals itself; and two different patterns that are not both zeros are
/// unequal. The relation is symmetric.
pub proof fn lemma_f32_bits_equality(a: u32, b: u32)
    ensures
        f32_bits_eq(0x0000_0000, 0x8000_0000),
        f32_bits_eq(a, b) == f32_bits_eq(b, a),
        a & 0x7fff_ffff > 0x7f80_0000 ==> !f32_bits_eq(a, b),
        a & 0x7fff_ffff <= 0x7f80_0000 ==> f32_bits_eq(a, a),
        (a != b && !(a & 0x7fff_ffff == 0 && b & 0x7fff_ffff == 0)) ==> !f32_bits_eq(a, b),
{
    assert(0x0000_0000u32 & 0x7fff_ffff == 0 && 0x8000_0000u32 & 0x7fff_ffff == 0) by (bit_vector);
}

} // verus!
