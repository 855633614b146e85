//! Authoring enums and debug settings.

use vstd::prelude::*;

verus! {

/// Runtime sampling families.
#[derive(Clone, Copy, Debug, PartialEq, Eq, Structural)]
pub enum StochasticSamplingMode {
    Off,
    Checker2,
    Hex3,
    HistogramPreserving,
    TextureBombing,
    Wang,
}

impl Default for StochasticSamplingMode {
    fn default() -> (mode: Self)
        ensures
            mode == StochasticSamplingMode::Hex3,
    {
        StochasticSamplingMode::Hex3
    }
}

/// Blend families: linear, height-aware, histogram-preserving.
#[derive(Clone, Copy, Debug, PartialEq, Eq, Structural)]
pub enum StochasticBlendMode {
    HeightAware,
    Linear,
    HistogramPreserving,
}

impl Default for StochasticBlendMode {
    fn default() -> (mode: Self)
        ensures
            mode == StochasticBlendMode::HeightAware,
    {
        StochasticBlendMode::HeightAware
    }
}

/// Quality tiers.
#[derive(Clone, Copy, Debug, PartialEq, Eq, Structural)]
pub enum StochasticQuality {
    Fast,
    Balanced,
    HighQuality,
}

impl Default for StochasticQuality {
    fn default() -> (quality: Self)
        ensures
            quality == StochasticQuality::Balanced,
    {
        StochasticQuality::Balanced
    }
}

/// UV projection families.
#[derive(Clone, Copy, Debug, PartialEq, Eq, Structural)]
pub enum StochasticUvSpace {
    MeshUv0,
    MeshUv1,
    WorldTriplanar,
}

impl Default for StochasticUvSpace {
    fn default() -> (space: Self)
        ensures
            space == StochasticUvSpace::MeshUv0,
    {
        StochasticUvSpace::MeshUv0
    }
}

/// Per-cell rotation / mirroring policy.
#[derive(Clone, Copy, Debug, PartialEq, Eq, Structural)]
pub enum StochasticRotationMode {
    /// Cells keep their original orientation.
    NoRotation,
    Rotate60,
    RotateMirror,
}

impl Default for StochasticRotationMode {
    fn default() -> (mode: Self)
        ensures
            mode == StochasticRotationMode::RotateMirror,
    {
        StochasticRotationMode::RotateMirror
    }
}

/// Normal-map handling strategy.
#[derive(Clone, Copy, Debug, PartialEq, Eq, Structural)]
pub enum StochasticNormalMapMode {
    Disabled,
    RotateTangentSpace,
    DerivativeReconstruction,
}

impl Default for StochasticNormalMapMode {
    fn default() -> (mode: Self)
        ensures
            mode == StochasticNormalMapMode::RotateTangentSpace,
    {
        StochasticNormalMapMode::RotateTangentSpace
    }
}

/// The texture channel that carries a height signal.
#[derive(Clone, Copy, Debug, PartialEq, Eq, Structural)]
pub enum TextureChannel {
    Red,
    Green,
    Blue,
    Alpha,
    Luminance,
}

impl Default for TextureChannel {
    fn default() -> (channel: Self)
        ensures
            channel == TextureChannel::Luminance,
    {
        TextureChannel::Luminance
    }
}

/// Debug visualization modes.
#[derive(Clone, Copy, Debug, PartialEq, Eq, Structural)]
pub enum StochasticDebugView {
    Off,
    BlendWeights,
    CellIds,
    SampleTransforms,
    HeightMask,
    SampleCount,
}

impl Default for StochasticDebugView {
    fn default() -> (view: Self)
        ensures
            view == StochasticDebugView::Off,
    {
        StochasticDebugView::Off
    }
}

/// Debug visualization controls.
#[derive(Clone, Copy, Debug, PartialEq, Eq, Structural)]
pub struct StochasticDebugSettings {
    pub enabled: bool,
    pub view: StochasticDebugView,
    pub show_surface_bounds: bool,
    pub freeze_seed: bool,
    pub show_overlay: bool,
}

impl Default for StochasticDebugSettings {
    /// Debugging starts disabled, with the example / lab overlay shown.
    fn default() -> (settings: Self)
        ensures
            !settings.enabled,
            settings.view == StochasticDebugView::Off,
            !settings.show_surface_bounds,
            !settings.freeze_seed,
            settings.show_overlay,
    {
        StochasticDebugSettings {
            enabled: false,
            view: StochasticDebugView::Off,
            show_surface_bounds: false,
            freeze_seed: false,
            show_overlay: true,
        }
    }
}

} // verus!
