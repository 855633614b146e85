//! Stochastic texturing: the data model, GPU packing and runtime decisions
//! behind anti-repetition sampling of repeated surface textures.

pub mod components;
pub mod config;
pub mod diagnostics;
pub mod gpu;
pub mod pbr;
pub mod setup;
pub mod shader_library;
pub mod systems;

pub use components::{StochasticHeightMap, StochasticTexturing};
pub use config::{
    StochasticBlendMode, StochasticDebugSettings, StochasticDebugView, StochasticNormalMapMode,
    StochasticQuality, StochasticRotationMode, StochasticSamplingMode, StochasticUvSpace,
    TextureChannel,
};
pub use diagnostics::StochasticTexturingDiagnostics;
pub use gpu::StochasticShaderUniform;
pub use pbr::StochasticTexturingMaterialExtension;
pub use shader_library::{STOCHASTIC_SAMPLING_IMPORT_PATH, STOCHASTIC_TYPES_IMPORT_PATH};

use vstd::prelude::*;

verus! {

/// Ordering hooks of the core runtime: prepare, then diagnostics, then debug.
#[derive(Clone, Copy, Debug, PartialEq, Eq, Hash, Structural)]
pub enum StochasticTexturingSystems {
    Prepare,
    Diagnostics,
    Debug,
}

/// Ordering hooks of the adapter: adapt materials, then sync uniforms, then
/// diagnostics.
#[derive(Clone, Copy, Debug, PartialEq, Eq, Hash, Structural)]
pub enum StochasticPbrSystems {
    AdaptMaterials,
    SyncUniforms,
    Diagnostics,
}

} // verus!
