//! Runtime counts for the authoring and adapter surface.

use vstd::prelude::*;

verus! {

/// Runtime counts for the public authoring and adapter surface.
#[derive(Clone, Copy, Debug, PartialEq, Eq, Structural)]
pub struct StochasticTexturingDiagnostics {
    pub active_surfaces: usize,
    pub active_height_maps: usize,
    pub active_pbr_surfaces: usize,
    pub world_triplanar_surfaces: usize,
    pub histogram_preserving_surfaces: usize,
    pub high_quality_surfaces: usize,
    pub debug_views_enabled: usize,
    pub estimated_base_sample_count: u64,
}

impl Default for StochasticTexturingDiagnostics {
    /// All counts start at zero.
    fn default() -> (diagnostics: Self)
        ensures
            diagnostics.active_surfaces == 0,
            diagnostics.active_height_maps == 0,
            diagnostics.active_pbr_surfaces == 0,
            diagnostics.world_triplanar_surfaces == 0,
            diagnostics.histogram_preserving_surfaces == 0,
            diagnostics.high_quality_surfaces == 0,
            diagnostics.debug_views_enabled == 0,
            diagnostics.estimated_base_sample_count == 0,
    {
        StochasticTexturingDiagnostics {
            active_surfaces: 0,
            active_height_maps: 0,
            active_pbr_surfaces: 0,
            world_triplanar_surfaces: 0,
            histogram_preserving_surfaces: 0,
            high_quality_surfaces: 0,
            debug_views_enabled: 0,
            estimated_base_sample_count: 0,
        }
    }
}

impl StochasticTexturingDiagnostics {
    pub open spec fn spec_has_debug_view(self) -> bool {
        self.debug_views_enabled > 0
    }

    /// Whether any debug view is active.
    pub fn has_debug_view(&self) -> (active: bool)
        ensures
            active == self.spec_has_debug_view(),
    {
        self.debug_views_enabled > 0
    }
}

} // verus!
