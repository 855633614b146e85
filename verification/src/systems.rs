//! Runtime activation state and the publication of diagnostics.

use vstd::prelude::*;

use crate::components::{spec_sample_count, StochasticTexturing};
use crate::config::{
    StochasticBlendMode, StochasticDebugSettings, StochasticQuality, StochasticSamplingMode,
    StochasticUvSpace,
};
use crate::diagnostics::StochasticTexturingDiagnostics;

verus! {

/// Whether the core runtime is active.
#[derive(Clone, Copy, Debug, PartialEq, Eq, Structural)]
pub struct StochasticTexturingRuntimeState {
    pub active: bool,
}

impl Default for StochasticTexturingRuntimeState {
    /// The runtime starts inactive.
    fn default() -> (state: Self)
        ensures
            !state.active,
    {
        StochasticTexturingRuntimeState { active: false }
    }
}

/// Whether the standard-material adapter runtime is active.
#[derive(Clone, Copy, Debug, PartialEq, Eq, Structural)]
pub struct StochasticPbrRuntimeState {
    pub active: bool,
}

impl Default for StochasticPbrRuntimeState {
    /// The adapter runtime starts inactive.
    fn default() -> (state: Self)
        ensures
            !state.active,
    {
        StochasticPbrRuntimeState { active: false }
    }
}

/// Marks the core runtime active.
pub fn activate_runtime(runtime: &mut StochasticTexturingRuntimeState)
    ensures
        final(runtime).active,
{
    runtime.active = true;
}

/// Marks the core runtime inactive.
pub fn deactivate_runtime(runtime: &mut StochasticTexturingRuntimeState)
    ensures
        !final(runtime).active,
{
    runtime.active = false;
}

/// Marks the adapter runtime active.
pub fn activate_pbr_runtime(runtime: &mut StochasticPbrRuntimeState)
    ensures
        final(runtime).active,
{
    runtime.active = true;
}

/// Marks the adapter runtime inactive.
pub fn deactivate_pbr_runtime(runtime: &mut StochasticPbrRuntimeState)
    ensures
        !final(runtime).active,
{
    runtime.active = false;
}

/// Whether the core runtime is active.
pub fn runtime_is_active(runtime: &StochasticTexturingRuntimeState) -> (active: bool)
    ensures
        active == runtime.active,
{
    runtime.active
}

/// Whether the adapter runtime is active.
pub fn pbr_runtime_is_active(runtime: &StochasticPbrRuntimeState) -> (active: bool)
    ensures
        active == runtime.active,
{
    runtime.active
}

pub open spec fn is_world_triplanar(surface: StochasticTexturing) -> bool {
    surface.uv_space == StochasticUvSpace::WorldTriplanar
}

pub open spec fn is_high_quality(surface: StochasticTexturing) -> bool {
    surface.quality == StochasticQuality::HighQuality
}

pub open spec fn is_histogram_preserving(surface: StochasticTexturing) -> bool {
    surface.sampling_mode == StochasticSamplingMode::HistogramPreserving || surface.blend_mode
        == StochasticBlendMode::HistogramPreserving
}

/// Number of surfaces in `surfaces` that satisfy `pred`.
pub open spec fn count_where(
    surfaces: Seq<StochasticTexturing>,
    pred: spec_fn(StochasticTexturing) -> bool,
) -> nat
    decreases surfaces.len(),
{
    if surfaces.len() == 0 {
        0
    } else {
        count_where(surfaces.drop_last(), pred) + if pred(surfaces.last()) {
            1nat
        } else {
            0nat
        }
    }
}

/// Total texture samples per map over all `surfaces`.
pub open spec fn total_sample_count(surfaces: Seq<StochasticTexturing>) -> nat
    decreases surfaces.len(),
{
    if surfaces.len() == 0 {
        0
    } else {
        total_sample_count(surfaces.drop_last()) + spec_sample_count(
            surfaces.last().sampling_mode,
        ) as nat
    }
}

/// A category count never exceeds the number of surfaces, and every surface
/// contributes between one and four samples to the sample estimate.
pub proof fn lemma_diagnostic_counts_bounded(
    surfaces: Seq<StochasticTexturing>,
    pred: spec_fn(StochasticTexturing) -> bool,
)
    ensures
        count_where(surfaces, pred) <= surfaces.len(),
        surfaces.len() <= total_sample_count(surfaces) <= 4 * surfaces.len(),
    decreases surfaces.len(),
{
    if surfaces.len() > 0 {
        lemma_diagnostic_counts_bounded(surfaces.drop_last(), pred);
    }
}

/// Number of debug views the settings enable.
pub open spec fn spec_debug_views(debug: StochasticDebugSettings) -> usize {
    if debug.enabled {
        1usize
    } else {
        0usize
    }
}

/// The diagnostics a core publication leaves: every count it writes is
/// recomputed from the surfaces, the height-map count and the debug
/// settings, and only the adapter's count is kept from `before`.
pub open spec fn spec_core_diagnostics(
    surfaces: Seq<StochasticTexturing>,
    height_map_count: usize,
    debug: StochasticDebugSettings,
    before: StochasticTexturingDiagnostics,
) -> StochasticTexturingDiagnostics {
    StochasticTexturingDiagnostics {
        active_surfaces: surfaces.len() as usize,
        active_height_maps: height_map_count,
        active_pbr_surfaces: before.active_pbr_surfaces,
        world_triplanar_surfaces: count_where(
            surfaces,
            |s: StochasticTexturing| is_world_triplanar(s),
        ) as usize,
        histogram_preserving_surfaces: count_where(
            surfaces,
            |s: StochasticTexturing| is_histogram_preserving(s),
        ) as usize,
        high_quality_surfaces: count_where(
            surfaces,
            |s: StochasticTexturing| is_high_quality(s),
        ) as usize,
        debug_views_enabled: spec_debug_views(debug),
        estimated_base_sample_count: total_sample_count(surfaces) as u64,
    }
}

/// Published diagnostics report a debug view exactly when the debug settings
/// enable one, whatever the surfaces and the earlier diagnostics.
pub proof fn lemma_debug_view_follows_settings(
    surfaces: Seq<StochasticTexturing>,
    height_map_count: usize,
    debug: StochasticDebugSettings,
    before: StochasticTexturingDiagnostics,
)
    ensures
        spec_core_diagnostics(surfaces, height_map_count, debug, before).spec_has_debug_view()
            == debug.enabled,
{
}

/// Publishing the core diagnostics twice over the same scene leaves what
/// publishing once leaves, and keeps the adapter's count.
pub proof fn lemma_core_publication_is_idempotent(
    surfaces: Seq<StochasticTexturing>,
    height_map_count: usize,
    debug: StochasticDebugSettings,
    before: StochasticTexturingDiagnostics,
)
    ensures
        ({
            let once = spec_core_diagnostics(surfaces, height_map_count, debug, before);
            &&& spec_core_diagnostics(surfaces, height_map_count, debug, once) == once
            &&& once.active_pbr_surfaces == before.active_pbr_surfaces
        }),
{
}

/// Recounts the core diagnostics from the current surfaces, the number of
/// height maps and the debug settings. The adapter's count is left as it was.
pub fn publish_core_diagnostics(
    surfaces: &[StochasticTexturing],
    height_map_count: usize,
    debug: &StochasticDebugSettings,
    diagnostics: &mut StochasticTexturingDiagnostics,
)
    requires
        4 * surfaces@.len() <= u64::MAX,
    ensures
        *final(diagnostics) == spec_core_diagnostics(
            surfaces@,
            height_map_count,
            *debug,
            *old(diagnostics),
        ),
        final(diagnostics).active_surfaces == surfaces@.len(),
        final(diagnostics).active_height_maps == height_map_count,
        final(diagnostics).active_pbr_surfaces == old(diagnostics).active_pbr_surfaces,
        final(diagnostics).world_triplanar_surfaces == count_where(
            surfaces@,
            |s: StochasticTexturing| is_world_triplanar(s),
        ),
        final(diagnostics).histogram_preserving_surfaces == count_where(
            surfaces@,
            |s: StochasticTexturing| is_histogram_preserving(s),
        ),
        final(diagnostics).high_quality_surfaces == count_where(
            surfaces@,
            |s: StochasticTexturing| is_high_quality(s),
        ),
        final(diagnostics).debug_views_enabled == spec_debug_views(*debug),
        final(diagnostics).estimated_base_sample_count == total_sample_count(surfaces@),
        final(diagnostics).world_triplanar_surfaces <= final(diagnostics).active_surfaces,
        final(diagnostics).histogram_preserving_surfaces <= final(diagnostics).active_surfaces,
        final(diagnostics).high_quality_surfaces <= final(diagnostics).active_surfaces,
        final(diagnostics).active_surfaces <= final(diagnostics).estimated_base_sample_count <= 4
            * final(diagnostics).active_surfaces,
{
    let ghost triplanar = |s: StochasticTexturing| is_world_triplanar(s);
    let ghost histogram = |s: StochasticTexturing| is_histogram_preserving(s);
    let ghost high = |s: StochasticTexturing| is_high_quality(s);
    diagnostics.active_surfaces = 0;
    diagnostics.active_height_maps = height_map_count;
    diagnostics.world_triplanar_surfaces = 0;
    diagnostics.histogram_preserving_surfaces = 0;
    diagnostics.high_quality_surfaces = 0;
    diagnostics.debug_views_enabled = if debug.enabled {
        1
    } else {
        0
    };
    diagnostics.estimated_base_sample_count = 0;

    let n = surfaces.len();
    for i in 0..n
        invariant
            n == surfaces@.len(),
            4 * n <= u64::MAX,
            triplanar == (|s: StochasticTexturing| is_world_triplanar(s)),
            histogram == (|s: StochasticTexturing| is_histogram_preserving(s)),
            high == (|s: StochasticTexturing| is_high_quality(s)),
            diagnostics.active_surfaces == i,
            diagnostics.active_height_maps == height_map_count,
            diagnostics.active_pbr_surfaces == old(diagnostics).active_pbr_surfaces,
            diagnostics.debug_views_enabled == spec_debug_views(*debug),
            diagnostics.world_triplanar_surfaces == count_where(
                surfaces@.take(i as int),
                triplanar,
            ),
            diagnostics.histogram_preserving_surfaces == count_where(
                surfaces@.take(i as int),
                histogram,
            ),
            diagnostics.high_quality_surfaces == count_where(surfaces@.take(i as int), high),
            diagnostics.estimated_base_sample_count == total_sample_count(
                surfaces@.take(i as int),
            ),
    {
        let surface = &surfaces[i];
        proof {
            let prefix = surfaces@.take(i as int);
            let next = surfaces@.take(i + 1);
            assert(next.drop_last() =~= prefix);
            assert(next.last() == surfaces@[i as int]);
            lemma_diagnostic_counts_bounded(prefix, triplanar);
            lemma_diagnostic_counts_bounded(prefix, histogram);
            lemma_diagnostic_counts_bounded(prefix, high);
        }
        diagnostics.active_surfaces = diagnostics.active_surfaces + 1;
        let samples = surface.expected_sample_count_per_map();
        diagnostics.estimated_base_sample_count = diagnostics.estimated_base_sample_count
            + samples as u64;
        match surface.uv_space {
            StochasticUvSpace::WorldTriplanar => {
                diagnostics.world_triplanar_surfaces = diagnostics.world_triplanar_surfaces + 1;
            },
            _ => {},
        }
        match surface.quality {
            StochasticQuality::HighQuality => {
                diagnostics.high_quality_surfaces = diagnostics.high_quality_surfaces + 1;
            },
            _ => {},
        }
        let histogram_sampling = match surface.sampling_mode {
            StochasticSamplingMode::HistogramPreserving => true,
            _ => false,
        };
        let histogram_blend = match surface.blend_mode {
            StochasticBlendMode::HistogramPreserving => true,
            _ => false,
        };
        if histogram_sampling || histogram_blend {
            diagnostics.histogram_preserving_surfaces = diagnostics.histogram_preserving_surfaces
                + 1;
        }
    }
    proof {
        assert(surfaces@.take(n as int) =~= surfaces@);
        lemma_diagnostic_counts_bounded(surfaces@, triplanar);
        lemma_diagnostic_counts_bounded(surfaces@, histogram);
        lemma_diagnostic_counts_bounded(surfaces@, high);
    }
}

/// Records the number of surfaces the adapter has bound, leaving every other
/// count as it was.
pub fn publish_pbr_diagnostics(
    bound_surfaces: usize,
    diagnostics: &mut StochasticTexturingDiagnostics,
)
    ensures
        final(diagnostics).active_pbr_surfaces == bound_surfaces,
        final(diagnostics).active_surfaces == old(diagnostics).active_surfaces,
        final(diagnostics).active_height_maps == old(diagnostics).active_height_maps,
        final(diagnostics).world_triplanar_surfaces == old(diagnostics).world_triplanar_surfaces,
        final(diagnostics).histogram_preserving_surfaces == old(
            diagnostics,
        ).histogram_preserving_surfaces,
        final(diagnostics).high_quality_surfaces == old(diagnostics).high_quality_surfaces,
        final(diagnostics).debug_views_enabled == old(diagnostics).debug_views_enabled,
        final(diagnostics).estimated_base_sample_count == old(
            diagnostics,
        ).estimated_base_sample_count,
{
    diagnostics.active_pbr_surfaces = bound_surfaces;
}

/// A count of matching surfaces is the length of the matching subsequence.
proof fn lemma_count_is_filter_length(
    surfaces: Seq<StochasticTexturing>,
    pred: spec_fn(StochasticTexturing) -> bool,
)
    ensures
        count_where(surfaces, pred) == surfaces.filter(pred).len(),
    decreases surfaces.len(),
{
    reveal(Seq::filter);
    if surfaces.len() > 0 {
        lemma_count_is_filter_length(surfaces.drop_last(), pred);
    }
}

/// A publication counts, among the given surfaces, exactly those projected
/// world-triplanar, those of high quality, and those that sample or blend
/// histogram-preservingly, and one debug view when debug is enabled, none
/// otherwise; surfaces on mesh UV0 or UV1, of fast or balanced
/// quality, or with neither histogram-preserving mode count for nothing.
pub proof fn lemma_published_category_counts(
    surfaces: Seq<StochasticTexturing>,
    height_map_count: usize,
    debug: StochasticDebugSettings,
    before: StochasticTexturingDiagnostics,
)
    requires
        surfaces.len() <= usize::MAX,
    ensures
        ({
            let published = spec_core_diagnostics(surfaces, height_map_count, debug, before);
            &&& published.active_surfaces == surfaces.len()
            &&& published.world_triplanar_surfaces == surfaces.filter(
                |s: StochasticTexturing| s.uv_space == StochasticUvSpace::WorldTriplanar,
            ).len()
            &&& published.high_quality_surfaces == surfaces.filter(
                |s: StochasticTexturing| s.quality == StochasticQuality::HighQuality,
            ).len()
            &&& published.histogram_preserving_surfaces == surfaces.filter(
                |s: StochasticTexturing|
                    s.sampling_mode == StochasticSamplingMode::HistogramPreserving || s.blend_mode
                        == StochasticBlendMode::HistogramPreserving,
            ).len()
            &&& published.active_height_maps == height_map_count
            &&& published.debug_views_enabled == (if debug.enabled {
                1usize
            } else {
                0usize
            })
            &&& published.active_pbr_surfaces == before.active_pbr_surfaces
        }),
{
    let triplanar = |s: StochasticTexturing| is_world_triplanar(s);
    let histogram = |s: StochasticTexturing| is_histogram_preserving(s);
    let high = |s: StochasticTexturing| is_high_quality(s);
    let triplanar_literal = |s: StochasticTexturing|
        s.uv_space == StochasticUvSpace::WorldTriplanar;
    let high_literal = |s: StochasticTexturing| s.quality == StochasticQuality::HighQuality;
    let histogram_literal = |s: StochasticTexturing|
        s.sampling_mode == StochasticSamplingMode::HistogramPreserving || s.blend_mode
            == StochasticBlendMode::HistogramPreserving;
    assert(triplanar =~= triplanar_literal);
    assert(high =~= high_literal);
    assert(histogram =~= histogram_literal);
    lemma_count_is_filter_length(surfaces, triplanar);
    lemma_count_is_filter_length(surfaces, high);
    lemma_count_is_filter_length(surfaces, histogram);
    lemma_diagnostic_counts_bounded(surfaces, triplanar);
    lemma_diagnostic_counts_bounded(surfaces, high);
    lemma_diagnostic_counts_bounded(surfaces, histogram);
}

/// Adding one surface to the scene raises the published sample estimate by
/// that surface's samples per map: 1 when sampling is off, 2 for Checker2,
/// 3 for Hex3, HistogramPreserving and Wang, 4 for TextureBombing.
pub proof fn lemma_sample_estimate_grows_per_surface(
    surfaces: Seq<StochasticTexturing>,
    surface: StochasticTexturing,
    height_map_count: usize,
    debug: StochasticDebugSettings,
    before: StochasticTexturingDiagnostics,
)
    requires
        4 * (surfaces.len() + 1) <= u64::MAX,
    ensures
        ({
            let without = spec_core_diagnostics(surfaces, height_map_count, debug, before);
            let with = spec_core_diagnostics(surfaces.push(surface), height_map_count, debug, before);
            with.estimated_base_sample_count == without.estimated_base_sample_count + match surface.sampling_mode {
                StochasticSamplingMode::Off => 1int,
                StochasticSamplingMode::Checker2 => 2int,
                StochasticSamplingMode::Hex3 => 3int,
                StochasticSamplingMode::HistogramPreserving => 3int,
                StochasticSamplingMode::Wang => 3int,
                StochasticSamplingMode::TextureBombing => 4int,
            }
        }),
{
    let all = surfaces.push(surface);
    assert(all.drop_last() =~= surfaces);
    lemma_diagnostic_counts_bounded(surfaces, |s: StochasticTexturing| true);
    lemma_diagnostic_counts_bounded(all, |s: StochasticTexturing| true);
}

} // verus!
