//! The standard-material adapter: the material extension built per surface,
//! and the transitions of an entity's material components as the adapter
//! swaps a standard material for an adapted one and back.
//!
//! Handles are generic: `H` finds a height image, `S` a standard material and
//! `A` an adapted material. The renderer owns the assets; this module decides
//! which handle goes in which slot.

use vstd::prelude::*;

use crate::components::{StochasticHeightMap, StochasticTexturing};
use crate::gpu::StochasticShaderUniform;

verus! {

/// The extension data the adapted material carries on top of a standard
/// material: the packed uniform and the optional height image.
#[derive(Clone, Debug)]
pub struct StochasticTexturingMaterialExtension<H> {
    pub uniform: StochasticShaderUniform,
    pub height_map: Option<H>,
}

impl<H: Clone> StochasticTexturingMaterialExtension<H> {
    /// The extension for `surface`, carrying a clone of the height image when
    /// a height map is given.
    pub fn from_surface(
        surface: &StochasticTexturing,
        height_map: Option<&StochasticHeightMap<H>>,
    ) -> (extension: Self)
        ensures
            extension.uniform == StochasticShaderUniform::spec_from_surface(*surface, height_map),
            extension.height_map.is_some() == height_map.is_some(),
            height_map.is_some() ==> cloned(
                height_map.unwrap().image,
                extension.height_map.unwrap(),
            ),
    {
        let uniform = StochasticShaderUniform::from_surface(surface, height_map);
        let image = match height_map {
            Some(map) => Some(map.image.clone()),
            None => None,
        };
        StochasticTexturingMaterialExtension { uniform, height_map: image }
    }
}

/// Links an adapted material back to the standard material it was built from.
#[derive(Clone, Debug)]
pub struct StochasticPbrMaterialBinding<S, A> {
    pub source_material: S,
    pub adapted_material: A,
}

/// The material components of one entity.
#[derive(Clone, Debug)]
pub struct SurfaceMaterialSlots<S, A> {
    /// The entity carries a `StochasticTexturing` surface.
    pub has_surface: bool,
    /// The standard material slot.
    pub standard: Option<S>,
    /// The adapted material slot.
    pub adapted: Option<A>,
    /// The adapter's record of the swap.
    pub binding: Option<StochasticPbrMaterialBinding<S, A>>,
}

impl<S, A> SurfaceMaterialSlots<S, A> {
    /// The adapter takes over an entity that has a surface and a standard
    /// slot but no binding yet.
    pub open spec fn awaits_adaptation(self) -> bool {
        self.has_surface && self.standard.is_some() && self.binding.is_none()
    }

    /// The entity shows an adapted material recorded by a binding.
    pub open spec fn is_adapted(self) -> bool {
        self.adapted.is_some() && self.binding.is_some()
    }

    /// The state after adapting with the adapted material `adapted`, or the
    /// state unchanged when there is nothing to adapt or no material was
    /// built (`None`: the source material is not loaded).
    pub open spec fn spec_adapt(self, adapted: Option<A>) -> Self {
        if self.awaits_adaptation() && adapted.is_some() {
            SurfaceMaterialSlots {
                has_surface: self.has_surface,
                standard: None,
                adapted: adapted,
                binding: Some(
                    StochasticPbrMaterialBinding {
                        source_material: self.standard.unwrap(),
                        adapted_material: adapted.unwrap(),
                    },
                ),
            }
        } else {
            self
        }
    }

    /// The state after handing an adapted entity back its standard slot.
    pub open spec fn spec_restore_standard(self) -> Self {
        SurfaceMaterialSlots {
            has_surface: self.has_surface,
            standard: Some(self.binding.unwrap().source_material),
            adapted: None,
            binding: None,
        }
    }

    /// The same components with the surface removed.
    pub open spec fn without_surface(self) -> Self {
        SurfaceMaterialSlots {
            has_surface: false,
            standard: self.standard,
            adapted: self.adapted,
            binding: self.binding,
        }
    }

    /// The components of an entity showing only the standard slot `standard`.
    pub open spec fn standard_only(has_surface: bool, standard: Option<S>) -> Self {
        SurfaceMaterialSlots { has_surface, standard, adapted: None, binding: None }
    }

    /// Restoration for entities that lost their surface.
    pub open spec fn spec_restore_removed(self) -> Self {
        if !self.has_surface && self.is_adapted() {
            self.spec_restore_standard()
        } else {
            self
        }
    }

    /// Restoration of every adapted entity, surface or not.
    pub open spec fn spec_reset(self) -> Self {
        if self.is_adapted() {
            self.spec_restore_standard()
        } else {
            self
        }
    }
}

/// Swaps an entity's standard material for the adapted material `adapted`
/// (built by the renderer from the standard one, `None` when that was not
/// loaded), recording the swap in a binding. Entities that are not awaiting
/// adaptation are returned unchanged. The adapted slot holds a clone of the
/// handle that the binding records.
pub fn adapt_standard_material<S, A: Clone>(
    slots: SurfaceMaterialSlots<S, A>,
    adapted: Option<A>,
) -> (next: SurfaceMaterialSlots<S, A>)
    ensures
        next.has_surface == slots.spec_adapt(adapted).has_surface,
        next.standard == slots.spec_adapt(adapted).standard,
        next.binding == slots.spec_adapt(adapted).binding,
        next.adapted.is_some() == slots.spec_adapt(adapted).adapted.is_some(),
        slots.spec_adapt(adapted).adapted.is_some() ==> cloned(
            slots.spec_adapt(adapted).adapted.unwrap(),
            next.adapted.unwrap(),
        ),
        !(slots.awaits_adaptation() && adapted.is_some()) ==> next == slots,
{
    let ready = slots.has_surface && slots.standard.is_some() && slots.binding.is_none();
    if ready {
        match adapted {
            Some(adapted_material) => {
                let SurfaceMaterialSlots { has_surface, standard, adapted: _, binding: _ } = slots;
                let source_material = match standard {
                    Some(source) => source,
                    None => {
                        proof {
                            assert(false);
                        }
                        return SurfaceMaterialSlots {
                            has_surface,
                            standard: None,
                            adapted: None,
                            binding: None,
                        };
                    },
                };
                let slot = adapted_material.clone();
                SurfaceMaterialSlots {
                    has_surface,
                    standard: None,
                    adapted: Some(slot),
                    binding: Some(
                        StochasticPbrMaterialBinding { source_material, adapted_material },
                    ),
                }
            },
            None => slots,
        }
    } else {
        slots
    }
}

/// Hands the standard slot back to an adapted entity: the binding's source
/// material returns to the standard slot, and the adapted slot and the
/// binding are removed.
fn restore_standard<S, A>(slots: SurfaceMaterialSlots<S, A>) -> (next: SurfaceMaterialSlots<S, A>)
    requires
        slots.is_adapted(),
    ensures
        next == slots.spec_restore_standard(),
{
    let SurfaceMaterialSlots { has_surface, standard: _, adapted: _, binding } = slots;
    match binding {
        Some(binding) => SurfaceMaterialSlots {
            has_surface,
            standard: Some(binding.source_material),
            adapted: None,
            binding: None,
        },
        None => {
            proof {
                assert(false);
            }
            SurfaceMaterialSlots { has_surface, standard: None, adapted: None, binding: None }
        },
    }
}

/// Gives an adapted entity whose surface was removed its standard material
/// back. Any other entity is returned unchanged.
pub fn restore_removed_surface<S, A>(slots: SurfaceMaterialSlots<S, A>) -> (next:
    SurfaceMaterialSlots<S, A>)
    ensures
        next == slots.spec_restore_removed(),
        slots.has_surface ==> next == slots,
{
    if !slots.has_surface && slots.adapted.is_some() && slots.binding.is_some() {
        restore_standard(slots)
    } else {
        slots
    }
}

/// Gives every adapted entity its standard material back, whether or not it
/// still carries a surface (the adapter shutting down).
pub fn reset_material<S, A>(slots: SurfaceMaterialSlots<S, A>) -> (next: SurfaceMaterialSlots<
    S,
    A,
>)
    ensures
        next == slots.spec_reset(),
        !next.is_adapted(),
{
    if slots.adapted.is_some() && slots.binding.is_some() {
        restore_standard(slots)
    } else {
        slots
    }
}

/// What refreshing an adapted material does.
#[derive(Clone, Copy, Debug, PartialEq, Eq, Structural)]
pub enum SyncAction {
    /// Leave the adapted material as it is.
    Skip,
    /// Rebuild the extension from the current surface settings.
    RefreshExtension,
    /// Copy the standard material into the base, then rebuild the extension.
    RefreshBaseAndExtension,
}

/// Decides how to refresh the adapted material of a bound surface:
/// nothing when its slot no longer shows the bound material or that material
/// is gone, otherwise the extension, and the base too when the source
/// standard material is loaded.
pub fn sync_adapted_material(
    slot_shows_binding: bool,
    adapted_loaded: bool,
    source_loaded: bool,
) -> (action: SyncAction)
    ensures
        action == (if !slot_shows_binding || !adapted_loaded {
            SyncAction::Skip
        } else if source_loaded {
            SyncAction::RefreshBaseAndExtension
        } else {
            SyncAction::RefreshExtension
        }),
{
    if !slot_shows_binding {
        return SyncAction::Skip;
    }
    if !adapted_loaded {
        return SyncAction::Skip;
    }
    if source_loaded {
        SyncAction::RefreshBaseAndExtension
    } else {
        SyncAction::RefreshExtension
    }
}

/// Removing the surface of an adapted entity and restoring it gives back the
/// standard material slot it had before adaptation, with no adapted slot and
/// no binding left.
pub proof fn lemma_restore_undoes_adapt<S, A>(slots: SurfaceMaterialSlots<S, A>, adapted: A)
    requires
        slots.awaits_adaptation(),
    ensures
        slots.spec_adapt(Some(adapted)).without_surface().spec_restore_removed()
            == SurfaceMaterialSlots::<S, A>::standard_only(false, slots.standard),
{
}

/// Resetting an adapted entity gives back the standard material slot it had
/// before adaptation.
pub proof fn lemma_reset_undoes_adapt<S, A>(slots: SurfaceMaterialSlots<S, A>, adapted: A)
    requires
        slots.awaits_adaptation(),
    ensures
        slots.spec_adapt(Some(adapted)).spec_reset() == SurfaceMaterialSlots::<
            S,
            A,
        >::standard_only(slots.has_surface, slots.standard),
{
}

/// Adapting an entity twice does nothing the second time.
pub proof fn lemma_adapt_is_idempotent<S, A>(
    slots: SurfaceMaterialSlots<S, A>,
    first: Option<A>,
    second: Option<A>,
)
    requires
        first.is_some(),
    ensures
        slots.spec_adapt(first).spec_adapt(second) == slots.spec_adapt(first),
{
}

/// Adapting moves the standard material into the binding as its source,
/// shows the new adapted material, and records that same material in the
/// binding; restoring an entity that lost its surface puts the binding's
/// source back into the standard slot and drops the rest, while an entity
/// that keeps its surface, or has no binding, is never restored.
pub proof fn lemma_adapt_and_restore_move_the_handles<S, A>(
    slots: SurfaceMaterialSlots<S, A>,
    adapted: A,
)
    ensures
        slots.awaits_adaptation() ==> {
            let after = slots.spec_adapt(Some(adapted));
            &&& after.has_surface == slots.has_surface
            &&& after.standard.is_none()
            &&& after.adapted == Some(adapted)
            &&& after.binding.is_some()
            &&& after.binding.unwrap().source_material == slots.standard.unwrap()
            &&& after.binding.unwrap().adapted_material == adapted
        },
        !slots.has_surface && slots.adapted.is_some() && slots.binding.is_some() ==> {
            let after = slots.spec_restore_removed();
            &&& !after.has_surface
            &&& after.standard == Some(slots.binding.unwrap().source_material)
            &&& after.adapted.is_none()
            &&& after.binding.is_none()
        },
        slots.has_surface || slots.binding.is_none() ==> slots.spec_restore_removed() == slots,
        slots.binding.is_none() ==> slots.spec_reset() == slots,
{
}

} // verus!
