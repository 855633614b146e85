//! Stable import paths of the reusable shader modules.

use vstd::prelude::*;

verus! {

/// Import path of the shared shader types module.
pub const STOCHASTIC_TYPES_IMPORT_PATH: &'static str = "stochastic_texturing::types";

/// Import path of the shared sampling helpers module.
pub const STOCHASTIC_SAMPLING_IMPORT_PATH: &'static str = "stochastic_texturing::sampling";

} // verus!
