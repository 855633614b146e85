//! Decisions taken when the plugins register their assets: which asset
//! stores to create, and whether shaders can be loaded at all.
//!
//! With an asset server the stores are initialised through it and the
//! shaders are loaded; without one (headless use) bare default stores are
//! inserted so that the adapter still finds what it reads and writes.
//! A store that already exists is never created again.

use vstd::prelude::*;

verus! {

/// What the adapter plugin does before registering its own systems.
#[derive(Clone, Copy, Debug, PartialEq, Eq, Structural)]
pub struct PbrPluginPlan {
    /// Add the core plugin with the adapter's schedules.
    pub add_core_plugin: bool,
    /// Create the schedule that never runs, used as the deactivation
    /// schedule of an always-on runtime.
    pub init_never_schedule: bool,
}

/// The adapter brings the core plugin along only when the application has
/// not added it (a plugin cannot be added twice), and creates the never-run
/// schedule exactly when its deactivation schedule is that schedule.
pub fn plan_pbr_plugin_build(core_plugin_added: bool, deactivates_never: bool) -> (plan:
    PbrPluginPlan)
    ensures
        plan.add_core_plugin == !core_plugin_added,
        plan.init_never_schedule == deactivates_never,
{
    PbrPluginPlan { add_core_plugin: !core_plugin_added, init_never_schedule: deactivates_never }
}

/// Which asset machinery the application already has.
#[derive(Clone, Copy, Debug, PartialEq, Eq, Structural)]
pub struct AssetStores {
    pub asset_server: bool,
    pub images: bool,
    pub shaders: bool,
    pub standard_materials: bool,
    pub pbr_materials: bool,
}

/// What the shader library registers.
#[derive(Clone, Copy, Debug, PartialEq, Eq, Structural)]
pub struct ShaderLibraryPlan {
    /// Initialise the shader store through the asset server.
    pub init_shaders: bool,
    /// Load the library's internal shader modules.
    pub load_library_shaders: bool,
}

/// What the standard-material adapter registers, after the shader library.
#[derive(Clone, Copy, Debug, PartialEq, Eq, Structural)]
pub struct PbrAssetPlan {
    pub library: ShaderLibraryPlan,
    /// Initialise the image store through the asset server.
    pub init_images: bool,
    /// Initialise the shader store through the asset server.
    pub init_shaders: bool,
    /// Initialise the standard-material store through the asset server.
    pub init_standard_materials: bool,
    /// Load the adapter's fragment shader and add its material plugin,
    /// which creates the adapted-material store.
    pub load_adapter: bool,
    /// Insert a bare image store.
    pub insert_images: bool,
    /// Insert a bare standard-material store.
    pub insert_standard_materials: bool,
    /// Insert a bare adapted-material store.
    pub insert_pbr_materials: bool,
}

pub open spec fn spec_shader_library_plan(stores: AssetStores) -> ShaderLibraryPlan {
    ShaderLibraryPlan {
        init_shaders: stores.asset_server && !stores.shaders,
        load_library_shaders: stores.asset_server,
    }
}

/// The shader library creates the shader store only when an asset server
/// exists and the store does not, and loads its modules whenever an asset
/// server exists.
pub fn plan_shader_library_setup(stores: AssetStores) -> (plan: ShaderLibraryPlan)
    ensures
        plan == spec_shader_library_plan(stores),
{
    if stores.asset_server {
        ShaderLibraryPlan { init_shaders: !stores.shaders, load_library_shaders: true }
    } else {
        ShaderLibraryPlan { init_shaders: false, load_library_shaders: false }
    }
}

/// The stores after the shader library has registered.
pub open spec fn stores_after_library(stores: AssetStores, plan: ShaderLibraryPlan) -> AssetStores {
    AssetStores { shaders: stores.shaders || plan.init_shaders, ..stores }
}

pub open spec fn spec_pbr_asset_plan(stores: AssetStores) -> PbrAssetPlan {
    let library = spec_shader_library_plan(stores);
    let seen = stores_after_library(stores, library);
    if seen.asset_server {
        PbrAssetPlan {
            library,
            init_images: !seen.images,
            init_shaders: !seen.shaders,
            init_standard_materials: !seen.standard_materials,
            load_adapter: true,
            insert_images: false,
            insert_standard_materials: false,
            insert_pbr_materials: false,
        }
    } else {
        PbrAssetPlan {
            library,
            init_images: false,
            init_shaders: false,
            init_standard_materials: false,
            load_adapter: false,
            insert_images: !seen.images,
            insert_standard_materials: !seen.standard_materials,
            insert_pbr_materials: !seen.pbr_materials,
        }
    }
}

/// The adapter's asset registration: the shader library first, then the
/// stores the adapter needs, created through the asset server when there is
/// one and inserted bare otherwise, each only when missing.
pub fn plan_pbr_asset_setup(stores: AssetStores) -> (plan: PbrAssetPlan)
    ensures
        plan == spec_pbr_asset_plan(stores),
{
    let library = plan_shader_library_setup(stores);
    let shaders = stores.shaders || library.init_shaders;
    if stores.asset_server {
        PbrAssetPlan {
            library,
            init_images: !stores.images,
            init_shaders: !shaders,
            init_standard_materials: !stores.standard_materials,
            load_adapter: true,
            insert_images: false,
            insert_standard_materials: false,
            insert_pbr_materials: false,
        }
    } else {
        PbrAssetPlan {
            library,
            init_images: false,
            init_shaders: false,
            init_standard_materials: false,
            load_adapter: false,
            insert_images: !stores.images,
            insert_standard_materials: !stores.standard_materials,
            insert_pbr_materials: !stores.pbr_materials,
        }
    }
}

/// The stores after the adapter's registration has been carried out.
pub open spec fn stores_after_pbr(stores: AssetStores, plan: PbrAssetPlan) -> AssetStores {
    let seen = stores_after_library(stores, plan.library);
    AssetStores {
        asset_server: seen.asset_server,
        images: seen.images || plan.init_images || plan.insert_images,
        shaders: seen.shaders || plan.init_shaders,
        standard_materials: seen.standard_materials || plan.init_standard_materials
            || plan.insert_standard_materials,
        pbr_materials: seen.pbr_materials || plan.load_adapter || plan.insert_pbr_materials,
    }
}

/// Whatever the application had, after the adapter's registration the image,
/// standard-material and adapted-material stores all exist (and the shader
/// store too when there is an asset server), and no existing store is
/// created a second time.
pub proof fn lemma_pbr_setup_provides_stores(stores: AssetStores)
    ensures
        ({
            let plan = spec_pbr_asset_plan(stores);
            let after = stores_after_pbr(stores, plan);
            &&& after.images
            &&& after.standard_materials
            &&& after.pbr_materials
            &&& stores.asset_server ==> after.shaders
            &&& !(plan.library.init_shaders && plan.init_shaders)
            &&& stores.images ==> !plan.init_images && !plan.insert_images
            &&& stores.shaders ==> !plan.library.init_shaders && !plan.init_shaders
            &&& stores.standard_materials ==> !plan.init_standard_materials
                && !plan.insert_standard_materials
            &&& stores.pbr_materials ==> !plan.insert_pbr_materials
        }),
{
}

/// The shader library loads its modules exactly when an asset server exists,
/// whether or not the shader store was already there, and creates the
/// shader store only through an asset server and only when it is missing.
pub proof fn lemma_shader_library_loads_with_asset_server(stores: AssetStores)
    ensures
        spec_shader_library_plan(stores).load_library_shaders == stores.asset_server,
        spec_shader_library_plan(stores).init_shaders ==> stores.asset_server && !stores.shaders,
        stores.asset_server && !stores.shaders ==> spec_shader_library_plan(stores).init_shaders,
{
}

/// Without an asset server nothing is initialised or loaded through one:
/// only bare stores are inserted. With an asset server nothing bare is
/// inserted, and the adapter's shader and material plugin are loaded.
pub proof fn lemma_pbr_setup_follows_asset_server(stores: AssetStores)
    ensures
        ({
            let plan = spec_pbr_asset_plan(stores);
            &&& !stores.asset_server ==> {
                &&& !plan.init_images
                &&& !plan.init_shaders
                &&& !plan.init_standard_materials
                &&& !plan.load_adapter
                &&& !plan.library.init_shaders
                &&& !plan.library.load_library_shaders
            }
            &&& stores.asset_server ==> {
                &&& !plan.insert_images
                &&& !plan.insert_standard_materials
                &&& !plan.insert_pbr_materials
                &&& plan.load_adapter
                &&& plan.library.load_library_shaders
            }
            &&& plan.library == spec_shader_library_plan(stores)
        }),
{
}

/// Each store the adapter needs is created exactly when it is missing, by
/// the asset server when there is one and bare otherwise.
pub proof fn lemma_pbr_setup_creates_missing_stores(stores: AssetStores)
    ensures
        ({
            let plan = spec_pbr_asset_plan(stores);
            &&& plan.init_images == (stores.asset_server && !stores.images)
            &&& plan.insert_images == (!stores.asset_server && !stores.images)
            &&& plan.init_standard_materials == (stores.asset_server && !stores.standard_materials)
            &&& plan.insert_standard_materials == (!stores.asset_server
                && !stores.standard_materials)
            &&& plan.insert_pbr_materials == (!stores.asset_server && !stores.pbr_materials)
            &&& !plan.init_shaders
        }),
{
}

} // verus!
