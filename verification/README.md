# stochastic_texturing

Anti-repetition ("stochastic") texturing for repeated surface materials: the
authoring data, the packing of per-surface settings into shader lanes, the
diagnostics, and the decisions of the standard-material adapter, written in
Verus with their contracts proved.

- `src/` — the verified library
  - `config` — authoring enums and debug settings
  - `components` — the per-surface authoring data and height maps
    (real-valued parameters carried as `f32` bit patterns)
  - `gpu` — shader codes of every enum and the integer lanes of the uniform
  - `pbr` — the material extension and the material-slot transitions of the
    adapter (adapt, restore, reset, sync)
  - `setup` — which asset stores and plugins get registered
  - `systems` — runtime activation and diagnostics publication
  - `diagnostics`, `shader_library` — diagnostics record and shader import paths
- `tests/` — tests of the library
- `app/` — the Bevy integration: components, resources, systems and plugins
  that hand ECS data to the library and write its decisions back; the
  floating-point clamps of the uniform live here.
