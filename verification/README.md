# hyperthree_native

The HyperThree native host runs a Three.js game bundle outside the browser:
an embedded JavaScript runtime, a WebGPU device behind `navigator.gpu`, and a
native window. This crate holds its logic as a Verus-verified library.

## Layout

- `src/` — the verified library:
  - `wgsl.rs`: shader text rewriting for the native shader compiler;
  - `paths.rs`, `asset.rs`, `modules.rs`, `storage.rs`: path rules of the
    asset store, the ES module loader and the project sandbox, asset
    inspection, `localStorage` parsing and persistence;
  - `json.rs`, `formats.rs`, `pipeline.rs`, `descriptors.rs`, `gpu.rs`:
    WebGPU descriptors read from JSON, resource checks and usage bits;
  - `commands.rs`: the command encoder, pass and render bundle recorder;
  - `bridge.rs`: texture and geometry registries, keyboard and mouse state;
  - `project.rs`: the project manifest, its defaults and the new-project files;
  - `audio.rs`, `draco.rs`: audio handles and the Draco attribute plan.
- `tests/` — tests of the library.
- `app/` — the program around the library: the command line, file and
  window I/O, the JavaScript runtime bindings, the wgpu renderer and the
  wgpu objects behind the WebGPU bindings.
- `extras/webgpu_bootstrap.js` — the script that installs the WebGPU
  classes on top of the native bindings.

## Not here

Web Audio playback and decoding (`rodio`) and Draco mesh decoding
(`draco_oxide`) are not part of this crate: neither crate is among its
dependencies, so only the integer policies of audio (analyser window
sizes, handle ids) and the Draco attribute plan stand in `src/`. The
original program did not wire either into its main loop.
