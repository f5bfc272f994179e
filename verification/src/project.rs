//! The project manifest (`hyperthree.toml`) as the host reads it, its
//! defaults, the files of a new project, and the host's start-up choices
//! that depend on the manifest.
use vstd::prelude::*;
use crate::paths::{is_absolute_path, join_components, path_is_absolute, parent_of, path_joined, path_parent, probe_answered};

verus! {

/// A project's `hyperthree.toml`.
pub struct Manifest {
    pub project: Project,
    pub window: Window,
    pub build: Build,
}

/// The `[project]` table: the game's name, the script the build starts from
/// and the bundle the host runs, both relative to the project root.
pub struct Project {
    pub name: String,
    pub entry: String,
    pub output: String,
}

/// The `[window]` table; each field left out takes the host's default.
pub struct Window {
    pub title: Option<String>,
    pub width: Option<u32>,
    pub height: Option<u32>,
    pub transparent: bool,
}

/// The `[build]` table: the shell command that bundles the game.
pub struct Build {
    pub command: Option<String>,
}

impl Default for Window {
    /// No title or size of its own, opaque.
    fn default() -> (r: Self)
        ensures
            r.title is None,
            r.width is None,
            r.height is None,
            !r.transparent,
    {
        Window { title: None, width: None, height: None, transparent: false }
    }
}

impl Default for Build {
    /// No build command.
    fn default() -> (r: Self)
        ensures
            r.command is None,
    {
        Build { command: None }
    }
}

/// `src/game.js`
pub open spec fn default_entry_text() -> Seq<char> {
    seq!['s', 'r', 'c', '/', 'g', 'a', 'm', 'e', '.', 'j', 's']
}

/// `dist/game.js`
pub open spec fn default_output_text() -> Seq<char> {
    seq!['d', 'i', 's', 't', '/', 'g', 'a', 'm', 'e', '.', 'j', 's']
}

/// The entry script of a manifest that names none.
pub fn default_entry() -> (r: String)
    ensures
        r@ == default_entry_text(),
{
    let r = "src/game.js";
    proof {
        reveal_strlit("src/game.js");
    }
    r.to_string()
}

/// The bundle of a manifest that names none.
pub fn default_output() -> (r: String)
    ensures
        r@ == default_output_text(),
{
    let r = "dist/game.js";
    proof {
        reveal_strlit("dist/game.js");
    }
    r.to_string()
}

/// Window title when the manifest gives none.
pub const DEFAULT_WINDOW_TITLE: &'static str = "HyperThree Native";

/// Window width, in pixels, when the manifest gives none.
pub const DEFAULT_WINDOW_WIDTH: u32 = 1280;

/// Window height, in pixels, when the manifest gives none.
pub const DEFAULT_WINDOW_HEIGHT: u32 = 720;

/// The title of the native window: the manifest's, else the host's.
pub fn window_title(manifest: &Option<Manifest>) -> (r: String)
    ensures
        manifest matches Some(m) && m.window.title is Some ==> r@ == manifest->0.window.title->0@,
        !(manifest matches Some(m) && m.window.title is Some) ==> r@ == DEFAULT_WINDOW_TITLE@,
{
    match manifest {
        Some(m) => match &m.window.title {
            Some(title) => title.clone(),
            None => DEFAULT_WINDOW_TITLE.to_string(),
        },
        None => DEFAULT_WINDOW_TITLE.to_string(),
    }
}

/// The inner size of the native window: each of the manifest's dimensions
/// where it gives one, else the host's.
pub fn window_size(manifest: &Option<Manifest>) -> (r: (u32, u32))
    ensures
        r.0 == match manifest {
            Some(m) => match m.window.width {
                Some(w) => w,
                None => DEFAULT_WINDOW_WIDTH,
            },
            None => DEFAULT_WINDOW_WIDTH,
        },
        r.1 == match manifest {
            Some(m) => match m.window.height {
                Some(h) => h,
                None => DEFAULT_WINDOW_HEIGHT,
            },
            None => DEFAULT_WINDOW_HEIGHT,
        },
{
    match manifest {
        Some(m) => (
            match m.window.width {
                Some(w) => w,
                None => DEFAULT_WINDOW_WIDTH,
            },
            match m.window.height {
                Some(h) => h,
                None => DEFAULT_WINDOW_HEIGHT,
            },
        ),
        None => (DEFAULT_WINDOW_WIDTH, DEFAULT_WINDOW_HEIGHT),
    }
}

impl Manifest {
    /// The command `build` runs: the manifest's, unless told to skip it.
    pub fn build_command(&self, skip_command: bool) -> (r: Option<String>)
        ensures
            skip_command ==> r is None,
            !skip_command ==> (r is Some <==> self.build.command is Some),
            !skip_command && r is Some ==> r->0@ == self.build.command->0@,
    {
        if skip_command {
            return None;
        }
        match &self.build.command {
            Some(command) => Some(command.clone()),
            None => None,
        }
    }
}

/// The program and arguments that run a build command: `cmd /C` on Windows,
/// `sh -c` elsewhere.
pub fn shell_invocation(command: &str, windows: bool) -> (r: (String, Vec<String>))
    ensures
        windows ==> r.0@ == "cmd"@ && r.1@.len() == 2 && r.1@[0]@ == "/C"@,
        !windows ==> r.0@ == "sh"@ && r.1@.len() == 2 && r.1@[0]@ == "-c"@,
        r.1@.len() == 2 && r.1@[1]@ == command@,
{
    let mut args: Vec<String> = Vec::new();
    let program = if windows {
        args.push("/C".to_string());
        "cmd".to_string()
    } else {
        args.push("-c".to_string());
        "sh".to_string()
    };
    args.push(command.to_string());
    (program, args)
}

/// A script path given on the command line: kept when absolute, otherwise
/// taken relative to the host's own directory.
pub fn project_path(path: &str, host_dir: &str) -> (r: String)
    ensures
        path_is_absolute(path@) ==> r@ == path@,
        !path_is_absolute(path@) ==> r@ == path_joined(host_dir@, path@),
{
    if is_absolute_path(path) {
        path.to_string()
    } else {
        join_components(host_dir, path)
    }
}

/// The script's directory, or the host's own directory for a script
/// without one.
pub open spec fn root_search_start(script: Seq<char>, host_dir: Seq<char>) -> Seq<char> {
    match path_parent(script) {
        Some(p) => p,
        None => host_dir,
    }
}

/// Where the search for a script's project root begins: the script's
/// directory, or the host's own directory for a script without one.
pub fn runtime_root_start(script: &str, host_dir: &str) -> (r: String)
    ensures
        r@ == root_search_start(script@, host_dir@),
{
    match parent_of(script) {
        Some(parent) => parent,
        None => host_dir.to_string(),
    }
}

/// One step of the project-root search, from a directory and whether it
/// holds `hyperthree.toml` or `package.json`.
pub enum RootSearch {
    /// The search ends at this directory.
    Found(String),
    /// The search goes on at this directory, the parent of the last one.
    Next(String),
}

/// Decides the project-root search at `candidate`: it is the root when it
/// holds a project file or has no parent, otherwise the search moves to its
/// parent, which is shorter, so the search ends.
pub fn runtime_root_step(candidate: &str, has_project_file: bool) -> (r: RootSearch)
    ensures
        has_project_file ==> (r matches RootSearch::Found(d) && d@ == candidate@),
        !has_project_file && path_parent(candidate@) is None ==> (r matches RootSearch::Found(d)
            && d@ == candidate@),
        !has_project_file && path_parent(candidate@) is Some ==> (r matches RootSearch::Next(d) && d@
            == path_parent(candidate@)->0),
        r matches RootSearch::Next(d) ==> d@.len() < candidate@.len(),
{
    if has_project_file {
        return RootSearch::Found(candidate.to_string());
    }
    match parent_of(candidate) {
        None => RootSearch::Found(candidate.to_string()),
        Some(parent) => RootSearch::Next(parent),
    }
}

/// The directory `n` levels above `dir`, if there are that many.
pub open spec fn ancestor(dir: Seq<char>, n: nat) -> Option<Seq<char>>
    decreases n,
{
    if n == 0 {
        Some(dir)
    } else {
        match ancestor(dir, (n - 1) as nat) {
            Some(d) => path_parent(d),
            None => None,
        }
    }
}

/// The probe found `hyperthree.toml`, or failing that `package.json`, in `dir`.
pub open spec fn found_project_file<F: Fn(&str) -> bool>(is_file: F, dir: Seq<char>) -> bool {
    ||| probe_answered(is_file, path_joined(dir, "hyperthree.toml"@), true)
    ||| probe_answered(is_file, path_joined(dir, "hyperthree.toml"@), false) && probe_answered(
        is_file,
        path_joined(dir, "package.json"@),
        true,
    )
}

/// The probe found neither `hyperthree.toml` nor `package.json` in `dir`.
pub open spec fn no_project_file<F: Fn(&str) -> bool>(is_file: F, dir: Seq<char>) -> bool {
    &&& probe_answered(is_file, path_joined(dir, "hyperthree.toml"@), false)
    &&& probe_answered(is_file, path_joined(dir, "package.json"@), false)
}

/// Each of the first `n` directories from `start` upwards exists and holds
/// no project file.
pub open spec fn no_project_file_below<F: Fn(&str) -> bool>(is_file: F, start: Seq<char>, n: nat) -> bool {
    forall|m: nat| m < n ==> (#[trigger] ancestor(start, m) matches Some(d) && no_project_file(is_file, d))
}

/// The project root of a script: from the script's directory (see
/// `runtime_root_start`) upwards, the first directory where `is_file` finds
/// `hyperthree.toml` or `package.json`, or the topmost directory when none
/// has one.
pub fn runtime_root<F: Fn(&str) -> bool>(script: &str, host_dir: &str, is_file: &F) -> (r: String)
    requires
        forall|s: &str| #[trigger] is_file.requires((s,)),
    ensures
        exists|n: nat|
            ancestor(root_search_start(script@, host_dir@), n) == Some(r@) && (found_project_file(*is_file, r@)
                || path_parent(r@) is None) && #[trigger] no_project_file_below(
                *is_file,
                root_search_start(script@, host_dir@),
                n,
            ),
{
    let mut candidate = runtime_root_start(script, host_dir);
    let ghost start = candidate@;
    let ghost mut n: nat = 0;
    loop
        invariant
            forall|s: &str| #[trigger] is_file.requires((s,)),
            start == root_search_start(script@, host_dir@),
            ancestor(start, n) == Some(candidate@),
            no_project_file_below(*is_file, start, n),
        decreases candidate@.len(),
    {
        let manifest = join_components(candidate.as_str(), "hyperthree.toml");
        let package = join_components(candidate.as_str(), "package.json");
        let has_manifest = is_file(manifest.as_str());
        let has_project_file = if has_manifest {
            true
        } else {
            let has_package = is_file(package.as_str());
            proof {
                assert(probe_answered(*is_file, package@, has_package));
            }
            has_package
        };
        proof {
            assert(probe_answered(*is_file, manifest@, has_manifest));
        }
        match runtime_root_step(candidate.as_str(), has_project_file) {
            RootSearch::Found(dir) => {
                proof {
                    assert(ancestor(start, n) == Some(dir@));
                    assert(found_project_file(*is_file, dir@) || path_parent(dir@) is None);
                    assert(no_project_file_below(*is_file, start, n));
                }
                return dir;
            },
            RootSearch::Next(parent) => {
                proof {
                    assert(no_project_file(*is_file, candidate@));
                    assert(ancestor(start, n + 1) == Some(parent@));
                    assert forall|m: nat| m < n + 1 implies (#[trigger] ancestor(start, m) matches Some(d)
                        && no_project_file(*is_file, d)) by {
                        if m < n {
                            assert(no_project_file_below(*is_file, start, n));
                        }
                    }
                    n = n + 1;
                }
                candidate = parent;
            },
        }
    }
}

/// `hyperthree.toml` of a new project.
pub const INIT_MANIFEST: &'static str = r#"[project]
name = "my-hyperthree-game"
entry = "src/game.js"
output = "dist/game.js"

[window]
title = "My HyperThree Game"
width = 1280
height = 720
transparent = false

[build]
command = "npm run build"
"#;

/// `package.json` of a new project.
pub const INIT_PACKAGE_JSON: &'static str = r#"{
  "name": "my-hyperthree-game",
  "private": true,
  "type": "module",
  "scripts": {
    "build": "vite build"
  },
  "dependencies": {
    "three": "^0.179.0"
  },
  "devDependencies": {
    "vite": "^7.0.0"
  }
}
"#;

/// `vite.config.js` of a new project: an IIFE bundle at `dist/game.js`.
pub const INIT_VITE_CONFIG: &'static str = r#"import { defineConfig } from "vite";

export default defineConfig({
  build: {
    lib: {
      entry: "src/game.js",
      name: "HyperThreeGame",
      formats: ["iife"],
      fileName: () => "game.js"
    },
    outDir: "dist",
    emptyOutDir: true
  }
});
"#;

/// `src/game.js` of a new project: a Three.js scene drawn by the standard
/// `WebGPURenderer` on the native canvas.
pub const INIT_GAME_JS: &'static str = r#"import * as THREE from "three";
import { WebGPURenderer } from "three/webgpu";

const scene = new THREE.Scene();
scene.name = "AI-created HyperThree scene";
const camera = new THREE.PerspectiveCamera(60, 16 / 9, 0.1, 100);
camera.position.set(0, 0, 4);
camera.lookAt(0, 0, 0);
const cube = new THREE.Mesh(
  new THREE.BoxGeometry(1.4, 1.4, 1.4),
  new THREE.MeshPhysicalMaterial({
    color: 0x19ccef,
    metalness: 0.25,
    roughness: 0.28,
    clearcoat: 0.35,
  }),
);
scene.add(cube);
scene.add(new THREE.HemisphereLight(0x9fc9ff, 0x101018, 1.4));
const keyLight = new THREE.DirectionalLight(0xffffff, 3.0);
keyLight.position.set(-3, 4, 5);
scene.add(keyLight);

// The native host owns the frame clock. This is the same renderer contract as
// a browser Three.js WebGPURenderer, but the canvas is backed by the native
// wgpu surface instead of a DOM/WebGL context.
const renderer = new WebGPURenderer({
  canvas: HyperThreeNative.canvas,
  antialias: true,
});
renderer.setPixelRatio(window.devicePixelRatio || 1);
let rendererReady = false;
let renderError = null;
let renderInFlight = false;

const resize = () => {
  const width = Math.max(1, window.innerWidth || 1280);
  const height = Math.max(1, window.innerHeight || 720);
  camera.aspect = width / height;
  camera.updateProjectionMatrix();
  if (rendererReady) renderer.setSize(width, height, false);
};
window.addEventListener("resize", resize);

const rendererReadyPromise = renderer.init().then(() => {
  rendererReady = true;
  resize();
}).catch((error) => {
  renderError = error;
});

globalThis.HyperThreeGame = {
  scene,
  camera,
  cube,
  renderer,
  rendererReady: rendererReadyPromise,
};

renderer.setClearColor(0x04050d, 1.0);

let elapsed = 0;
globalThis.HyperThreeGame.update = (deltaSeconds) => {
  if (renderError) throw renderError;
  elapsed += deltaSeconds;
  cube.position.y = Math.sin(elapsed) * 0.25;
  cube.rotation.y = elapsed + 0.55;
  if (!rendererReady || renderInFlight) return;
  renderInFlight = true;
  renderer.renderAsync(scene, camera).then(() => {
    renderInFlight = false;
  }).catch((error) => {
    renderInFlight = false;
    renderError = error;
  });
};

globalThis.HyperThreeGame.onStart = () => { resize(); };
globalThis.HyperThreeGame.onStop = () => {
  window.removeEventListener("resize", resize);
  renderer.dispose();
};
"#;

/// `README.md` of a new project.
pub const INIT_README: &'static str = r#"# My HyperThree Game

## AI-first workflow

1. `npm install`
2. Ask your coding agent to edit `src/game.js` and keep the game state in `HyperThreeGame`.
3. `npm run build`
4. From the HyperThree Native checkout: `cargo run -- run --project /path/to/this/project`

`hyperthree.toml` is the stable contract between the generated game and the
native host. Use the standard Three.js WebGPURenderer with
`HyperThreeNative.canvas`; the native host provides the WebGPU binding and
window/input lifecycle.
"#;

} // verus!
