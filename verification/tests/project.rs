use hyperthree_native::project::{
    default_entry, default_output, project_path, runtime_root, runtime_root_start, runtime_root_step,
    shell_invocation, window_size, window_title, Build, Manifest, Project, RootSearch, Window,
    DEFAULT_WINDOW_HEIGHT, DEFAULT_WINDOW_TITLE, DEFAULT_WINDOW_WIDTH, INIT_GAME_JS,
    INIT_MANIFEST, INIT_README, INIT_VITE_CONFIG,
};

fn manifest(title: Option<&str>, width: Option<u32>, command: Option<&str>) -> Manifest {
    Manifest {
        project: Project {
            name: "test".to_string(),
            entry: default_entry(),
            output: default_output(),
        },
        window: Window {
            title: title.map(str::to_string),
            width,
            height: None,
            transparent: false,
        },
        build: Build {
            command: command.map(str::to_string),
        },
    }
}

#[test]
fn generated_project_uses_standard_webgpu_renderer() {
    assert!(INIT_GAME_JS.contains("WebGPURenderer"));
    assert!(INIT_GAME_JS.contains("HyperThreeNative.canvas"));
    assert!(INIT_GAME_JS.contains("MeshPhysicalMaterial"));
    assert!(!INIT_GAME_JS.contains("syncThreeScene(scene, camera)"));
}

#[test]
fn manifest_defaults_name_the_standard_entry_and_bundle() {
    assert_eq!(default_entry(), "src/game.js");
    assert_eq!(default_output(), "dist/game.js");
    assert!(INIT_MANIFEST.contains("entry = \"src/game.js\""));
    assert!(INIT_MANIFEST.contains("output = \"dist/game.js\""));
    assert!(INIT_VITE_CONFIG.contains("fileName: () => \"game.js\""));
    assert!(INIT_README.contains("HyperThreeNative.canvas"));
}

#[test]
fn window_settings_fall_back_to_host_defaults() {
    assert_eq!(window_title(&None), DEFAULT_WINDOW_TITLE);
    assert_eq!(window_size(&None), (DEFAULT_WINDOW_WIDTH, DEFAULT_WINDOW_HEIGHT));
    let m = Some(manifest(Some("Game"), Some(800), None));
    assert_eq!(window_title(&m), "Game");
    assert_eq!(window_size(&m), (800, 720));
    assert_eq!(window_title(&Some(manifest(None, None, None))), "HyperThree Native");
}

#[test]
fn default_window_is_opaque() {
    let window = Window::default();
    assert!(!window.transparent);
    assert!(window.title.is_none());
    assert!(Build::default().command.is_none());
}

#[test]
fn build_command_is_skipped_on_request() {
    let m = manifest(None, None, Some("npm run build"));
    assert_eq!(m.build_command(false), Some("npm run build".to_string()));
    assert_eq!(m.build_command(true), None);
    assert_eq!(manifest(None, None, None).build_command(false), None);
}

#[test]
fn shell_invocation_depends_on_the_platform() {
    let (program, args) = shell_invocation("npm run build", true);
    assert_eq!(program, "cmd");
    assert_eq!(args, vec!["/C".to_string(), "npm run build".to_string()]);
    let (program, args) = shell_invocation("npm run build", false);
    assert_eq!(program, "sh");
    assert_eq!(args, vec!["-c".to_string(), "npm run build".to_string()]);
}

#[test]
fn project_paths_resolve_against_the_host_directory() {
    assert_eq!(project_path("/abs/game.js", "/host"), "/abs/game.js");
    assert_eq!(project_path("js/game.js", "/host"), "/host/js/game.js");
}

#[test]
fn root_search_walks_up_to_a_project_file() {
    assert_eq!(runtime_root_start("/p/js/game.js", "/host"), "/p/js");
    assert_eq!(runtime_root_start("/", "/host"), "/host");
    match runtime_root_step("/p/js", false) {
        RootSearch::Next(parent) => assert_eq!(parent, "/p"),
        RootSearch::Found(_) => panic!("the search must go on"),
    }
    match runtime_root_step("/p", true) {
        RootSearch::Found(root) => assert_eq!(root, "/p"),
        RootSearch::Next(_) => panic!("the search must end"),
    }
    match runtime_root_step("/", false) {
        RootSearch::Found(root) => assert_eq!(root, "/"),
        RootSearch::Next(_) => panic!("the root has no parent"),
    }
}

#[test]
fn runtime_root_is_the_nearest_directory_with_a_project_file() {
    let manifest_in_game = |p: &str| p == "/home/me/game/hyperthree.toml";
    assert_eq!(runtime_root("/home/me/game/dist/game.js", "/host", &manifest_in_game), "/home/me/game");
    let package_in_dist = |p: &str| p == "/home/me/game/dist/package.json";
    assert_eq!(runtime_root("/home/me/game/dist/game.js", "/host", &package_in_dist), "/home/me/game/dist");
    let nothing = |_: &str| false;
    assert_eq!(runtime_root("/home/me/game/dist/game.js", "/host", &nothing), "/");
    assert_eq!(runtime_root("game.js", "/host", &nothing), "");
}
