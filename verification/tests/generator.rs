//! The generator end to end: menu resolution, the step lists of the six
//! archetypes, and whole recipes run against the in-memory filesystem.

use webgen::archetype::{accept_name, parse_choice, Archetype};
use webgen::fsmodel::{apply_plan, MemFs};
use webgen::plan::{plan, step_failure, GenerationError, Step};

#[test]
fn menu_choice_resolves_each_digit() {
    assert_eq!(parse_choice("1"), Some(Archetype::VanillaJs));
    assert_eq!(parse_choice("2"), Some(Archetype::VanillaJsWasm));
    assert_eq!(parse_choice("3"), Some(Archetype::VanillaJsWasmWorker));
    assert_eq!(parse_choice("4"), Some(Archetype::React));
    assert_eq!(parse_choice("5"), Some(Archetype::ReactWasm));
    assert_eq!(parse_choice("6"), Some(Archetype::ReactWasmWorker));
}

#[test]
fn menu_choice_rejects_everything_else() {
    assert_eq!(parse_choice("0"), None);
    assert_eq!(parse_choice("7"), None);
    assert_eq!(parse_choice(""), None);
    assert_eq!(parse_choice("12"), None);
    assert_eq!(parse_choice("one"), None);
    assert_eq!(parse_choice(" 1"), None);
}

#[test]
fn name_accepted_only_when_non_empty() {
    assert!(accept_name("demo"));
    assert!(accept_name("a"));
    assert!(!accept_name(""));
}

fn written_paths(steps: &[Step]) -> Vec<String> {
    let mut out = Vec::new();
    for s in steps {
        if let Step::WriteFile { path, .. } = s {
            out.push(path.clone());
        }
    }
    out
}

#[test]
fn vanilla_js_plan_steps() {
    let steps = plan("demo", Archetype::VanillaJs);
    assert_eq!(steps.len(), 5);
    assert!(matches!(&steps[0], Step::CreateDir { path } if path == "demo"));
    assert!(matches!(&steps[1], Step::CreateDir { path } if path == "demo/pkg"));
    assert_eq!(
        written_paths(&steps),
        vec![
            "demo/pkg/demo.html".to_string(),
            "demo/pkg/demo_styles.css".to_string(),
            "demo/pkg/demo.js".to_string(),
        ]
    );
}

#[test]
fn worker_plan_uses_no_modules_target() {
    let steps = plan("w", Archetype::VanillaJsWasmWorker);
    let mut bundler_args: Option<Vec<String>> = None;
    for s in &steps {
        if let Step::RunProcess { program, args, .. } = s {
            if program == "wasm-pack" {
                bundler_args = Some(args.clone());
            }
        }
    }
    let args = bundler_args.expect("the worker recipe compiles the native module");
    assert!(args.contains(&"no-modules".to_string()));
    assert!(!args.contains(&"web".to_string()));
    assert!(written_paths(&steps).contains(&"w/pkg/w_worker.js".to_string()));
}

#[test]
fn wasm_plan_uses_web_target_and_no_worker() {
    let steps = plan("w", Archetype::VanillaJsWasm);
    let mut bundler_args: Option<Vec<String>> = None;
    for s in &steps {
        if let Step::RunProcess { program, args, .. } = s {
            if program == "wasm-pack" {
                bundler_args = Some(args.clone());
            }
        }
    }
    let args = bundler_args.expect("the native-module recipe compiles it");
    assert!(args.contains(&"web".to_string()));
    assert!(!args.contains(&"no-modules".to_string()));
    assert!(!written_paths(&steps).contains(&"w/pkg/w_worker.js".to_string()));
}

#[test]
fn worker_script_agrees_with_global_binding() {
    let steps = plan("w", Archetype::ReactWasmWorker);
    let mut worker_content: Option<String> = None;
    for s in &steps {
        if let Step::WriteFile { path, content } = s {
            if path == "w/pkg/w_worker.js" {
                worker_content = Some(content.clone());
            }
        }
    }
    let content = worker_content.expect("the worker recipe writes the worker script");
    assert!(content.starts_with("\nimportScripts(\""));
    assert!(content.contains("wasm_bindgen(\"w_wasm_bg.wasm\")"));
    assert!(!content.contains("import init"));
}

/// All artifact paths any of the recipes can produce for a name, so a test
/// can check set equality of what a run left behind.
fn candidate_paths(n: &str) -> Vec<String> {
    vec![
        format!("{n}/pkg/{n}.html"),
        format!("{n}/pkg/{n}_styles.css"),
        format!("{n}/pkg/{n}.js"),
        format!("{n}/pkg/{n}_worker.js"),
        format!("./{n}/{n}.jsx"),
        format!("./{n}/package.json"),
        format!("./{n}/babel.config.json"),
        format!("./{n}/Cargo.toml"),
        format!("./{n}/src/lib.rs"),
        format!("./{n}/readme.txt"),
    ]
}

fn check_artifact_set(archetype: Archetype, expected: &[&str]) {
    let n = "proj";
    let mut fs = MemFs::new();
    let steps = plan(n, archetype);
    assert!(apply_plan(&mut fs, &steps).is_ok());
    assert!(fs.dir_exists("proj"));
    assert!(fs.dir_exists("proj/pkg"));
    for path in candidate_paths(n) {
        let should_exist = expected.contains(&path.as_str());
        assert_eq!(
            fs.file_exists(&path),
            should_exist,
            "{archetype:?}: {path} existence"
        );
    }
}

#[test]
fn artifact_set_vanilla_js() {
    check_artifact_set(
        Archetype::VanillaJs,
        &["proj/pkg/proj.html", "proj/pkg/proj_styles.css", "proj/pkg/proj.js"],
    );
}

#[test]
fn artifact_set_vanilla_js_wasm() {
    check_artifact_set(
        Archetype::VanillaJsWasm,
        &[
            "proj/pkg/proj.html",
            "proj/pkg/proj_styles.css",
            "proj/pkg/proj.js",
            "./proj/Cargo.toml",
            "./proj/src/lib.rs",
            "./proj/readme.txt",
        ],
    );
}

#[test]
fn artifact_set_vanilla_js_wasm_worker() {
    check_artifact_set(
        Archetype::VanillaJsWasmWorker,
        &[
            "proj/pkg/proj.html",
            "proj/pkg/proj_styles.css",
            "proj/pkg/proj.js",
            "proj/pkg/proj_worker.js",
            "./proj/Cargo.toml",
            "./proj/src/lib.rs",
            "./proj/readme.txt",
        ],
    );
}

#[test]
fn artifact_set_react() {
    check_artifact_set(
        Archetype::React,
        &[
            "proj/pkg/proj.html",
            "proj/pkg/proj_styles.css",
            "./proj/proj.jsx",
            "./proj/package.json",
            "./proj/babel.config.json",
            "./proj/readme.txt",
        ],
    );
}

#[test]
fn artifact_set_react_wasm() {
    check_artifact_set(
        Archetype::ReactWasm,
        &[
            "proj/pkg/proj.html",
            "proj/pkg/proj_styles.css",
            "./proj/proj.jsx",
            "./proj/package.json",
            "./proj/babel.config.json",
            "./proj/Cargo.toml",
            "./proj/src/lib.rs",
            "./proj/readme.txt",
        ],
    );
}

#[test]
fn artifact_set_react_wasm_worker() {
    check_artifact_set(
        Archetype::ReactWasmWorker,
        &[
            "proj/pkg/proj.html",
            "proj/pkg/proj_styles.css",
            "proj/pkg/proj_worker.js",
            "./proj/proj.jsx",
            "./proj/package.json",
            "./proj/babel.config.json",
            "./proj/Cargo.toml",
            "./proj/src/lib.rs",
            "./proj/readme.txt",
        ],
    );
}

#[test]
fn second_run_fails_and_leaves_output_untouched() {
    let mut fs = MemFs::new();
    let steps = plan("demo", Archetype::VanillaJs);
    assert!(apply_plan(&mut fs, &steps).is_ok());
    let page_before = fs.read_file("demo/pkg/demo.html").unwrap();

    let again = plan("demo", Archetype::VanillaJs);
    let err = apply_plan(&mut fs, &again).unwrap_err();
    assert!(matches!(&err, GenerationError::PathExists { path } if path == "demo"));
    assert_eq!(err.message(), "Path already exists demo.");
    assert_eq!(fs.read_file("demo/pkg/demo.html").unwrap(), page_before);
}

#[test]
fn end_to_end_plain_script_demo() {
    let mut fs = MemFs::new();
    let steps = plan("demo", Archetype::VanillaJs);
    assert!(apply_plan(&mut fs, &steps).is_ok());
    assert!(fs.file_exists("demo/pkg/demo.html"));
    assert!(fs.file_exists("demo/pkg/demo_styles.css"));
    let script = fs.read_file("demo/pkg/demo.js").unwrap();
    assert_eq!(script, "alert(\"Hello demo from JS!\");");
    assert!(script.contains("alert") && script.contains("demo"));
    assert!(!fs.file_exists("demo/pkg/demo_worker.js"));
    assert!(!fs.file_exists("./demo/Cargo.toml"));
    assert!(!fs.file_exists("./demo/src/lib.rs"));
}

#[test]
fn end_to_end_worker_demo2() {
    let mut fs = MemFs::new();
    let steps = plan("demo2", Archetype::VanillaJsWasmWorker);
    assert!(apply_plan(&mut fs, &steps).is_ok());
    let worker = fs.read_file("demo2/pkg/demo2_worker.js").unwrap();
    assert!(worker.contains("demo2_wasm_bg"));
    let manifest = fs.read_file("./demo2/Cargo.toml").unwrap();
    assert!(manifest.contains("wasm-bindgen = \"0.2\""));
    assert!(manifest.contains("crate-type = [\"cdylib\"]"));
}

#[test]
fn component_manifest_receives_build_scripts() {
    let mut fs = MemFs::new();
    let steps = plan("site", Archetype::React);
    assert!(apply_plan(&mut fs, &steps).is_ok());
    let manifest = fs.read_file("./site/package.json").unwrap();
    assert!(manifest.starts_with("{\n\t\"scripts\":"));
    assert!(manifest.contains("babel site.jsx -d pkg"));
}

#[test]
fn manifest_edit_without_manifest_reports_read_failure() {
    let mut fs = MemFs::new();
    let steps = vec![Step::EditManifest {
        path: "./ghost/package.json".to_string(),
        fragment: "F".to_string(),
    }];
    let err = apply_plan(&mut fs, &steps).unwrap_err();
    assert!(
        matches!(&err, GenerationError::ManifestReadFailed { path } if path == "./ghost/package.json")
    );
    assert_eq!(err.message(), "Failed to read ./ghost/package.json.");
}

#[test]
fn step_failure_maps_each_step_kind() {
    let dir = Step::CreateDir { path: "p".to_string() };
    assert!(matches!(
        step_failure(&dir),
        GenerationError::DirectoryCreateFailed { path } if path == "p"
    ));
    let write = Step::WriteFile { path: "f".to_string(), content: String::new() };
    assert!(matches!(
        step_failure(&write),
        GenerationError::FileWriteFailed { path } if path == "f"
    ));
    let append = Step::AppendFile { path: "t".to_string(), content: String::new() };
    assert!(matches!(
        step_failure(&append),
        GenerationError::ManifestWriteFailed { path } if path == "t"
    ));
    let edit = Step::EditManifest { path: "m".to_string(), fragment: String::new() };
    assert!(matches!(
        step_failure(&edit),
        GenerationError::ManifestWriteFailed { path } if path == "m"
    ));
    let run = Step::RunProcess {
        program: "npm".to_string(),
        args: vec!["install".to_string()],
        dir: None,
    };
    assert!(matches!(
        step_failure(&run),
        GenerationError::ToolLaunchFailed { tool } if tool == "npm"
    ));
}

#[test]
fn error_messages_name_their_subject() {
    assert_eq!(
        GenerationError::DirectoryCreateFailed { path: "d".to_string() }.message(),
        "Failed to create directory d."
    );
    assert_eq!(
        GenerationError::FileWriteFailed { path: "f".to_string() }.message(),
        "Failed to write f."
    );
    assert_eq!(
        GenerationError::ToolLaunchFailed { tool: "wasm-pack".to_string() }.message(),
        "Failed to launch wasm-pack."
    );
    assert_eq!(
        GenerationError::ManifestWriteFailed { path: "m".to_string() }.message(),
        "Failed to write m."
    );
}

#[test]
fn existing_package_manifest_is_spliced_not_replaced() {
    let mut fs = MemFs::new();
    fs.write_file(
        "./site/package.json".to_string(),
        "{\n  \"name\": \"site\"\n}".to_string(),
    );
    let steps = plan("site", Archetype::React);
    assert!(apply_plan(&mut fs, &steps).is_ok());
    let manifest = fs.read_file("./site/package.json").unwrap();
    assert!(manifest.starts_with("{\n\t\"scripts\":"));
    assert!(manifest.contains("\"name\": \"site\""));
}

#[test]
fn appends_accumulate_in_order() {
    let mut fs = MemFs::new();
    let steps = vec![
        Step::AppendFile { path: "log".to_string(), content: "one".to_string() },
        Step::AppendFile { path: "log".to_string(), content: " two".to_string() },
    ];
    assert!(apply_plan(&mut fs, &steps).is_ok());
    assert_eq!(fs.read_file("log").unwrap(), "one two");
}
