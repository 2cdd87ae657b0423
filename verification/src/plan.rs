//! The project generator's recipes.  Each archetype owns a fixed, ordered
//! list of generation steps; the list is computed here as data, with a
//! contract that pins every step — paths, rendered contents, tool commands
//! and their order — so the shell that executes it has nothing left to
//! decide.

use crate::archetype::Archetype;
use crate::templates;
use vstd::prelude::*;

verus! {

/// One generation action: create a directory, write (create-or-truncate) a
/// file, append to a file, splice the build-script fragment into the
/// package manifest, or launch an external tool and wait for it.
pub enum Step {
    CreateDir { path: String },
    WriteFile { path: String, content: String },
    AppendFile { path: String, content: String },
    EditManifest { path: String, fragment: String },
    RunProcess { program: String, args: Vec<String>, dir: Option<String> },
}

/// The mathematical image of a step: the same shape over character
/// sequences.
#[verifier::ext_equal]
pub enum StepView {
    CreateDir { path: Seq<char> },
    WriteFile { path: Seq<char>, content: Seq<char> },
    AppendFile { path: Seq<char>, content: Seq<char> },
    EditManifest { path: Seq<char>, fragment: Seq<char> },
    RunProcess { program: Seq<char>, args: Seq<Seq<char>>, dir: Option<Seq<char>> },
}

impl View for Step {
    type V = StepView;

    open spec fn view(&self) -> StepView {
        match self {
            Step::CreateDir { path } => StepView::CreateDir { path: path@ },
            Step::WriteFile { path, content } => StepView::WriteFile {
                path: path@,
                content: content@,
            },
            Step::AppendFile { path, content } => StepView::AppendFile {
                path: path@,
                content: content@,
            },
            Step::EditManifest { path, fragment } => StepView::EditManifest {
                path: path@,
                fragment: fragment@,
            },
            Step::RunProcess { program, args, dir } => StepView::RunProcess {
                program: program@,
                args: args.deep_view(),
                dir: match dir {
                    Some(d) => Some(d@),
                    None => None,
                },
            },
        }
    }
}

/// The views of a sequence of steps.
pub open spec fn steps_view(s: Seq<Step>) -> Seq<StepView> {
    s.map_values(|st: Step| st@)
}

/// The first failure each step kind aborts the run with: the errors of the
/// taxonomy, each carrying the path or tool it concerns.
pub enum GenerationError {
    PathExists { path: String },
    DirectoryCreateFailed { path: String },
    FileWriteFailed { path: String },
    ToolLaunchFailed { tool: String },
    ManifestReadFailed { path: String },
    ManifestWriteFailed { path: String },
}

/// The mathematical image of an error.
#[verifier::ext_equal]
pub enum ErrorView {
    PathExists { path: Seq<char> },
    DirectoryCreateFailed { path: Seq<char> },
    FileWriteFailed { path: Seq<char> },
    ToolLaunchFailed { tool: Seq<char> },
    ManifestReadFailed { path: Seq<char> },
    ManifestWriteFailed { path: Seq<char> },
}

impl View for GenerationError {
    type V = ErrorView;

    open spec fn view(&self) -> ErrorView {
        match self {
            GenerationError::PathExists { path } => ErrorView::PathExists { path: path@ },
            GenerationError::DirectoryCreateFailed { path } => ErrorView::DirectoryCreateFailed {
                path: path@,
            },
            GenerationError::FileWriteFailed { path } => ErrorView::FileWriteFailed { path: path@ },
            GenerationError::ToolLaunchFailed { tool } => ErrorView::ToolLaunchFailed {
                tool: tool@,
            },
            GenerationError::ManifestReadFailed { path } => ErrorView::ManifestReadFailed {
                path: path@,
            },
            GenerationError::ManifestWriteFailed { path } => ErrorView::ManifestWriteFailed {
                path: path@,
            },
        }
    }
}

/// The error a step aborts with when its own action fails (a directory that
/// cannot be made, a file that cannot be written, a tool that cannot be
/// launched).  A step that fails for another reason — the root path already
/// existing, the manifest unreadable — reports that error instead.
pub open spec fn spec_step_failure(s: StepView) -> ErrorView {
    match s {
        StepView::CreateDir { path } => ErrorView::DirectoryCreateFailed { path },
        StepView::WriteFile { path, content: _ } => ErrorView::FileWriteFailed { path },
        StepView::AppendFile { path, content: _ } => ErrorView::ManifestWriteFailed { path },
        StepView::EditManifest { path, fragment: _ } => ErrorView::ManifestWriteFailed { path },
        StepView::RunProcess { program, args: _, dir: _ } => ErrorView::ToolLaunchFailed {
            tool: program,
        },
    }
}

pub fn step_failure(step: &Step) -> (r: GenerationError)
    ensures
        r@ == spec_step_failure(step@),
{
    match step {
        Step::CreateDir { path } => GenerationError::DirectoryCreateFailed { path: path.clone() },
        Step::WriteFile { path, content: _ } => GenerationError::FileWriteFailed {
            path: path.clone(),
        },
        Step::AppendFile { path, content: _ } => GenerationError::ManifestWriteFailed {
            path: path.clone(),
        },
        Step::EditManifest { path, fragment: _ } => GenerationError::ManifestWriteFailed {
            path: path.clone(),
        },
        Step::RunProcess { program, args: _, dir: _ } => GenerationError::ToolLaunchFailed {
            tool: program.clone(),
        },
    }
}

/// The one-line report of an error, as the final status line prints it.
pub open spec fn message_text(e: ErrorView) -> Seq<char> {
    match e {
        ErrorView::PathExists { path } => "Path already exists "@ + path + "."@,
        ErrorView::DirectoryCreateFailed { path } => "Failed to create directory "@ + path + "."@,
        ErrorView::FileWriteFailed { path } => "Failed to write "@ + path + "."@,
        ErrorView::ToolLaunchFailed { tool } => "Failed to launch "@ + tool + "."@,
        ErrorView::ManifestReadFailed { path } => "Failed to read "@ + path + "."@,
        ErrorView::ManifestWriteFailed { path } => "Failed to write "@ + path + "."@,
    }
}

impl GenerationError {
    /// Renders the human-readable report of the first failure.
    pub fn message(&self) -> (r: String)
        ensures
            r@ == message_text(self@),
    {
        match self {
            GenerationError::PathExists { path } => join3("Path already exists ", path.as_str(), "."),
            GenerationError::DirectoryCreateFailed { path } => join3(
                "Failed to create directory ",
                path.as_str(),
                ".",
            ),
            GenerationError::FileWriteFailed { path } => join3("Failed to write ", path.as_str(), "."),
            GenerationError::ToolLaunchFailed { tool } => join3("Failed to launch ", tool.as_str(), "."),
            GenerationError::ManifestReadFailed { path } => join3("Failed to read ", path.as_str(), "."),
            GenerationError::ManifestWriteFailed { path } => join3(
                "Failed to write ",
                path.as_str(),
                ".",
            ),
        }
    }
}

// ----- the paths each recipe touches, relative to the working directory -----

pub open spec fn pkg_dir_path(n: Seq<char>) -> Seq<char> {
    n + "/pkg"@
}

pub open spec fn page_path(n: Seq<char>) -> Seq<char> {
    n + "/pkg/"@ + n + ".html"@
}

pub open spec fn styles_path(n: Seq<char>) -> Seq<char> {
    n + "/pkg/"@ + n + "_styles.css"@
}

pub open spec fn script_path(n: Seq<char>) -> Seq<char> {
    n + "/pkg/"@ + n + ".js"@
}

pub open spec fn worker_script_path(n: Seq<char>) -> Seq<char> {
    n + "/pkg/"@ + n + "_worker.js"@
}

pub open spec fn component_source_path(n: Seq<char>) -> Seq<char> {
    "./"@ + n + "/"@ + n + ".jsx"@
}

pub open spec fn transpiler_config_path(n: Seq<char>) -> Seq<char> {
    "./"@ + n + "/babel.config.json"@
}

pub open spec fn package_manifest_path(n: Seq<char>) -> Seq<char> {
    "./"@ + n + "/package.json"@
}

pub open spec fn readme_path(n: Seq<char>) -> Seq<char> {
    "./"@ + n + "/readme.txt"@
}

pub open spec fn native_manifest_path(n: Seq<char>) -> Seq<char> {
    "./"@ + n + "/Cargo.toml"@
}

pub open spec fn native_source_path(n: Seq<char>) -> Seq<char> {
    "./"@ + n + "/src/lib.rs"@
}

/// The project directory as handed to tools as their working directory.
pub open spec fn project_dir_arg(n: Seq<char>) -> Seq<char> {
    "./"@ + n
}

// ----- the tool command lines -----

/// The package-manager call that fetches the fixed framework tooling set.
pub open spec fn npm_install_args() -> Seq<Seq<char>> {
    seq![
        "install"@,
        "@babel/cli"@,
        "@babel/core"@,
        "@babel/node"@,
        "@babel/preset-env"@,
        "@babel/preset-react"@,
    ]
}

/// The package-manager call that runs the build script.
pub open spec fn npm_build_args() -> Seq<Seq<char>> {
    seq!["run"@, "build"@]
}

/// The native-toolchain call that scaffolds the native library.
pub open spec fn native_init_args(n: Seq<char>) -> Seq<Seq<char>> {
    seq!["init"@, "./"@ + n, "--name"@, n + "_wasm"@, "--lib"@]
}

/// The bundler call that compiles the native library for the given target:
/// "web" (ES module wrapper) or "no-modules" (global scope, for workers).
pub open spec fn bundler_args(target: Seq<char>) -> Seq<Seq<char>> {
    seq!["build"@, "--target"@, target, "--no-typescript"@, "--no-pack"@]
}

// ----- the step lists -----

/// The opening of every recipe: the project directory, the asset directory,
/// the page and the stylesheet.
pub open spec fn scaffold_steps(n: Seq<char>, page: Seq<char>) -> Seq<StepView> {
    seq![
        StepView::CreateDir { path: n },
        StepView::CreateDir { path: pkg_dir_path(n) },
        StepView::WriteFile { path: page_path(n), content: page },
        StepView::WriteFile { path: styles_path(n), content: templates::css_text() },
    ]
}

/// The component-framework tooling: fetch the tooling, write the transpiler
/// configuration, splice the build scripts into the package manifest, run
/// the build script.
pub open spec fn tooling_steps(n: Seq<char>, fragment: Seq<char>) -> Seq<StepView> {
    seq![
        StepView::RunProcess {
            program: "npm"@,
            args: npm_install_args(),
            dir: Some(project_dir_arg(n)),
        },
        StepView::WriteFile { path: transpiler_config_path(n), content: templates::config_text() },
        StepView::EditManifest { path: package_manifest_path(n), fragment: fragment },
        StepView::RunProcess {
            program: "npm"@,
            args: npm_build_args(),
            dir: Some(project_dir_arg(n)),
        },
    ]
}

/// The native-module leg: scaffold the native library, append the binding
/// dependency and library type to its manifest, overwrite its entry point,
/// compile it for the given bundler target.
pub open spec fn native_module_steps(n: Seq<char>, target: Seq<char>) -> Seq<StepView> {
    seq![
        StepView::RunProcess { program: "cargo"@, args: native_init_args(n), dir: None },
        StepView::AppendFile { path: native_manifest_path(n), content: templates::toml_text() },
        StepView::WriteFile { path: native_source_path(n), content: templates::wasm_text() },
        StepView::RunProcess {
            program: "wasm-pack"@,
            args: bundler_args(target),
            dir: Some(project_dir_arg(n)),
        },
    ]
}

/// The closing instructions file.
pub open spec fn readme_steps(n: Seq<char>, text: Seq<char>) -> Seq<StepView> {
    seq![StepView::WriteFile { path: readme_path(n), content: text }]
}

/// The full recipe of an archetype for a project name: the exact ordered
/// step list the generator executes, short-circuiting on the first failure.
pub open spec fn spec_plan(n: Seq<char>, a: Archetype) -> Seq<StepView> {
    match a {
        Archetype::VanillaJs => scaffold_steps(n, templates::html_text(n)) + seq![
            StepView::WriteFile { path: script_path(n), content: templates::vanilla_js_text(n) },
        ],
        Archetype::VanillaJsWasm => scaffold_steps(n, templates::html_text(n)) + seq![
            StepView::WriteFile {
                path: script_path(n),
                content: templates::vanilla_js_wasm_text(n),
            },
        ] + native_module_steps(n, "web"@) + readme_steps(
            n,
            templates::wasm_build_command_text(),
        ),
        Archetype::VanillaJsWasmWorker => scaffold_steps(n, templates::html_text(n)) + seq![
            StepView::WriteFile {
                path: script_path(n),
                content: templates::vanilla_js_wasm_worker_main_text(n),
            },
            StepView::WriteFile {
                path: worker_script_path(n),
                content: templates::vanilla_js_wasm_worker_sub_text(n),
            },
        ] + native_module_steps(n, "no-modules"@) + readme_steps(
            n,
            templates::wasm_build_command_no_mod_text(),
        ),
        Archetype::React => scaffold_steps(n, templates::html_react_text(n)) + seq![
            StepView::WriteFile {
                path: component_source_path(n),
                content: templates::vanilla_jsx_text(n),
            },
        ] + tooling_steps(n, templates::scripts_text(n)) + readme_steps(
            n,
            templates::react_text(n),
        ),
        Archetype::ReactWasm => scaffold_steps(n, templates::html_react_text(n)) + seq![
            StepView::WriteFile {
                path: component_source_path(n),
                content: templates::wasm_jsx_text(n),
            },
        ] + tooling_steps(n, templates::scripts_wasm_text(n)) + native_module_steps(n, "web"@)
            + readme_steps(n, templates::react_wasm_text(n)),
        Archetype::ReactWasmWorker => scaffold_steps(n, templates::html_react_text(n)) + seq![
            StepView::WriteFile {
                path: component_source_path(n),
                content: templates::wasm_worker_jsx_text(n),
            },
            StepView::WriteFile {
                path: worker_script_path(n),
                content: templates::vanilla_js_wasm_worker_sub_text(n),
            },
        ] + tooling_steps(n, templates::scripts_wasm_worker_text(n)) + native_module_steps(
            n,
            "no-modules"@,
        ) + readme_steps(n, templates::react_wasm_worker_text(n)),
    }
}

// ----- executable construction -----

pub(crate) fn join2(a: &str, b: &str) -> (r: String)
    ensures
        r@ == a@ + b@,
{
    let mut r = String::from_str(a);
    r.append(b);
    r
}

fn join3(a: &str, b: &str, c: &str) -> (r: String)
    ensures
        r@ == a@ + b@ + c@,
{
    let mut r = String::from_str(a);
    r.append(b);
    r.append(c);
    r
}

fn join4(a: &str, b: &str, c: &str, d: &str) -> (r: String)
    ensures
        r@ == a@ + b@ + c@ + d@,
{
    let mut r = String::from_str(a);
    r.append(b);
    r.append(c);
    r.append(d);
    r
}

fn join5(a: &str, b: &str, c: &str, d: &str, e: &str) -> (r: String)
    ensures
        r@ == a@ + b@ + c@ + d@ + e@,
{
    let mut r = String::from_str(a);
    r.append(b);
    r.append(c);
    r.append(d);
    r.append(e);
    r
}

fn args_npm_install() -> (r: Vec<String>)
    ensures
        r.deep_view() == npm_install_args(),
{
    let mut v: Vec<String> = Vec::new();
    v.push(String::from_str("install"));
    v.push(String::from_str("@babel/cli"));
    v.push(String::from_str("@babel/core"));
    v.push(String::from_str("@babel/node"));
    v.push(String::from_str("@babel/preset-env"));
    v.push(String::from_str("@babel/preset-react"));
    proof {
        assert(v.deep_view() =~= npm_install_args());
    }
    v
}

fn args_npm_build() -> (r: Vec<String>)
    ensures
        r.deep_view() == npm_build_args(),
{
    let mut v: Vec<String> = Vec::new();
    v.push(String::from_str("run"));
    v.push(String::from_str("build"));
    proof {
        assert(v.deep_view() =~= npm_build_args());
    }
    v
}

fn args_native_init(name: &str) -> (r: Vec<String>)
    ensures
        r.deep_view() == native_init_args(name@),
{
    let mut v: Vec<String> = Vec::new();
    v.push(String::from_str("init"));
    v.push(join2("./", name));
    v.push(String::from_str("--name"));
    v.push(join2(name, "_wasm"));
    v.push(String::from_str("--lib"));
    proof {
        assert(v.deep_view() =~= native_init_args(name@));
    }
    v
}

fn args_bundler(target: &str) -> (r: Vec<String>)
    ensures
        r.deep_view() == bundler_args(target@),
{
    let mut v: Vec<String> = Vec::new();
    v.push(String::from_str("build"));
    v.push(String::from_str("--target"));
    v.push(String::from_str(target));
    v.push(String::from_str("--no-typescript"));
    v.push(String::from_str("--no-pack"));
    proof {
        assert(v.deep_view() =~= bundler_args(target@));
    }
    v
}

/// Pushes the scaffold steps shared by every recipe.
fn push_scaffold(v: &mut Vec<Step>, name: &str, page: String)
    ensures
        steps_view(final(v)@) == steps_view(old(v)@) + scaffold_steps(name@, page@),
{
    v.push(Step::CreateDir { path: String::from_str(name) });
    v.push(Step::CreateDir { path: join2(name, "/pkg") });
    v.push(Step::WriteFile { path: join4(name, "/pkg/", name, ".html"), content: page });
    v.push(
        Step::WriteFile { path: join4(name, "/pkg/", name, "_styles.css"), content: templates::css() },
    );
    proof {
        assert(steps_view(v@) =~~= steps_view(old(v)@) + scaffold_steps(name@, page@));
    }
}

/// Pushes the component-framework tooling steps.
fn push_tooling(v: &mut Vec<Step>, name: &str, fragment: String)
    ensures
        steps_view(final(v)@) == steps_view(old(v)@) + tooling_steps(name@, fragment@),
{
    v.push(
        Step::RunProcess {
            program: String::from_str("npm"),
            args: args_npm_install(),
            dir: Some(join2("./", name)),
        },
    );
    v.push(
        Step::WriteFile {
            path: join3("./", name, "/babel.config.json"),
            content: templates::config(),
        },
    );
    v.push(
        Step::EditManifest { path: join3("./", name, "/package.json"), fragment: fragment },
    );
    v.push(
        Step::RunProcess {
            program: String::from_str("npm"),
            args: args_npm_build(),
            dir: Some(join2("./", name)),
        },
    );
    proof {
        assert(steps_view(v@) =~~= steps_view(old(v)@) + tooling_steps(name@, fragment@));
    }
}

/// Pushes the native-module steps for the given bundler target.
fn push_native_module(v: &mut Vec<Step>, name: &str, target: &str)
    ensures
        steps_view(final(v)@) == steps_view(old(v)@) + native_module_steps(name@, target@),
{
    v.push(
        Step::RunProcess {
            program: String::from_str("cargo"),
            args: args_native_init(name),
            dir: None,
        },
    );
    v.push(
        Step::AppendFile { path: join3("./", name, "/Cargo.toml"), content: templates::toml() },
    );
    v.push(
        Step::WriteFile { path: join3("./", name, "/src/lib.rs"), content: templates::wasm() },
    );
    v.push(
        Step::RunProcess {
            program: String::from_str("wasm-pack"),
            args: args_bundler(target),
            dir: Some(join2("./", name)),
        },
    );
    proof {
        assert(steps_view(v@) =~~= steps_view(old(v)@) + native_module_steps(name@, target@));
    }
}

/// Pushes the closing instructions file.
fn push_readme(v: &mut Vec<Step>, name: &str, text: String)
    ensures
        steps_view(final(v)@) == steps_view(old(v)@) + readme_steps(name@, text@),
{
    v.push(Step::WriteFile { path: join3("./", name, "/readme.txt"), content: text });
    proof {
        assert(steps_view(v@) =~~= steps_view(old(v)@) + readme_steps(name@, text@));
    }
}

/// Computes the full recipe of an archetype for a project name.  The shell
/// executes the returned steps in order, aborting at the first failure.
pub fn plan(name: &str, archetype: Archetype) -> (r: Vec<Step>)
    ensures
        steps_view(r@) == spec_plan(name@, archetype),
{
    let mut v: Vec<Step> = Vec::new();
    match archetype {
        Archetype::VanillaJs => {
            push_scaffold(&mut v, name, templates::html(name));
            v.push(
                Step::WriteFile {
                    path: join4(name, "/pkg/", name, ".js"),
                    content: templates::vanilla_js(name),
                },
            );
            proof {
                assert(steps_view(v@) =~~= spec_plan(name@, archetype));
            }
        },
        Archetype::VanillaJsWasm => {
            push_scaffold(&mut v, name, templates::html(name));
            v.push(
                Step::WriteFile {
                    path: join4(name, "/pkg/", name, ".js"),
                    content: templates::vanilla_js_wasm(name),
                },
            );
            push_native_module(&mut v, name, "web");
            push_readme(&mut v, name, templates::wasm_build_command());
            proof {
                assert(steps_view(v@) =~~= spec_plan(name@, archetype));
            }
        },
        Archetype::VanillaJsWasmWorker => {
            push_scaffold(&mut v, name, templates::html(name));
            v.push(
                Step::WriteFile {
                    path: join4(name, "/pkg/", name, ".js"),
                    content: templates::vanilla_js_wasm_worker_main(name),
                },
            );
            v.push(
                Step::WriteFile {
                    path: join4(name, "/pkg/", name, "_worker.js"),
                    content: templates::vanilla_js_wasm_worker_sub(name),
                },
            );
            push_native_module(&mut v, name, "no-modules");
            push_readme(&mut v, name, templates::wasm_build_command_no_mod());
            proof {
                assert(steps_view(v@) =~~= spec_plan(name@, archetype));
            }
        },
        Archetype::React => {
            push_scaffold(&mut v, name, templates::html_react(name));
            v.push(
                Step::WriteFile {
                    path: join5("./", name, "/", name, ".jsx"),
                    content: templates::vanilla_jsx(name),
                },
            );
            push_tooling(&mut v, name, templates::scripts(name));
            push_readme(&mut v, name, templates::react(name));
            proof {
                assert(steps_view(v@) =~~= spec_plan(name@, archetype));
            }
        },
        Archetype::ReactWasm => {
            push_scaffold(&mut v, name, templates::html_react(name));
            v.push(
                Step::WriteFile {
                    path: join5("./", name, "/", name, ".jsx"),
                    content: templates::wasm_jsx(name),
                },
            );
            push_tooling(&mut v, name, templates::scripts_wasm(name));
            push_native_module(&mut v, name, "web");
            push_readme(&mut v, name, templates::react_wasm(name));
            proof {
                assert(steps_view(v@) =~~= spec_plan(name@, archetype));
            }
        },
        Archetype::ReactWasmWorker => {
            push_scaffold(&mut v, name, templates::html_react(name));
            v.push(
                Step::WriteFile {
                    path: join5("./", name, "/", name, ".jsx"),
                    content: templates::wasm_worker_jsx(name),
                },
            );
            v.push(
                Step::WriteFile {
                    path: join4(name, "/pkg/", name, "_worker.js"),
                    content: templates::vanilla_js_wasm_worker_sub(name),
                },
            );
            push_tooling(&mut v, name, templates::scripts_wasm_worker(name));
            push_native_module(&mut v, name, "no-modules");
            push_readme(&mut v, name, templates::react_wasm_worker(name));
            proof {
                assert(steps_view(v@) =~~= spec_plan(name@, archetype));
            }
        },
    }
    v
}

} // verus!
