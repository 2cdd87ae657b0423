//! The laws of the generator, proved over the recipe and the filesystem
//! model: what a fresh run produces, how a second run fails, and how the
//! worker script and the bundler target agree.

use crate::archetype::Archetype;
use crate::fsmodel::{spec_apply, FsView};
use crate::plan::{
    bundler_args, component_source_path, native_manifest_path, native_source_path,
    package_manifest_path, page_path, pkg_dir_path, readme_path, script_path, spec_plan,
    styles_path, transpiler_config_path, worker_script_path, ErrorView, StepView,
};
use crate::templates;
use vstd::prelude::*;

verus! {

/// The directories a successful run creates: the project root and the asset
/// directory.
pub open spec fn expected_dirs(n: Seq<char>) -> Set<Seq<char>> {
    set![n, pkg_dir_path(n)]
}

/// The files a successful run leaves on a fresh filesystem, per archetype:
/// the exact artifact set of each recipe (for component archetypes this
/// includes the package manifest the install step leaves behind).
pub open spec fn expected_files(n: Seq<char>, a: Archetype) -> Set<Seq<char>> {
    match a {
        Archetype::VanillaJs => set![page_path(n), styles_path(n), script_path(n)],
        Archetype::VanillaJsWasm => set![
            page_path(n),
            styles_path(n),
            script_path(n),
            native_manifest_path(n),
            native_source_path(n),
            readme_path(n),
        ],
        Archetype::VanillaJsWasmWorker => set![
            page_path(n),
            styles_path(n),
            script_path(n),
            worker_script_path(n),
            native_manifest_path(n),
            native_source_path(n),
            readme_path(n),
        ],
        Archetype::React => set![
            page_path(n),
            styles_path(n),
            component_source_path(n),
            package_manifest_path(n),
            transpiler_config_path(n),
            readme_path(n),
        ],
        Archetype::ReactWasm => set![
            page_path(n),
            styles_path(n),
            component_source_path(n),
            package_manifest_path(n),
            transpiler_config_path(n),
            native_manifest_path(n),
            native_source_path(n),
            readme_path(n),
        ],
        Archetype::ReactWasmWorker => set![
            page_path(n),
            styles_path(n),
            component_source_path(n),
            worker_script_path(n),
            package_manifest_path(n),
            transpiler_config_path(n),
            native_manifest_path(n),
            native_source_path(n),
            readme_path(n),
        ],
    }
}

/// A fresh run of the recipe succeeds and leaves exactly the expected
/// artifacts.
pub open spec fn fresh_generation_ok(n: Seq<char>, a: Archetype) -> bool {
    let (f2, e) = spec_apply(FsView::empty(), spec_plan(n, a));
    e is None && f2.files.dom() == expected_files(n, a) && f2.dirs == expected_dirs(n)
}

#[verifier::rlimit(100)]
proof fn lemma_fresh_vanilla_js(n: Seq<char>)
    ensures
        fresh_generation_ok(n, Archetype::VanillaJs),
{
    reveal_with_fuel(spec_apply, 16);
    reveal_strlit("/pkg");
    let (f2, e) = spec_apply(FsView::empty(), spec_plan(n, Archetype::VanillaJs));
    assert(f2.files.dom() =~= expected_files(n, Archetype::VanillaJs));
    assert(f2.dirs =~= expected_dirs(n));
}

#[verifier::rlimit(100)]
proof fn lemma_fresh_vanilla_js_wasm(n: Seq<char>)
    ensures
        fresh_generation_ok(n, Archetype::VanillaJsWasm),
{
    reveal_with_fuel(spec_apply, 16);
    reveal_strlit("/pkg");
    reveal_strlit("npm");
    reveal_strlit("wasm-pack");
    assert("npm"@.len() == 3);
    assert("wasm-pack"@.len() == 9);
    let (f2, e) = spec_apply(FsView::empty(), spec_plan(n, Archetype::VanillaJsWasm));
    assert(f2.files.dom() =~= expected_files(n, Archetype::VanillaJsWasm));
    assert(f2.dirs =~= expected_dirs(n));
}

#[verifier::rlimit(100)]
proof fn lemma_fresh_vanilla_js_wasm_worker(n: Seq<char>)
    ensures
        fresh_generation_ok(n, Archetype::VanillaJsWasmWorker),
{
    reveal_with_fuel(spec_apply, 16);
    reveal_strlit("/pkg");
    reveal_strlit("npm");
    reveal_strlit("wasm-pack");
    assert("npm"@.len() == 3);
    assert("wasm-pack"@.len() == 9);
    let (f2, e) = spec_apply(FsView::empty(), spec_plan(n, Archetype::VanillaJsWasmWorker));
    assert(f2.files.dom() =~= expected_files(n, Archetype::VanillaJsWasmWorker));
    assert(f2.dirs =~= expected_dirs(n));
}

#[verifier::rlimit(100)]
proof fn lemma_fresh_react(n: Seq<char>)
    ensures
        fresh_generation_ok(n, Archetype::React),
{
    reveal_with_fuel(spec_apply, 16);
    reveal_strlit("/pkg");
    reveal_strlit("npm");
    reveal_strlit("install");
    reveal_strlit("run");
    let (f2, e) = spec_apply(FsView::empty(), spec_plan(n, Archetype::React));
    assert(f2.files.dom() =~= expected_files(n, Archetype::React));
    assert(f2.dirs =~= expected_dirs(n));
}

#[verifier::rlimit(100)]
proof fn lemma_fresh_react_wasm(n: Seq<char>)
    ensures
        fresh_generation_ok(n, Archetype::ReactWasm),
{
    reveal_with_fuel(spec_apply, 16);
    reveal_strlit("/pkg");
    reveal_strlit("npm");
    reveal_strlit("install");
    reveal_strlit("run");
    reveal_strlit("wasm-pack");
    let (f2, e) = spec_apply(FsView::empty(), spec_plan(n, Archetype::ReactWasm));
    assert(f2.files.dom() =~= expected_files(n, Archetype::ReactWasm));
    assert(f2.dirs =~= expected_dirs(n));
}

#[verifier::rlimit(100)]
proof fn lemma_fresh_react_wasm_worker(n: Seq<char>)
    ensures
        fresh_generation_ok(n, Archetype::ReactWasmWorker),
{
    reveal_with_fuel(spec_apply, 16);
    reveal_strlit("/pkg");
    reveal_strlit("npm");
    reveal_strlit("install");
    reveal_strlit("run");
    reveal_strlit("wasm-pack");
    let (f2, e) = spec_apply(FsView::empty(), spec_plan(n, Archetype::ReactWasmWorker));
    assert(f2.files.dom() =~= expected_files(n, Archetype::ReactWasmWorker));
    assert(f2.dirs =~= expected_dirs(n));
}

/// Law: on a fresh filesystem every archetype's recipe runs to completion,
/// and the files and directories it leaves behind are exactly the artifact
/// set of that archetype.
pub proof fn lemma_fresh_generation(n: Seq<char>, a: Archetype)
    ensures
        fresh_generation_ok(n, a),
{
    match a {
        Archetype::VanillaJs => lemma_fresh_vanilla_js(n),
        Archetype::VanillaJsWasm => lemma_fresh_vanilla_js_wasm(n),
        Archetype::VanillaJsWasmWorker => lemma_fresh_vanilla_js_wasm_worker(n),
        Archetype::React => lemma_fresh_react(n),
        Archetype::ReactWasm => lemma_fresh_react_wasm(n),
        Archetype::ReactWasmWorker => lemma_fresh_react_wasm_worker(n),
    }
}

/// Law: a run against a filesystem where the project path already exists —
/// in particular, a second run with the same name — fails at once with
/// `PathExists` and leaves the filesystem exactly as it was.
pub proof fn lemma_rerun_fails(fs: FsView, n: Seq<char>, a: Archetype)
    requires
        fs.has_path(n),
    ensures
        spec_apply(fs, spec_plan(n, a)) == (fs, Some(ErrorView::PathExists { path: n })),
{
    match a {
        Archetype::VanillaJs => {
            assert(spec_plan(n, a)[0] == StepView::CreateDir { path: n });
        },
        Archetype::VanillaJsWasm => {
            assert(spec_plan(n, a)[0] == StepView::CreateDir { path: n });
        },
        Archetype::VanillaJsWasmWorker => {
            assert(spec_plan(n, a)[0] == StepView::CreateDir { path: n });
        },
        Archetype::React => {
            assert(spec_plan(n, a)[0] == StepView::CreateDir { path: n });
        },
        Archetype::ReactWasm => {
            assert(spec_plan(n, a)[0] == StepView::CreateDir { path: n });
        },
        Archetype::ReactWasmWorker => {
            assert(spec_plan(n, a)[0] == StepView::CreateDir { path: n });
        },
    }
}

/// Whether a recipe writes a file at a path.
pub open spec fn plan_writes_file(p: Seq<StepView>, path: Seq<char>) -> bool {
    exists|i: int|
        0 <= i < p.len() && (#[trigger] p[i] matches StepView::WriteFile { path: q, content: _ }
            && q == path)
}

/// Whether a recipe writes a file at a path with exactly this content.
pub open spec fn plan_writes_file_with_content(
    p: Seq<StepView>,
    path: Seq<char>,
    content: Seq<char>,
) -> bool {
    exists|i: int| 0 <= i < p.len() && #[trigger] p[i] == (StepView::WriteFile { path, content })
}

/// Whether a recipe invokes the bundler with the given target.
pub open spec fn plan_runs_bundler_with_target(p: Seq<StepView>, target: Seq<char>) -> bool {
    exists|i: int|
        0 <= i < p.len() && (#[trigger] p[i] matches StepView::RunProcess { program, args, dir: _ }
            && program == "wasm-pack"@ && args == bundler_args(target))
}

/// No other artifact path of a recipe coincides with the worker script's
/// path, whatever the project name.
proof fn lemma_worker_path_distinct(n: Seq<char>)
    ensures
        page_path(n) != worker_script_path(n),
        styles_path(n) != worker_script_path(n),
        script_path(n) != worker_script_path(n),
        component_source_path(n) != worker_script_path(n),
        transpiler_config_path(n) != worker_script_path(n),
        readme_path(n) != worker_script_path(n),
        native_source_path(n) != worker_script_path(n),
{
    reveal_strlit("./");
    reveal_strlit("/");
    reveal_strlit("/pkg/");
    reveal_strlit(".html");
    reveal_strlit("_styles.css");
    reveal_strlit(".js");
    reveal_strlit(".jsx");
    reveal_strlit("/babel.config.json");
    reveal_strlit("/readme.txt");
    reveal_strlit("/src/lib.rs");
    reveal_strlit("_worker.js");
    let w = worker_script_path(n);
    assert(w.last() == 's');
    assert(w[w.len() - 2] == 'j');
    assert(page_path(n).last() == 'l');
    assert(styles_path(n)[styles_path(n).len() - 2] == 's');
    assert(script_path(n).len() == w.len() - 7);
    assert(component_source_path(n).last() == 'x');
    assert(transpiler_config_path(n).last() == 'n');
    assert(readme_path(n).last() == 't');
    assert(native_source_path(n)[native_source_path(n).len() - 2] == 'r');
    if styles_path(n) == w {
        assert(styles_path(n)[styles_path(n).len() - 2] == w[w.len() - 2]);
    }
    if native_source_path(n) == w {
        assert(native_source_path(n)[native_source_path(n).len() - 2] == w[w.len() - 2]);
    }
}

/// Law: a recipe writes the background worker script exactly when it
/// compiles the native module for the global-scope no-modules target; the
/// script it writes is the worker template, which binds the module through
/// the global loader.  A recipe with a native module but no worker compiles
/// for the ES-module web target instead and writes no worker script.
#[verifier::rlimit(100)]
pub proof fn lemma_worker_target_consistency(n: Seq<char>, a: Archetype)
    ensures
        plan_writes_file(spec_plan(n, a), worker_script_path(n)) <==> plan_runs_bundler_with_target(
            spec_plan(n, a),
            "no-modules"@,
        ),
        a.has_worker() ==> plan_writes_file_with_content(
            spec_plan(n, a),
            worker_script_path(n),
            templates::vanilla_js_wasm_worker_sub_text(n),
        ),
        a.has_native_module() && !a.has_worker() ==> plan_runs_bundler_with_target(
            spec_plan(n, a),
            "web"@,
        ) && !plan_writes_file(spec_plan(n, a), worker_script_path(n)),
{
    reveal_strlit("npm");
    reveal_strlit("cargo");
    reveal_strlit("wasm-pack");
    reveal_strlit("web");
    reveal_strlit("no-modules");
    assert("web"@.len() == 3);
    assert("no-modules"@.len() == 10);
    assert("npm"@.len() == 3);
    assert("cargo"@.len() == 5);
    assert("wasm-pack"@.len() == 9);
    lemma_worker_path_distinct(n);
    let p = spec_plan(n, a);
    let w = worker_script_path(n);
    match a {
        Archetype::VanillaJs => {
            assert(p.len() == 5);
            assert forall|i: int| 0 <= i < p.len() implies !(#[trigger] p[i]
                matches StepView::WriteFile { path: q, content: _ } && q == w) by {
                if i == 2 {
                } else if i == 3 {
                } else if i == 4 {
                }
            }
            assert forall|i: int| 0 <= i < p.len() implies !(#[trigger] p[i]
                matches StepView::RunProcess { program, args, dir: _ } && program == "wasm-pack"@
                && args == bundler_args("no-modules"@)) by {
                if i == 0 {
                } else if i == 1 {
                } else if i == 2 {
                } else if i == 3 {
                } else if i == 4 {
                }
            }
        },
        Archetype::VanillaJsWasm => {
            assert(p.len() == 10);
            assert(p[8] matches StepView::RunProcess { program, args, dir: _ } && program
                == "wasm-pack"@ && args == bundler_args("web"@));
            assert forall|i: int| 0 <= i < p.len() implies !(#[trigger] p[i]
                matches StepView::WriteFile { path: q, content: _ } && q == w) by {
                if i == 2 {
                } else if i == 3 {
                } else if i == 4 {
                } else if i == 7 {
                } else if i == 9 {
                }
            }
            assert forall|i: int| 0 <= i < p.len() implies !(#[trigger] p[i]
                matches StepView::RunProcess { program, args, dir: _ } && program == "wasm-pack"@
                && args == bundler_args("no-modules"@)) by {
                if i == 8 {
                    assert(bundler_args("web"@)[2] == "web"@);
                    assert(bundler_args("no-modules"@)[2] == "no-modules"@);
                }
            }
        },
        Archetype::VanillaJsWasmWorker => {
            assert(p.len() == 11);
            assert(p[5] == StepView::WriteFile {
                path: w,
                content: templates::vanilla_js_wasm_worker_sub_text(n),
            });
            assert(p[9] matches StepView::RunProcess { program, args, dir: _ } && program
                == "wasm-pack"@ && args == bundler_args("no-modules"@));
        },
        Archetype::React => {
            assert(p.len() == 10);
            assert forall|i: int| 0 <= i < p.len() implies !(#[trigger] p[i]
                matches StepView::WriteFile { path: q, content: _ } && q == w) by {
                if i == 2 {
                } else if i == 3 {
                } else if i == 4 {
                } else if i == 6 {
                } else if i == 9 {
                }
            }
            assert forall|i: int| 0 <= i < p.len() implies !(#[trigger] p[i]
                matches StepView::RunProcess { program, args, dir: _ } && program == "wasm-pack"@
                && args == bundler_args("no-modules"@)) by {
                if i == 5 {
                } else if i == 8 {
                }
            }
        },
        Archetype::ReactWasm => {
            assert(p.len() == 14);
            assert(p[12] matches StepView::RunProcess { program, args, dir: _ } && program
                == "wasm-pack"@ && args == bundler_args("web"@));
            assert forall|i: int| 0 <= i < p.len() implies !(#[trigger] p[i]
                matches StepView::WriteFile { path: q, content: _ } && q == w) by {
                if i == 2 {
                } else if i == 3 {
                } else if i == 4 {
                } else if i == 6 {
                } else if i == 11 {
                } else if i == 13 {
                }
            }
            assert forall|i: int| 0 <= i < p.len() implies !(#[trigger] p[i]
                matches StepView::RunProcess { program, args, dir: _ } && program == "wasm-pack"@
                && args == bundler_args("no-modules"@)) by {
                if i == 12 {
                    assert(bundler_args("web"@)[2] == "web"@);
                    assert(bundler_args("no-modules"@)[2] == "no-modules"@);
                }
            }
        },
        Archetype::ReactWasmWorker => {
            assert(p.len() == 15);
            assert(p[5] == StepView::WriteFile {
                path: w,
                content: templates::vanilla_js_wasm_worker_sub_text(n),
            });
            assert(p[13] matches StepView::RunProcess { program, args, dir: _ } && program
                == "wasm-pack"@ && args == bundler_args("no-modules"@));
        },
    }
}

/// The worker script template opens with a global `importScripts` call —
/// the global-scope binding convention of the no-modules bundler output —
/// rather than an ES `import` statement.
pub proof fn lemma_worker_script_global_binding(n: Seq<char>)
    ensures
        templates::vanilla_js_wasm_worker_sub_text(n)[0] == '\n',
        templates::vanilla_js_wasm_worker_sub_text(n).subrange(1, 14) == "importScripts"@,
{
    reveal_strlit("\nimportScripts(\"");
    reveal_strlit("importScripts");
    assert(templates::vanilla_js_wasm_worker_sub_text(n).subrange(1, 14) =~= "importScripts"@);
}

/// The non-worker native-module script opens with an ES `import` statement
/// — the binding convention of the web bundler target.
pub proof fn lemma_wasm_script_module_binding(n: Seq<char>)
    ensures
        templates::vanilla_js_wasm_text(n)[0] == '\n',
        templates::vanilla_js_wasm_text(n).subrange(1, 7) == "import"@,
{
    reveal_strlit("\nimport init, {hello_wasm} from \"./");
    reveal_strlit("import");
    assert(templates::vanilla_js_wasm_text(n).subrange(1, 7) =~= "import"@);
}

} // verus!
