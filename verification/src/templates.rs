//! The template library: pure rendering of every artifact text from a
//! project name.  Each renderer's contract pins the rendered text, character
//! for character, to a spec-level concatenation, so the rendered text is a
//! function of the project name alone and rendering cannot fail.

use vstd::prelude::*;

verus! {

/// The plain main script: an alert that greets the project.
pub open spec fn vanilla_js_text(n: Seq<char>) -> Seq<char> {
    "alert(\"Hello "@ + n + " from JS!\");"@
}

pub fn vanilla_js(project_name: &str) -> (r: String)
    ensures
        r@ == vanilla_js_text(project_name@),
{
    let mut r = String::from_str("alert(\"Hello ");
    r.append(project_name);
    r.append(" from JS!\");");
    r
}

/// The main script that loads the compiled native module through an ES
/// module import and alerts with its greeting.
pub open spec fn vanilla_js_wasm_text(n: Seq<char>) -> Seq<char> {
    "\nimport init, {hello_wasm} from \"./"@ + n
        + "_wasm.js\";\nawait init();\n\nalert(hello_wasm(\""@ + n + "\"));\n"@
}

pub fn vanilla_js_wasm(project_name: &str) -> (r: String)
    ensures
        r@ == vanilla_js_wasm_text(project_name@),
{
    let mut r = String::from_str("\nimport init, {hello_wasm} from \"./");
    r.append(project_name);
    r.append("_wasm.js\";\nawait init();\n\nalert(hello_wasm(\"");
    r.append(project_name);
    r.append("\"));\n");
    r
}

/// The main-thread script for worker archetypes: it spawns the worker and
/// shows whatever message the worker posts back.
pub open spec fn vanilla_js_wasm_worker_main_text(n: Seq<char>) -> Seq<char> {
    "\nlet worker = new Worker(\""@ + n
        + "_worker.js\");\n\nawait new Promise(r => setTimeout(r, 250)); // let wasm load\n\nworker.onmessage = (e) => {\n    alert(e.data)\n}\n\nworker.postMessage(true);\n"@
}

pub fn vanilla_js_wasm_worker_main(project_name: &str) -> (r: String)
    ensures
        r@ == vanilla_js_wasm_worker_main_text(project_name@),
{
    let mut r = String::from_str("\nlet worker = new Worker(\"");
    r.append(project_name);
    r.append(
        "_worker.js\");\n\nawait new Promise(r => setTimeout(r, 250)); // let wasm load\n\nworker.onmessage = (e) => {\n    alert(e.data)\n}\n\nworker.postMessage(true);\n",
    );
    r
}

/// The background worker script.  It binds the native module through the
/// global `wasm_bindgen` loader (`importScripts`, no ES import), which is
/// why worker archetypes must compile with the no-modules bundler target.
pub open spec fn vanilla_js_wasm_worker_sub_text(n: Seq<char>) -> Seq<char> {
    "\nimportScripts(\""@ + n
        + "_wasm.js\");\n\n// not ordinarily necessary, but for streaming WASM compilation to\n// work it needs to be served with a content-type of application/wasm,\n// which isn't always the case (eg with php -S), so we remove for now:\ndelete WebAssembly.instantiateStreaming;\n\n// init the wasm file\nwasm_bindgen(\""@
        + n
        + "_wasm_bg.wasm\").then((wasm) => {\n  // bing wasm functions into scope\n  const { hello_wasm } = wasm_bindgen;\n\n  onmessage = (e) => {\n    postMessage(hello_wasm(\""@
        + n + " js worker\"));\n\n  };\n});\n"@
}

pub fn vanilla_js_wasm_worker_sub(project_name: &str) -> (r: String)
    ensures
        r@ == vanilla_js_wasm_worker_sub_text(project_name@),
{
    let mut r = String::from_str("\nimportScripts(\"");
    r.append(project_name);
    r.append(
        "_wasm.js\");\n\n// not ordinarily necessary, but for streaming WASM compilation to\n// work it needs to be served with a content-type of application/wasm,\n// which isn't always the case (eg with php -S), so we remove for now:\ndelete WebAssembly.instantiateStreaming;\n\n// init the wasm file\nwasm_bindgen(\"",
    );
    r.append(project_name);
    r.append(
        "_wasm_bg.wasm\").then((wasm) => {\n  // bing wasm functions into scope\n  const { hello_wasm } = wasm_bindgen;\n\n  onmessage = (e) => {\n    postMessage(hello_wasm(\"",
    );
    r.append(project_name);
    r.append(" js worker\"));\n\n  };\n});\n");
    r
}

/// The component source for the worker archetype: worker glue plus the
/// component markup.
pub open spec fn wasm_worker_jsx_text(n: Seq<char>) -> Seq<char> {
    "\nlet worker = new Worker(\""@ + n
        + "_worker.js\");\n\nawait new Promise(r => setTimeout(r, 250)); // let wasm load\n\nworker.onmessage = (e) => {\n    alert(e.data)\n}\n\nworker.postMessage(true);\n\nfunction App() {\n    return(\n        <h1>Hello "@
        + n
        + " from react</h1>\n    )\n}\n\nReactDOM.render(<App />, document.querySelector(\"body\"));\n\n        "@
}

pub fn wasm_worker_jsx(project_name: &str) -> (r: String)
    ensures
        r@ == wasm_worker_jsx_text(project_name@),
{
    let mut r = String::from_str("\nlet worker = new Worker(\"");
    r.append(project_name);
    r.append(
        "_worker.js\");\n\nawait new Promise(r => setTimeout(r, 250)); // let wasm load\n\nworker.onmessage = (e) => {\n    alert(e.data)\n}\n\nworker.postMessage(true);\n\nfunction App() {\n    return(\n        <h1>Hello ",
    );
    r.append(project_name);
    r.append(
        " from react</h1>\n    )\n}\n\nReactDOM.render(<App />, document.querySelector(\"body\"));\n\n        ",
    );
    r
}

/// The component source that loads the native module on the main thread.
pub open spec fn wasm_jsx_text(n: Seq<char>) -> Seq<char> {
    "\n\nimport init, {hello_wasm} from \"./"@ + n
        + "_wasm.js\";\nawait init();\n\nalert(hello_wasm(\""@ + n
        + "\"));\n\nfunction App() {\n    return(\n        <h1>Hello "@ + n
        + " from react</h1>\n    )\n}\n\nReactDOM.render(<App />, document.querySelector(\"body\"));\n\n        "@
}

pub fn wasm_jsx(project_name: &str) -> (r: String)
    ensures
        r@ == wasm_jsx_text(project_name@),
{
    let mut r = String::from_str("\n\nimport init, {hello_wasm} from \"./");
    r.append(project_name);
    r.append("_wasm.js\";\nawait init();\n\nalert(hello_wasm(\"");
    r.append(project_name);
    r.append("\"));\n\nfunction App() {\n    return(\n        <h1>Hello ");
    r.append(project_name);
    r.append(
        " from react</h1>\n    )\n}\n\nReactDOM.render(<App />, document.querySelector(\"body\"));\n\n        ",
    );
    r
}

/// The component source with neither native module nor worker.
pub open spec fn vanilla_jsx_text(n: Seq<char>) -> Seq<char> {
    "\n\nfunction App() {\n    return(\n        <h1>Hello "@ + n
        + " from react</h1>\n    )\n}\n\nReactDOM.render(<App />, document.querySelector(\"body\"));\n\n        "@
}

pub fn vanilla_jsx(project_name: &str) -> (r: String)
    ensures
        r@ == vanilla_jsx_text(project_name@),
{
    let mut r = String::from_str("\n\nfunction App() {\n    return(\n        <h1>Hello ");
    r.append(project_name);
    r.append(
        " from react</h1>\n    )\n}\n\nReactDOM.render(<App />, document.querySelector(\"body\"));\n\n        ",
    );
    r
}

/// The build-script fragment spliced into the package manifest when only
/// the transpile step is needed.
pub open spec fn scripts_text(n: Seq<char>) -> Seq<char> {
    "\n\t\"scripts\": {\n\t\t\"build\": \"babel "@ + n + ".jsx -d pkg\"\n\t},\n"@
}

pub fn scripts(project_name: &str) -> (r: String)
    ensures
        r@ == scripts_text(project_name@),
{
    let mut r = String::from_str("\n\t\"scripts\": {\n\t\t\"build\": \"babel ");
    r.append(project_name);
    r.append(".jsx -d pkg\"\n\t},\n");
    r
}

/// The build-script fragment with both the transpile step and a bundler
/// step targeting the web (ES module) output.
pub open spec fn scripts_wasm_text(n: Seq<char>) -> Seq<char> {
    "\n            \"scripts\": {\n                \"build\": \"babel "@ + n
        + ".jsx -d pkg\",\n                \"wasm\": \"wasm-pack build --target web --no-typescript --no-pack\"\n            },\n            "@
}

pub fn scripts_wasm(project_name: &str) -> (r: String)
    ensures
        r@ == scripts_wasm_text(project_name@),
{
    let mut r = String::from_str("\n            \"scripts\": {\n                \"build\": \"babel ");
    r.append(project_name);
    r.append(
        ".jsx -d pkg\",\n                \"wasm\": \"wasm-pack build --target web --no-typescript --no-pack\"\n            },\n            ",
    );
    r
}

/// The build-script fragment whose bundler step targets the no-modules
/// (global scope) output that worker scripts rely on.
pub open spec fn scripts_wasm_worker_text(n: Seq<char>) -> Seq<char> {
    "\n            \"scripts\": {\n                \"build\": \"babel "@ + n
        + ".jsx -d pkg\",\n                \"wasm\": \"wasm-pack build --target no-modules --no-pack --no-typescript\"\n            },\n            "@
}

pub fn scripts_wasm_worker(project_name: &str) -> (r: String)
    ensures
        r@ == scripts_wasm_worker_text(project_name@),
{
    let mut r = String::from_str("\n            \"scripts\": {\n                \"build\": \"babel ");
    r.append(project_name);
    r.append(
        ".jsx -d pkg\",\n                \"wasm\": \"wasm-pack build --target no-modules --no-pack --no-typescript\"\n            },\n            ",
    );
    r
}

/// The transpiler configuration; independent of the project name.
pub open spec fn config_text() -> Seq<char> {
    "{\n    \"presets\": [\n        [\n        \"@babel/preset-env\",\n        {\n            \"modules\": false\n        }\n        ],\n        [\n        \"@babel/preset-react\",\n        {\n            \"runtime\": \"classic\"\n        }\n        ]\n    ]\n    }"@
}

pub fn config() -> (r: String)
    ensures
        r@ == config_text(),
{
    String::from_str(
        "{\n    \"presets\": [\n        [\n        \"@babel/preset-env\",\n        {\n            \"modules\": false\n        }\n        ],\n        [\n        \"@babel/preset-react\",\n        {\n            \"runtime\": \"classic\"\n        }\n        ]\n    ]\n    }",
    )
}

/// The stylesheet; the same for every archetype.
pub open spec fn css_text() -> Seq<char> {
    "\nh1 {\n    color: pink;\n}\n   "@
}

pub fn css() -> (r: String)
    ensures
        r@ == css_text(),
{
    String::from_str("\nh1 {\n    color: pink;\n}\n   ")
}

/// The page for the plain-script archetypes: a heading and the main script.
pub open spec fn html_text(n: Seq<char>) -> Seq<char> {
    "\n<!DOCTYPE html>\n<html lang=\"en\">\n\n<head>\n    <meta name=\"viewport\" content=\"width=device-width, initial-scale=1.0, user-scalable=no\">\n    <title>"@
        + n + "</title>\n    <link rel=\"stylesheet\" href=\""@ + n
        + "_styles.css\">\n</head>\n\n<body>\n    <h1>Hello "@ + n
        + "</h1>\n    <script type=\"module\" src=\""@ + n
        + ".js\"></script>\n</body>\n\n</html>\n"@
}

pub fn html(project_name: &str) -> (r: String)
    ensures
        r@ == html_text(project_name@),
{
    let mut r = String::from_str(
        "\n<!DOCTYPE html>\n<html lang=\"en\">\n\n<head>\n    <meta name=\"viewport\" content=\"width=device-width, initial-scale=1.0, user-scalable=no\">\n    <title>",
    );
    r.append(project_name);
    r.append("</title>\n    <link rel=\"stylesheet\" href=\"");
    r.append(project_name);
    r.append("_styles.css\">\n</head>\n\n<body>\n    <h1>Hello ");
    r.append(project_name);
    r.append("</h1>\n    <script type=\"module\" src=\"");
    r.append(project_name);
    r.append(".js\"></script>\n</body>\n\n</html>\n");
    r
}

/// The page for the component archetypes: it pulls the framework runtime
/// from a content-delivery network and loads the transpiled script.
pub open spec fn html_react_text(n: Seq<char>) -> Seq<char> {
    "\n<!DOCTYPE html>\n<html lang=\"en\">\n\n<head>\n    <meta name=\"viewport\" content=\"width=device-width, initial-scale=1.0, user-scalable=no\">\n    <title>"@
        + n + "</title>\n    <link rel=\"stylesheet\" href=\""@ + n
        + "_styles.css\">\n    <script src=\"https://unpkg.com/react@18/umd/react.production.min.js\" type=\"text/javascript\" crossorigin></script>\n    <script src=\"https://unpkg.com/react-dom@18/umd/react-dom.production.min.js\" type=\"text/javascript\" crossorigin></script>\n   \n</head>\n\n<body>\n    <script type=\"module\" src=\""@
        + n + ".js\"></script>\n</body>\n\n</html>\n"@
}

pub fn html_react(project_name: &str) -> (r: String)
    ensures
        r@ == html_react_text(project_name@),
{
    let mut r = String::from_str(
        "\n<!DOCTYPE html>\n<html lang=\"en\">\n\n<head>\n    <meta name=\"viewport\" content=\"width=device-width, initial-scale=1.0, user-scalable=no\">\n    <title>",
    );
    r.append(project_name);
    r.append("</title>\n    <link rel=\"stylesheet\" href=\"");
    r.append(project_name);
    r.append(
        "_styles.css\">\n    <script src=\"https://unpkg.com/react@18/umd/react.production.min.js\" type=\"text/javascript\" crossorigin></script>\n    <script src=\"https://unpkg.com/react-dom@18/umd/react-dom.production.min.js\" type=\"text/javascript\" crossorigin></script>\n   \n</head>\n\n<body>\n    <script type=\"module\" src=\"",
    );
    r.append(project_name);
    r.append(".js\"></script>\n</body>\n\n</html>\n");
    r
}

/// The native-library entry point: one exported greeting function.
pub open spec fn wasm_text() -> Seq<char> {
    "\nuse wasm_bindgen::prelude::*;\n\n#[wasm_bindgen]\npub fn hello_wasm(name: &str) -> String {\n    format!(\"Hello {name} from WASM\")\n}\n"@
}

pub fn wasm() -> (r: String)
    ensures
        r@ == wasm_text(),
{
    String::from_str(
        "\nuse wasm_bindgen::prelude::*;\n\n#[wasm_bindgen]\npub fn hello_wasm(name: &str) -> String {\n    format!(\"Hello {name} from WASM\")\n}\n",
    )
}

/// The lines appended to the native library's manifest: the binding
/// dependency and the library-type declaration.
pub open spec fn toml_text() -> Seq<char> {
    "wasm-bindgen = \"0.2\"\n\n[lib]\ncrate-type = [\"cdylib\"]\n"@
}

pub fn toml() -> (r: String)
    ensures
        r@ == toml_text(),
{
    String::from_str("wasm-bindgen = \"0.2\"\n\n[lib]\ncrate-type = [\"cdylib\"]\n")
}

/// The instructions text for plain-script native-module projects (web
/// target).
pub open spec fn wasm_build_command_text() -> Seq<char> {
    "build command:\nwasm-pack build --target web --no-typescript --no-pack\n"@
}

pub fn wasm_build_command() -> (r: String)
    ensures
        r@ == wasm_build_command_text(),
{
    String::from_str("build command:\nwasm-pack build --target web --no-typescript --no-pack\n")
}

/// The instructions text for plain-script worker projects (no-modules
/// target).
pub open spec fn wasm_build_command_no_mod_text() -> Seq<char> {
    "build command:\nwasm-pack build --target no-modules --no-pack --no-typescript\n"@
}

pub fn wasm_build_command_no_mod() -> (r: String)
    ensures
        r@ == wasm_build_command_no_mod_text(),
{
    String::from_str(
        "build command:\nwasm-pack build --target no-modules --no-pack --no-typescript\n",
    )
}

/// The instructions text for the plain component archetype.
pub open spec fn react_text(n: Seq<char>) -> Seq<char> {
    "Build command using NPM:\n        npm run build\n        \n        Alt:\n        babel "@ + n
        + ".jsx -d pkg\n        "@
}

pub fn react(project_name: &str) -> (r: String)
    ensures
        r@ == react_text(project_name@),
{
    let mut r = String::from_str(
        "Build command using NPM:\n        npm run build\n        \n        Alt:\n        babel ",
    );
    r.append(project_name);
    r.append(".jsx -d pkg\n        ");
    r
}

/// The instructions text for the component archetype with a native module.
pub open spec fn react_wasm_text(n: Seq<char>) -> Seq<char> {
    "Build commands using NPM:\n        npm run build\n        npm run wasm\n        \n        Alt:\n        babel "@
        + n
        + ".jsx -d pkg\n        wasm-pack build --target web --no-typescript --no-pack\n        "@
}

pub fn react_wasm(project_name: &str) -> (r: String)
    ensures
        r@ == react_wasm_text(project_name@),
{
    let mut r = String::from_str(
        "Build commands using NPM:\n        npm run build\n        npm run wasm\n        \n        Alt:\n        babel ",
    );
    r.append(project_name);
    r.append(".jsx -d pkg\n        wasm-pack build --target web --no-typescript --no-pack\n        ");
    r
}

/// The instructions text for the component archetype with a native module
/// and a worker.
pub open spec fn react_wasm_worker_text(n: Seq<char>) -> Seq<char> {
    "Build commands using NPM:\n        npm run build\n        npm run wasm\n        \n        Alt:\n        babel "@
        + n
        + ".jsx -d pkg\n        wasm-pack build --target no-modules --no-typescript --no-pack\n        "@
}

pub fn react_wasm_worker(project_name: &str) -> (r: String)
    ensures
        r@ == react_wasm_worker_text(project_name@),
{
    let mut r = String::from_str(
        "Build commands using NPM:\n        npm run build\n        npm run wasm\n        \n        Alt:\n        babel ",
    );
    r.append(project_name);
    r.append(
        ".jsx -d pkg\n        wasm-pack build --target no-modules --no-typescript --no-pack\n        ",
    );
    r
}

} // verus!
