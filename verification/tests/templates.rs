//! The template library: exact rendered texts and render purity.

use webgen::templates;

#[test]
fn vanilla_js_exact() {
    assert_eq!(
        templates::vanilla_js("demo"),
        "alert(\"Hello demo from JS!\");"
    );
}

#[test]
fn vanilla_js_wasm_exact() {
    let n = "demo";
    assert_eq!(
        templates::vanilla_js_wasm(n),
        format!(
            "\nimport init, {{hello_wasm}} from \"./{n}_wasm.js\";\nawait init();\n\nalert(hello_wasm(\"{n}\"));\n"
        )
    );
}

#[test]
fn vanilla_js_wasm_worker_main_exact() {
    let n = "proj";
    assert_eq!(
        templates::vanilla_js_wasm_worker_main(n),
        format!(
            "\nlet worker = new Worker(\"{n}_worker.js\");\n\nawait new Promise(r => setTimeout(r, 250)); // let wasm load\n\nworker.onmessage = (e) => {{\n    alert(e.data)\n}}\n\nworker.postMessage(true);\n"
        )
    );
}

#[test]
fn vanilla_js_wasm_worker_sub_exact() {
    let n = "proj";
    assert_eq!(
        templates::vanilla_js_wasm_worker_sub(n),
        format!(
            "\nimportScripts(\"{n}_wasm.js\");\n\n// not ordinarily necessary, but for streaming WASM compilation to\n// work it needs to be served with a content-type of application/wasm,\n// which isn't always the case (eg with php -S), so we remove for now:\ndelete WebAssembly.instantiateStreaming;\n\n// init the wasm file\nwasm_bindgen(\"{n}_wasm_bg.wasm\").then((wasm) => {{\n  // bing wasm functions into scope\n  const {{ hello_wasm }} = wasm_bindgen;\n\n  onmessage = (e) => {{\n    postMessage(hello_wasm(\"{n} js worker\"));\n\n  }};\n}});\n"
        )
    );
}

#[test]
fn wasm_worker_jsx_exact() {
    let n = "app";
    assert_eq!(
        templates::wasm_worker_jsx(n),
        format!(
            "\nlet worker = new Worker(\"{n}_worker.js\");\n\nawait new Promise(r => setTimeout(r, 250)); // let wasm load\n\nworker.onmessage = (e) => {{\n    alert(e.data)\n}}\n\nworker.postMessage(true);\n\nfunction App() {{\n    return(\n        <h1>Hello {n} from react</h1>\n    )\n}}\n\nReactDOM.render(<App />, document.querySelector(\"body\"));\n\n        "
        )
    );
}

#[test]
fn wasm_jsx_exact() {
    let n = "app";
    assert_eq!(
        templates::wasm_jsx(n),
        format!(
            "\n\nimport init, {{hello_wasm}} from \"./{n}_wasm.js\";\nawait init();\n\nalert(hello_wasm(\"{n}\"));\n\nfunction App() {{\n    return(\n        <h1>Hello {n} from react</h1>\n    )\n}}\n\nReactDOM.render(<App />, document.querySelector(\"body\"));\n\n        "
        )
    );
}

#[test]
fn vanilla_jsx_exact() {
    let n = "app";
    assert_eq!(
        templates::vanilla_jsx(n),
        format!(
            "\n\nfunction App() {{\n    return(\n        <h1>Hello {n} from react</h1>\n    )\n}}\n\nReactDOM.render(<App />, document.querySelector(\"body\"));\n\n        "
        )
    );
}

#[test]
fn scripts_exact() {
    assert_eq!(
        templates::scripts("x"),
        "\n\t\"scripts\": {\n\t\t\"build\": \"babel x.jsx -d pkg\"\n\t},\n"
    );
}

#[test]
fn scripts_wasm_exact() {
    let n = "x";
    assert_eq!(
        templates::scripts_wasm(n),
        format!(
            "\n            \"scripts\": {{\n                \"build\": \"babel {n}.jsx -d pkg\",\n                \"wasm\": \"wasm-pack build --target web --no-typescript --no-pack\"\n            }},\n            "
        )
    );
}

#[test]
fn scripts_wasm_worker_exact() {
    let n = "x";
    assert_eq!(
        templates::scripts_wasm_worker(n),
        format!(
            "\n            \"scripts\": {{\n                \"build\": \"babel {n}.jsx -d pkg\",\n                \"wasm\": \"wasm-pack build --target no-modules --no-pack --no-typescript\"\n            }},\n            "
        )
    );
}

#[test]
fn config_exact() {
    assert_eq!(
        templates::config(),
        "{\n    \"presets\": [\n        [\n        \"@babel/preset-env\",\n        {\n            \"modules\": false\n        }\n        ],\n        [\n        \"@babel/preset-react\",\n        {\n            \"runtime\": \"classic\"\n        }\n        ]\n    ]\n    }"
    );
}

#[test]
fn css_exact() {
    assert_eq!(templates::css(), "\nh1 {\n    color: pink;\n}\n   ");
}

#[test]
fn html_exact() {
    let n = "demo";
    assert_eq!(
        templates::html(n),
        format!(
            "\n<!DOCTYPE html>\n<html lang=\"en\">\n\n<head>\n    <meta name=\"viewport\" content=\"width=device-width, initial-scale=1.0, user-scalable=no\">\n    <title>{n}</title>\n    <link rel=\"stylesheet\" href=\"{n}_styles.css\">\n</head>\n\n<body>\n    <h1>Hello {n}</h1>\n    <script type=\"module\" src=\"{n}.js\"></script>\n</body>\n\n</html>\n"
        )
    );
}

#[test]
fn html_react_exact() {
    let n = "demo";
    assert_eq!(
        templates::html_react(n),
        format!(
            "\n<!DOCTYPE html>\n<html lang=\"en\">\n\n<head>\n    <meta name=\"viewport\" content=\"width=device-width, initial-scale=1.0, user-scalable=no\">\n    <title>{n}</title>\n    <link rel=\"stylesheet\" href=\"{n}_styles.css\">\n    <script src=\"https://unpkg.com/react@18/umd/react.production.min.js\" type=\"text/javascript\" crossorigin></script>\n    <script src=\"https://unpkg.com/react-dom@18/umd/react-dom.production.min.js\" type=\"text/javascript\" crossorigin></script>\n   \n</head>\n\n<body>\n    <script type=\"module\" src=\"{n}.js\"></script>\n</body>\n\n</html>\n"
        )
    );
}

#[test]
fn wasm_exact() {
    assert_eq!(
        templates::wasm(),
        "\nuse wasm_bindgen::prelude::*;\n\n#[wasm_bindgen]\npub fn hello_wasm(name: &str) -> String {\n    format!(\"Hello {name} from WASM\")\n}\n"
    );
}

#[test]
fn toml_exact() {
    assert_eq!(
        templates::toml(),
        "wasm-bindgen = \"0.2\"\n\n[lib]\ncrate-type = [\"cdylib\"]\n"
    );
}

#[test]
fn wasm_build_command_exact() {
    assert_eq!(
        templates::wasm_build_command(),
        "build command:\nwasm-pack build --target web --no-typescript --no-pack\n"
    );
}

#[test]
fn wasm_build_command_no_mod_exact() {
    assert_eq!(
        templates::wasm_build_command_no_mod(),
        "build command:\nwasm-pack build --target no-modules --no-pack --no-typescript\n"
    );
}

#[test]
fn react_readme_exact() {
    let n = "app";
    assert_eq!(
        templates::react(n),
        format!(
            "Build command using NPM:\n        npm run build\n        \n        Alt:\n        babel {n}.jsx -d pkg\n        "
        )
    );
}

#[test]
fn react_wasm_readme_exact() {
    let n = "app";
    assert_eq!(
        templates::react_wasm(n),
        format!(
            "Build commands using NPM:\n        npm run build\n        npm run wasm\n        \n        Alt:\n        babel {n}.jsx -d pkg\n        wasm-pack build --target web --no-typescript --no-pack\n        "
        )
    );
}

#[test]
fn react_wasm_worker_readme_exact() {
    let n = "app";
    assert_eq!(
        templates::react_wasm_worker(n),
        format!(
            "Build commands using NPM:\n        npm run build\n        npm run wasm\n        \n        Alt:\n        babel {n}.jsx -d pkg\n        wasm-pack build --target no-modules --no-typescript --no-pack\n        "
        )
    );
}

#[test]
fn rendering_is_pure() {
    assert_eq!(templates::vanilla_js("p"), templates::vanilla_js("p"));
    assert_eq!(templates::html("p"), templates::html("p"));
    assert_eq!(templates::html_react("p"), templates::html_react("p"));
    assert_eq!(
        templates::vanilla_js_wasm_worker_sub("p"),
        templates::vanilla_js_wasm_worker_sub("p")
    );
    assert_eq!(templates::css(), templates::css());
    assert_eq!(templates::config(), templates::config());
    assert_eq!(templates::react_wasm("p"), templates::react_wasm("p"));
}
