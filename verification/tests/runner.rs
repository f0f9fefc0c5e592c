use parity_wasm::builder;
use promise_bridge::runner::{
    asset_fallback, browser_script, find_tests, js_name, node_options, node_script, select_tests,
    wasm_name, InvalidModule,
};

fn strings(values: &[&str]) -> Vec<String> {
    values.iter().map(|value| value.to_string()).collect()
}

/// The bytes of a module with one function, exported under each of `names`.
fn module_exporting(names: &[&str]) -> Vec<u8> {
    let mut module = builder::module().function().signature().build().body().build().build();
    for name in names {
        module = module.export().field(name).internal().func(0).build();
    }
    parity_wasm::serialize(module.build()).unwrap()
}

#[test]
fn select_tests_keeps_exports_with_the_prefix_in_order() {
    let exports = strings(&[
        "memory",
        "__wbg_test_second",
        "main",
        "__wbg_test_first",
        "__wbg_test",
        "__wbg_tes",
        "x__wbg_test",
        "__wbg_testing",
    ]);
    assert_eq!(
        select_tests(exports),
        strings(&["__wbg_test_second", "__wbg_test_first", "__wbg_test", "__wbg_testing"])
    );
    assert_eq!(select_tests(Vec::new()), Vec::<String>::new());
    assert_eq!(select_tests(strings(&["memory"])), Vec::<String>::new());
}

#[test]
fn find_tests_reads_the_export_section() {
    let wasm = module_exporting(&["memory", "__wbg_test_b", "__wbg_test_a", "other"]);
    assert_eq!(find_tests(&wasm), Ok(strings(&["__wbg_test_b", "__wbg_test_a"])));
}

#[test]
fn find_tests_reads_a_module_written_by_hand() {
    let mut wasm: Vec<u8> = vec![0x00, 0x61, 0x73, 0x6d, 0x01, 0x00, 0x00, 0x00];
    // One type: no parameters, no results.
    wasm.extend([0x01, 0x04, 0x01, 0x60, 0x00, 0x00]);
    // One function of that type.
    wasm.extend([0x03, 0x02, 0x01, 0x00]);
    // Two exports of that function: "run" and "__wbg_test_x".
    wasm.extend([0x07, 0x16, 0x02]);
    wasm.extend([0x03, b'r', b'u', b'n', 0x00, 0x00]);
    wasm.push(0x0c);
    wasm.extend(b"__wbg_test_x");
    wasm.extend([0x00, 0x00]);
    // The body of the function: no locals, `end`.
    wasm.extend([0x0a, 0x04, 0x01, 0x02, 0x00, 0x0b]);
    assert_eq!(find_tests(&wasm), Ok(strings(&["__wbg_test_x"])));
}

#[test]
fn find_tests_of_a_module_without_exports_finds_none() {
    let wasm = module_exporting(&[]);
    assert_eq!(find_tests(&wasm), Ok(Vec::new()));
    let header_only = [0x00, 0x61, 0x73, 0x6d, 0x01, 0x00, 0x00, 0x00];
    assert_eq!(find_tests(&header_only), Ok(Vec::new()));
}

#[test]
fn find_tests_refuses_what_is_no_module() {
    let refused = find_tests(b"not a module").unwrap_err();
    assert_eq!(refused.cause, "Invalid magic number at start of file");
    assert_eq!(refused.message(), "failed to deserialize wasm module");
    assert!(find_tests(&[0x00, 0x61, 0x73, 0x6d, 0x02, 0x00, 0x00, 0x00]).is_err());
    let mut cut = module_exporting(&["__wbg_test_a"]);
    cut.truncate(cut.len() - 2);
    assert!(find_tests(&cut).is_err());
    assert_eq!(
        InvalidModule { cause: "x".to_string() },
        InvalidModule { cause: "x".to_string() }
    );
}

#[test]
fn file_names_follow_the_module_name() {
    assert_eq!(wasm_name("bridge"), "bridge_bg.wasm");
    assert_eq!(js_name("bridge"), "bridge_bg.js");
    assert_eq!(wasm_name(""), "_bg.wasm");
}

#[test]
fn node_script_names_the_module_twice_and_lists_the_tests() {
    let script = node_script("bridge", &strings(&["__wbg_test_a", "__wbg_test_b"]));
    let expected = format!(
        r#"
        import {{ exit }} from 'process';

        let cx = null;

        // override `console.log` and `console.error` before we import tests to
        // ensure they're bound correctly in wasm. This'll allow us to intercept
        // all these calls and capture the output of tests
        const prev_log = console.log;
        console.log = function() {{
            if (cx === null)  {{
                prev_log.apply(null, arguments);
            }} else {{
                cx.console_log(prev_log, arguments);
            }}
        }};
        const prev_error = console.error;
        console.error = function() {{
            if (cx === null) {{
                prev_error.apply(null, arguments);
            }} else {{
                cx.console_error(prev_error, arguments);
            }}
        }};

        async function main(tests) {{
            const support = await import("./{0}");
            const wasm = await import("./{0}_bg");

            // Hack for now to support 0 tests in a binary. This should be done
            // better...
            if (support.Context === undefined)
                process.exit(0);

            cx = await support.Context.new();

            // Forward runtime arguments. These arguments are also arguments to the
            // `wasm-bindgen-test-runner` which forwards them to node which we
            // forward to the test harness. this is basically only used for test
            // filters for now.
            cx.args(process.argv.slice(2));

            if (!cx.run(tests.map(n => wasm[n])))
                exit(1);
        }}

        const tests = [];
    tests.push('__wbg_test_a')
tests.push('__wbg_test_b')

        main(tests)
            .catch(e => {{
                console.error(e);
                exit(1);
            }});
    "#,
        "bridge"
    );
    assert_eq!(script, expected);
}

#[test]
fn node_script_without_tests_lists_none() {
    let script = node_script("m", &Vec::new());
    assert!(script.contains("await import(\"./m\");"));
    assert!(script.contains("await import(\"./m_bg\");"));
    assert!(script.contains("const tests = [];\n    \n        main(tests)"));
    assert!(!script.contains("tests.push"));
}

#[test]
fn browser_script_hands_the_arguments_on() {
    let script = browser_script("bridge", "[\"filter\"]", &strings(&["__wbg_test_a"])).unwrap();
    let expected = format!(
        r#"
        import {{ Context }} from './{0}';
        import * as wasm from './{0}_bg';

        document.getElementById('output').innerHTML = "Loading wasm module...";

        async function main(test) {{
            await wasm.booted;
            const cx = await Context.new();
            window.global_cx = cx;

            // Forward runtime arguments. These arguments are also arguments to the
            // `wasm-bindgen-test-runner` which forwards them to node which we
            // forward to the test harness. this is basically only used for test
            // filters for now.
            cx.args({1});

            cx.run(test.map(s => wasm[s]));
        }}

        const tests = [];
    tests.push('__wbg_test_a')

        main(tests)
    "#,
        "bridge", "[\"filter\"]"
    );
    assert_eq!(script, expected);
}

#[test]
fn browser_script_needs_a_test() {
    assert_eq!(browser_script("bridge", "[]", &Vec::new()), None);
}

#[test]
fn node_options_add_the_loader_to_what_was_set() {
    assert_eq!(
        node_options("", "/tmp/wbg-tmp/loader.mjs"),
        " --experimental-modules --loader /tmp/wbg-tmp/loader.mjs"
    );
    assert_eq!(
        node_options("--inspect", "loader.mjs"),
        "--inspect --experimental-modules --loader loader.mjs"
    );
}

#[test]
fn asset_fallback_adds_an_extension_where_the_last_segment_has_none() {
    assert_eq!(asset_fallback("/bridge"), Some("/bridge.js".to_string()));
    assert_eq!(asset_fallback("/pkg/bridge_bg"), Some("/pkg/bridge_bg.js".to_string()));
    assert_eq!(asset_fallback("/v1.2/bridge"), Some("/v1.2/bridge.js".to_string()));
    assert_eq!(asset_fallback("/"), Some("/.js".to_string()));
    assert_eq!(asset_fallback(""), Some(".js".to_string()));
    assert_eq!(asset_fallback("/bridge.js"), None);
    assert_eq!(asset_fallback("/bridge_bg.wasm"), None);
    assert_eq!(asset_fallback("/pkg/.hidden"), None);
    assert_eq!(asset_fallback("/pkg/file."), None);
    assert_eq!(asset_fallback("run.js"), None);
}

#[test]
fn asset_fallback_agrees_with_splitting_at_slashes() {
    let urls = ["", "/", "a", "a.b", "/a.b/c", "/a/b.c", "a/b/c", "/a.b/c.d/e", "//", "/a//b.", "./a"];
    for url in urls {
        let last = url.split('/').last().unwrap();
        let expected = if last.contains('.') { None } else { Some(format!("{}.js", url)) };
        assert_eq!(asset_fallback(url), expected, "for {:?}", url);
    }
}
