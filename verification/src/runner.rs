//! What the runner of a test binary decides: which exports of a module are
//! tests, and what the scripts say that run them under node or in a browser.
//!
//! The runner's files, processes and server are the caller's. Here are the
//! texts it writes and the names it looks for.

use vstd::prelude::*;
use vstd::string::StringExecFns;
use parity_wasm::elements::{Deserialize, Module};
use crate::text::{chars, starts_with, views};

verus! {

/// `parity_wasm::elements::Error`, the error with which `parity-wasm` refuses
/// a module. Nothing is known of a value of it.
#[verifier::external_type_specification]
#[verifier::external_body]
pub struct ExError(parity_wasm::elements::Error);

/// The names that a WebAssembly module exports, in the order of its export
/// section, as `parity-wasm` reads them from the module's bytes; `None` for
/// bytes that it refuses.
pub uninterp spec fn wasm_exports(wasm: Seq<u8>) -> Option<Seq<Seq<char>>>;

/// Reads a module with `Module::deserialize` of `parity-wasm` and returns
/// the `field` of each of the `entries` of its `export_section`, in order, or
/// no name if the module has no such section; the error is the parser's.
/// The contract gives that list its name, [`wasm_exports`], and claims
/// nothing else of it: what is trusted is that the bytes alone decide whether
/// the parser takes them and which names it finds, and that the parser
/// answers every sequence of bytes.
#[verifier::external_body]
fn export_names(wasm: &[u8]) -> (names: Result<Vec<String>, parity_wasm::elements::Error>)
    ensures
        match names {
            Ok(names) => wasm_exports(wasm@) == Some(views(names@)),
            Err(_) => wasm_exports(wasm@) is None,
        },
{
    let module = Module::deserialize(&mut &wasm[..])?;
    let entries = module.export_section().map_or(&[][..], |section| section.entries());
    Ok(entries.iter().map(|entry| entry.field().to_string()).collect())
}

/// `to_string` on the error of `parity-wasm`, which is its `Display`: why the
/// parser refused a module, in its own words. Nothing is claimed of the text.
#[verifier::external_body]
fn describe(error: &parity_wasm::elements::Error) -> String {
    error.to_string()
}

/// A file that is no WebAssembly module.
#[derive(PartialEq, Eq, Debug)]
pub struct InvalidModule {
    /// Why the module was refused, in the words of the parser.
    pub cause: String,
}

impl InvalidModule {
    /// What went wrong, without the cause.
    pub fn message(&self) -> (message: String)
        ensures
            message@ == "failed to deserialize wasm module"@,
    {
        String::from_str("failed to deserialize wasm module")
    }
}

/// The prefix by which the export of a test is known.
pub const TEST_PREFIX: &'static str = "__wbg_test";

/// Whether an export of this name is a test.
pub open spec fn is_test(name: Seq<char>) -> bool {
    TEST_PREFIX@.is_prefix_of(name)
}

/// The tests among `exports`, in the same order.
pub open spec fn test_names(exports: Seq<Seq<char>>) -> Seq<Seq<char>> {
    exports.filter(|name: Seq<char>| is_test(name))
}

/// Picks the tests among the exports of a module: the exports whose name
/// begins with [`TEST_PREFIX`], in the order in which they came.
pub fn select_tests(exports: Vec<String>) -> (tests: Vec<String>)
    ensures
        views(tests@) == test_names(views(exports@)),
{
    let ghost all = views(exports@);
    let ghost test = |name: Seq<char>| is_test(name);
    let mut tests: Vec<String> = Vec::new();
    let mut i: usize = 0;
    proof {
        reveal(Seq::filter);
    }
    while i < exports.len()
        invariant
            i <= exports@.len(),
            all == views(exports@),
            test == |name: Seq<char>| is_test(name),
            views(tests@) == all.take(i as int).filter(test),
        decreases exports.len() - i,
    {
        proof {
            reveal(Seq::filter);
            assert(all.take(i + 1).drop_last() =~= all.take(i as int));
        }
        if starts_with(exports[i].as_str(), TEST_PREFIX) {
            tests.push(exports[i].clone());
        }
        i += 1;
    }
    assert(all.take(i as int) =~= all);
    tests
}

/// Finds the tests in the bytes of a WebAssembly module: the names of its
/// exports that begin with [`TEST_PREFIX`], in the order of the export
/// section. Bytes that are no module are refused.
pub fn find_tests(wasm: &[u8]) -> (tests: Result<Vec<String>, InvalidModule>)
    ensures
        match wasm_exports(wasm@) {
            Some(exports) => tests is Ok && views(tests->Ok_0@) == test_names(exports),
            None => tests is Err,
        },
{
    match export_names(wasm) {
        Ok(exports) => Ok(select_tests(exports)),
        Err(error) => Err(InvalidModule { cause: describe(&error) }),
    }
}

/// The name of the file that holds the module `module`.
pub fn wasm_name(module: &str) -> (name: String)
    ensures
        name@ == module@ + "_bg.wasm"@,
{
    let mut name = String::from_str(module);
    name.append("_bg.wasm");
    name
}

/// The name of the file that holds the module `module` as a script.
pub fn js_name(module: &str) -> (name: String)
    ensures
        name@ == module@ + "_bg.js"@,
{
    let mut name = String::from_str(module);
    name.append("_bg.js");
    name
}

/// The script for node, up to the name of the module that holds the tests.
pub const NODE_HEAD: &'static str = r#"
        import { exit } from 'process';

        let cx = null;

        // override `console.log` and `console.error` before we import tests to
        // ensure they're bound correctly in wasm. This'll allow us to intercept
        // all these calls and capture the output of tests
        const prev_log = console.log;
        console.log = function() {
            if (cx === null)  {
                prev_log.apply(null, arguments);
            } else {
                cx.console_log(prev_log, arguments);
            }
        };
        const prev_error = console.error;
        console.error = function() {
            if (cx === null) {
                prev_error.apply(null, arguments);
            } else {
                cx.console_error(prev_error, arguments);
            }
        };

        async function main(tests) {
            const support = await import("./"#;

/// The script for node, between the two places that name the module.
pub const NODE_IMPORT: &'static str = r#"");
            const wasm = await import("./"#;

/// The script for node, from the second name of the module to the list of tests.
pub const NODE_MAIN: &'static str = r#"_bg");

            // Hack for now to support 0 tests in a binary. This should be done
            // better...
            if (support.Context === undefined)
                process.exit(0);

            cx = await support.Context.new();

            // Forward runtime arguments. These arguments are also arguments to the
            // `wasm-bindgen-test-runner` which forwards them to node which we
            // forward to the test harness. this is basically only used for test
            // filters for now.
            cx.args(process.argv.slice(2));

            if (!cx.run(tests.map(n => wasm[n])))
                exit(1);
        }

        const tests = [];
    "#;

/// The end of the script for node: the tests are run, and a failure ends the process.
pub const NODE_TAIL: &'static str = r#"
        main(tests)
            .catch(e => {
                console.error(e);
                exit(1);
            });
    "#;

/// The script for a browser, up to the name of the module that holds the tests.
pub const BROWSER_HEAD: &'static str = r#"
        import { Context } from './"#;

/// The script for a browser, between the two places that name the module.
pub const BROWSER_IMPORT: &'static str = r#"';
        import * as wasm from './"#;

/// The script for a browser, from the second name of the module to the arguments.
pub const BROWSER_MAIN: &'static str = r#"_bg';

        document.getElementById('output').innerHTML = "Loading wasm module...";

        async function main(test) {
            await wasm.booted;
            const cx = await Context.new();
            window.global_cx = cx;

            // Forward runtime arguments. These arguments are also arguments to the
            // `wasm-bindgen-test-runner` which forwards them to node which we
            // forward to the test harness. this is basically only used for test
            // filters for now.
            cx.args("#;

/// The script for a browser, from the arguments to the list of tests.
pub const BROWSER_END: &'static str = r#");

            cx.run(test.map(s => wasm[s]));
        }

        const tests = [];
    "#;

/// The end of the script for a browser: the tests are run.
pub const BROWSER_TAIL: &'static str = r#"
        main(tests)
    "#;

/// What a script says before the name of a test to add it to the list.
pub const PUSH_OPEN: &'static str = "tests.push('";

/// What a script says after the name of a test to add it to the list.
pub const PUSH_CLOSE: &'static str = "')\n";

/// The lines of a script that add `tests` to the list of tests, in order.
pub open spec fn pushes(tests: Seq<Seq<char>>) -> Seq<char>
    decreases tests.len(),
{
    if tests.len() == 0 {
        Seq::empty()
    } else {
        pushes(tests.drop_last()) + PUSH_OPEN@ + tests.last() + PUSH_CLOSE@
    }
}

/// The script that runs `tests` of the module `module` under node.
pub open spec fn node_script_text(module: Seq<char>, tests: Seq<Seq<char>>) -> Seq<char> {
    NODE_HEAD@ + module + NODE_IMPORT@ + module + NODE_MAIN@ + pushes(tests) + NODE_TAIL@
}

/// The script that runs `tests` of the module `module` in a browser, handing
/// `args`, written as a list of the script's language, to the harness.
pub open spec fn browser_script_text(
    module: Seq<char>,
    args: Seq<char>,
    tests: Seq<Seq<char>>,
) -> Seq<char> {
    BROWSER_HEAD@ + module + BROWSER_IMPORT@ + module + BROWSER_MAIN@ + args + BROWSER_END@
        + pushes(tests) + BROWSER_TAIL@
}

/// Appends to `script` the lines that add `tests` to the list of tests.
fn push_tests(script: &mut String, tests: &Vec<String>)
    ensures
        final(script)@ == old(script)@ + pushes(views(tests@)),
{
    let ghost all = views(tests@);
    let mut i: usize = 0;
    while i < tests.len()
        invariant
            i <= tests@.len(),
            all == views(tests@),
            script@ == old(script)@ + pushes(all.take(i as int)),
        decreases tests.len() - i,
    {
        script.append(PUSH_OPEN);
        script.append(tests[i].as_str());
        script.append(PUSH_CLOSE);
        assert(all.take(i + 1).drop_last() =~= all.take(i as int));
        i += 1;
    }
    assert(all.take(i as int) =~= all);
}

/// Writes the script that runs `tests` of the module `module` under node.
pub fn node_script(module: &str, tests: &Vec<String>) -> (script: String)
    ensures
        script@ == node_script_text(module@, views(tests@)),
{
    let mut script = String::from_str(NODE_HEAD);
    script.append(module);
    script.append(NODE_IMPORT);
    script.append(module);
    script.append(NODE_MAIN);
    push_tests(&mut script, tests);
    script.append(NODE_TAIL);
    script
}

/// Writes the script that runs `tests` of the module `module` in a browser,
/// unless there is no test: then there is nothing to run and no script.
pub fn browser_script(module: &str, args: &str, tests: &Vec<String>) -> (script: Option<String>)
    ensures
        tests@.len() == 0 ==> script is None,
        tests@.len() > 0 ==> script is Some && script->0@ == browser_script_text(
            module@,
            args@,
            views(tests@),
        ),
{
    if tests.len() == 0 {
        return None;
    }
    let mut script = String::from_str(BROWSER_HEAD);
    script.append(module);
    script.append(BROWSER_IMPORT);
    script.append(module);
    script.append(BROWSER_MAIN);
    script.append(args);
    script.append(BROWSER_END);
    push_tests(&mut script, tests);
    script.append(BROWSER_TAIL);
    Some(script)
}

/// The options with which node is started: those that were set before, then
/// the switch for modules and the loader at `loader`.
pub fn node_options(inherited: &str, loader: &str) -> (options: String)
    ensures
        options@ == inherited@ + " --experimental-modules"@ + " --loader "@ + loader@,
{
    let mut options = String::from_str(inherited);
    options.append(" --experimental-modules");
    options.append(" --loader ");
    options.append(loader);
    options
}

/// Whether the last segment of `url`, what follows its last `/`, holds a dot.
pub open spec fn names_a_file(url: Seq<char>) -> bool {
    exists|dot: int|
        0 <= dot < url.len() && url[dot] == '.' && forall|i: int|
            dot < i < url.len() ==> url[i] != '/'
}

/// The address to try when no asset is found at `url`: the same with `.js`
/// behind it, if the last segment of `url` holds no dot; none otherwise.
pub fn asset_fallback(url: &str) -> (other: Option<String>)
    ensures
        names_a_file(url@) ==> other is None,
        !names_a_file(url@) ==> other is Some && other->0@ == url@ + ".js"@,
{
    let all = chars(url);
    let mut i: usize = all.len();
    while i > 0
        invariant_except_break
            forall|k: int| i <= k < all@.len() ==> all@[k] != '.' && all@[k] != '/',
        invariant
            all@ == url@,
            i <= all@.len(),
        ensures
            !names_a_file(url@),
        decreases i,
    {
        i -= 1;
        if all[i] == '.' {
            return None;
        }
        if all[i] == '/' {
            break ;
        }
    }
    let mut other = String::from_str(url);
    other.append(".js");
    Some(other)
}

} // verus!
