//! The bookkeeping of a test run: which test is running, what it printed, how
//! many tests passed, were ignored or failed, and what is reported at the end.
//!
//! The context calls no test and writes nothing. Its caller does both, and
//! tells the context what happened; the context answers with what is to be
//! written.

use vstd::prelude::*;
use vstd::string::StringExecFns;
use crate::text::{
    contains, decimal, decimal_digits, occurs, starts_with, tab, tabbed, views,
};

verus! {

/// How one test ended.
#[derive(Clone, Copy, PartialEq, Eq, Structural, Debug)]
pub enum Outcome {
    /// The test ran and returned.
    Passed,
    /// The test was left out by the filter.
    Ignored,
    /// The test threw.
    Failed,
}

/// Arguments that the harness refuses.
#[derive(PartialEq, Eq, Debug)]
pub enum ArgsError {
    /// An argument begins with `-`; no flag is supported. The argument.
    FlagNotSupported(String),
    /// A second filter was given.
    MoreThanOneFilter,
}

/// A refusal of arguments as contracts see it.
pub enum ArgsFault {
    /// This argument begins with `-`.
    FlagNotSupported(Seq<char>),
    /// A second filter was given.
    MoreThanOneFilter,
}

impl View for ArgsError {
    type V = ArgsFault;

    open spec fn view(&self) -> ArgsFault {
        match self {
            ArgsError::FlagNotSupported(flag) => ArgsFault::FlagNotSupported(flag@),
            ArgsError::MoreThanOneFilter => ArgsFault::MoreThanOneFilter,
        }
    }
}

/// The names and messages of `failures`.
pub open spec fn failure_views(failures: Seq<(String, String)>) -> Seq<(Seq<char>, Seq<char>)> {
    failures.map_values(|failure: (String, String)| (failure.0@, failure.1@))
}

/// Whether an argument is a flag: it begins with `-`.
pub open spec fn is_flag(arg: Seq<char>) -> bool {
    arg.len() > 0 && arg[0] == '-'
}

/// The filter after `args` have been read in order, beginning with `filter`.
/// The first argument that is a flag, or that is a filter when there is one
/// already, is refused.
pub open spec fn read_args(filter: Option<Seq<char>>, args: Seq<Seq<char>>) -> Result<
    Option<Seq<char>>,
    ArgsFault,
>
    decreases args.len(),
{
    if args.len() == 0 {
        Ok(filter)
    } else if is_flag(args[0]) {
        Err(ArgsFault::FlagNotSupported(args[0]))
    } else if filter is Some {
        Err(ArgsFault::MoreThanOneFilter)
    } else {
        read_args(Some(args[0]), args.skip(1))
    }
}

/// The values of one console call in one line: a space between two values, a
/// line feed at the end.
pub open spec fn console_line(args: Seq<Seq<char>>) -> Seq<char>
    decreases args.len(),
{
    if args.len() == 0 {
        seq!['\n']
    } else if args.len() == 1 {
        args[0] + seq!['\n']
    } else {
        args[0] + seq![' '] + console_line(args.skip(1))
    }
}

/// What is kept of a failed test: what it logged, what it wrote as errors,
/// each under a heading and only if there is any, and the exception.
pub open spec fn failure_message(log: Seq<char>, error: Seq<char>, exception: Seq<char>) -> Seq<
    char,
> {
    let logged = if log.len() > 0 {
        "log output:\n"@ + tabbed(log) + "\n"@
    } else {
        Seq::empty()
    };
    let errors = if error.len() > 0 {
        "error output:\n"@ + tabbed(error) + "\n"@
    } else {
        Seq::empty()
    };
    logged + errors + "JS exception that was thrown:\n"@ + tabbed(exception)
}

/// The line that announces a run of `count` tests.
pub open spec fn banner(count: nat) -> Seq<char> {
    "running "@ + decimal_digits(count) + if count == 1 {
        " test"@
    } else {
        " tests"@
    }
}

/// The line that sums a run up.
pub open spec fn summary(succeeded: nat, failed: nat, ignored: nat) -> Seq<char> {
    "test result: "@ + (if failed == 0 {
        "ok"@
    } else {
        "FAILED"@
    }) + ". "@ + decimal_digits(succeeded) + " passed; "@ + decimal_digits(failed) + " failed; "@
        + decimal_digits(ignored) + " ignored\n"@
}

/// The output of one failed test in the report.
pub open spec fn failure_output(failure: (Seq<char>, Seq<char>)) -> Seq<char> {
    "---- "@ + failure.0 + " output ----\n"@ + tabbed(failure.1)
}

/// The name of one failed test in the report.
pub open spec fn failure_name(failure: (Seq<char>, Seq<char>)) -> Seq<char> {
    "    "@ + failure.0
}

/// The state of a context as contracts see it.
pub struct ContextView {
    /// The filter: only tests whose name holds it are run.
    pub filter: Option<Seq<char>>,
    /// The name of the test that is running.
    pub current_test: Option<Seq<char>>,
    /// How many tests passed.
    pub succeeded: nat,
    /// How many tests the filter left out.
    pub ignored: nat,
    /// The failed tests, each with its message, oldest first.
    pub failures: Seq<(Seq<char>, Seq<char>)>,
    /// What the running test has logged.
    pub current_log: Seq<char>,
    /// What the running test has written as errors.
    pub current_error: Seq<char>,
    /// Whether the filter has left the running test out.
    pub ignore_this_test: bool,
}

impl ContextView {
    /// The context before anything has happened.
    pub open spec fn fresh() -> Self {
        ContextView {
            filter: None,
            current_test: None,
            succeeded: 0,
            ignored: 0,
            failures: Seq::empty(),
            current_log: Seq::empty(),
            current_error: Seq::empty(),
            ignore_this_test: false,
        }
    }

    /// Whether the filter lets a test of this name run.
    pub open spec fn selects(self, name: Seq<char>) -> bool {
        self.filter matches Some(filter) ==> occurs(filter, name)
    }

    /// A test announces itself.
    pub open spec fn execute(self, name: Seq<char>) -> (Self, bool) {
        (
            ContextView {
                current_test: Some(name),
                ignore_this_test: self.ignore_this_test || !self.selects(name),
                ..self
            },
            self.selects(name),
        )
    }

    /// The test that is running, if one is, logs `args`.
    pub open spec fn console_log(self, args: Seq<Seq<char>>) -> (Self, bool) {
        if self.current_test is None {
            (self, false)
        } else {
            (ContextView { current_log: self.current_log + console_line(args), ..self }, true)
        }
    }

    /// The test that is running, if one is, writes `args` as an error.
    pub open spec fn console_error(self, args: Seq<Seq<char>>) -> (Self, bool) {
        if self.current_test is None {
            (self, false)
        } else {
            (ContextView { current_error: self.current_error + console_line(args), ..self }, true)
        }
    }

    /// The next test is about to be called.
    pub open spec fn begin(self) -> Self {
        ContextView { ignore_this_test: false, ..self }
    }

    /// The test that was called has come back, with the text of what it
    /// threw if it threw. It is counted, and what it left behind is cleared.
    pub open spec fn end(self, thrown: Option<Seq<char>>) -> (Self, Outcome) {
        let cleared = ContextView {
            current_test: None,
            current_log: Seq::empty(),
            current_error: Seq::empty(),
            ..self
        };
        match thrown {
            Some(exception) => (
                ContextView {
                    failures: self.failures.push(
                        (
                            self.current_test->0,
                            failure_message(self.current_log, self.current_error, exception),
                        ),
                    ),
                    ..cleared
                },
                Outcome::Failed,
            ),
            None => if self.ignore_this_test {
                (ContextView { ignored: self.ignored + 1, ..cleared }, Outcome::Ignored)
            } else {
                (ContextView { succeeded: self.succeeded + 1, ..cleared }, Outcome::Passed)
            },
        }
    }

    /// The report at the end of a run, line by line.
    pub open spec fn report(self) -> Seq<Seq<char>> {
        let failed = if self.failures.len() > 0 {
            seq!["\nfailures:\n"@] + self.failures.map_values(
                |failure: (Seq<char>, Seq<char>)| failure_output(failure),
            ) + seq!["failures:\n"@] + self.failures.map_values(
                |failure: (Seq<char>, Seq<char>)| failure_name(failure),
            )
        } else {
            Seq::empty()
        };
        failed + seq![
            Seq::empty(),
            summary(self.succeeded, self.failures.len(), self.ignored),
        ]
    }
}

/// The bookkeeping of one test run.
pub struct Context {
    filter: Option<String>,
    current_test: Option<String>,
    succeeded: usize,
    ignored: usize,
    failures: Vec<(String, String)>,
    current_log: String,
    current_error: String,
    ignore_this_test: bool,
}

/// The text of a string that may be missing.
pub open spec fn optional_view(text: Option<String>) -> Option<Seq<char>> {
    match text {
        Some(text) => Some(text@),
        None => None,
    }
}

impl View for Context {
    type V = ContextView;

    closed spec fn view(&self) -> ContextView {
        ContextView {
            filter: optional_view(self.filter),
            current_test: optional_view(self.current_test),
            succeeded: self.succeeded as nat,
            ignored: self.ignored as nat,
            failures: failure_views(self.failures@),
            current_log: self.current_log@,
            current_error: self.current_error@,
            ignore_this_test: self.ignore_this_test,
        }
    }
}

/// Appends the values of one console call to `dst`, as one line.
fn log(dst: &mut String, args: &Vec<String>)
    ensures
        final(dst)@ == old(dst)@ + console_line(views(args@)),
{
    let ghost all = views(args@);
    let mut i: usize = 0;
    proof {
        reveal_strlit(" ");
        reveal_strlit("\n");
        assert(all.skip(0) =~= all);
    }
    while i < args.len()
        invariant
            i <= args@.len(),
            all == views(args@),
            " "@ == seq![' '],
            old(dst)@ + console_line(all) == dst@ + (if 0 < i < all.len() {
                seq![' ']
            } else {
                Seq::<char>::empty()
            }) + console_line(all.skip(i as int)),
        decreases args.len() - i,
    {
        assert(all.skip(i as int).skip(1) =~= all.skip(i + 1));
        if i != 0 {
            dst.append(" ");
        }
        dst.append(args[i].as_str());
        i += 1;
    }
    dst.append("\n");
}

/// The message that is kept of a failed test.
fn compose_failure(log: &str, error: &str, exception: &str) -> (msg: String)
    ensures
        msg@ == failure_message(log@, error@, exception@),
{
    let mut msg = String::new();
    if !log.is_empty() {
        msg.append("log output:\n");
        msg.append(tab(log).as_str());
        msg.append("\n");
    }
    if !error.is_empty() {
        msg.append("error output:\n");
        msg.append(tab(error).as_str());
        msg.append("\n");
    }
    msg.append("JS exception that was thrown:\n");
    msg.append(tab(exception).as_str());
    msg
}

/// The line that announces a run of `count` tests.
pub fn run_banner(count: usize) -> (line: String)
    ensures
        line@ == banner(count as nat),
{
    let mut line = String::from_str("running ");
    line.append(decimal(count).as_str());
    if count == 1 {
        line.append(" test");
    } else {
        line.append(" tests");
    }
    line
}

impl Context {
    /// A context in which nothing has happened yet.
    pub fn new() -> (context: Context)
        ensures
            context@ == ContextView::fresh(),
    {
        let context = Context {
            filter: None,
            current_test: None,
            succeeded: 0,
            ignored: 0,
            failures: Vec::new(),
            current_log: String::new(),
            current_error: String::new(),
            ignore_this_test: false,
        };
        assert(failure_views(context.failures@) =~= Seq::empty());
        context
    }

    /// Reads the arguments of the run in order. An argument that is no flag
    /// is the filter, and there is at most one. The first argument that
    /// cannot be taken is reported, and the context is then left as it was.
    pub fn args(&mut self, args: Vec<String>) -> (outcome: Result<(), ArgsError>)
        ensures
            match read_args(old(self)@.filter, views(args@)) {
                Ok(filter) => outcome is Ok && final(self)@ == (ContextView {
                    filter,
                    ..old(self)@
                }),
                Err(fault) => outcome is Err && outcome->Err_0@ == fault
                    && final(self)@ == old(self)@,
            },
    {
        let ghost all = views(args@);
        let ghost start = old(self)@.filter;
        let mut filter: Option<String> = self.filter.clone();
        let mut i: usize = 0;
        proof {
            assert(all.skip(0) =~= all);
        }
        while i < args.len()
            invariant
                i <= args@.len(),
                all == views(args@),
                start == old(self)@.filter,
                *self == *old(self),
                read_args(start, all) == read_args(optional_view(filter), all.skip(i as int)),
            decreases args.len() - i,
        {
            let ghost rest = all.skip(i as int);
            proof {
                reveal_strlit("-");
                assert(rest.skip(1) =~= all.skip(i + 1));
                assert("-"@.len() == 1 && "-"@[0] == '-');
            }
            if starts_with(args[i].as_str(), "-") {
                return Err(ArgsError::FlagNotSupported(args[i].clone()));
            } else if filter.is_some() {
                return Err(ArgsError::MoreThanOneFilter);
            }
            filter = Some(args[i].clone());
            i += 1;
        }
        self.filter = filter;
        Ok(())
    }

    /// Announces the test `name`, which becomes the running test, and says
    /// whether it is to run: it is unless there is a filter that `name` does
    /// not hold, and then the test is marked as ignored.
    pub fn execute(&mut self, name: &str) -> (run: bool)
        requires
            old(self)@.current_test is None,
        ensures
            (final(self)@, run) == old(self)@.execute(name@),
    {
        self.current_test = Some(String::from_str(name));
        let run = match &self.filter {
            Some(filter) => contains(name, filter.as_str()),
            None => true,
        };
        if !run {
            self.ignore_this_test = true;
        }
        run
    }

    /// Takes the values of one call of the console's log function. While a
    /// test is running they are kept as one line of its log, and the answer
    /// is `true`; otherwise nothing is kept, and the caller passes the call
    /// on to the console.
    pub fn console_log(&mut self, args: &Vec<String>) -> (captured: bool)
        ensures
            (final(self)@, captured) == old(self)@.console_log(views(args@)),
    {
        if self.current_test.is_none() {
            return false;
        }
        log(&mut self.current_log, args);
        true
    }

    /// Takes the values of one call of the console's error function, as
    /// [`Context::console_log`] does for the log function.
    pub fn console_error(&mut self, args: &Vec<String>) -> (captured: bool)
        ensures
            (final(self)@, captured) == old(self)@.console_error(views(args@)),
    {
        if self.current_test.is_none() {
            return false;
        }
        log(&mut self.current_error, args);
        true
    }

    /// Prepares for the next test: no test is ignored before the filter has
    /// seen its name.
    pub fn begin(&mut self)
        ensures
            final(self)@ == old(self)@.begin(),
    {
        self.ignore_this_test = false;
    }

    /// Counts the test that has come back. `thrown` is the text of what it
    /// threw, if it threw: the test has then failed, and its name is kept with
    /// what it printed and what it threw. Otherwise it has passed, or was
    /// ignored if the filter left it out. Nothing of the test stays behind
    /// for the next one.
    pub fn end(&mut self, thrown: Option<&str>) -> (outcome: Outcome)
        requires
            thrown is Some ==> old(self)@.current_test is Some,
            old(self)@.succeeded < usize::MAX,
            old(self)@.ignored < usize::MAX,
        ensures
            (final(self)@, outcome) == old(self)@.end(
                match thrown {
                    Some(exception) => Some(exception@),
                    None => None,
                },
            ),
    {
        let outcome = match thrown {
            Some(exception) => {
                self.log_failure(exception);
                Outcome::Failed
            },
            None => if self.ignore_this_test {
                self.log_ignore();
                Outcome::Ignored
            } else {
                self.log_success();
                Outcome::Passed
            },
        };
        self.current_test = None;
        self.current_log = String::new();
        self.current_error = String::new();
        outcome
    }

    /// Counts a test that passed.
    fn log_success(&mut self)
        requires
            old(self)@.succeeded < usize::MAX,
        ensures
            final(self)@ == (ContextView { succeeded: old(self)@.succeeded + 1, ..old(self)@ }),
    {
        self.succeeded = self.succeeded + 1;
    }

    /// Counts a test that the filter left out.
    fn log_ignore(&mut self)
        requires
            old(self)@.ignored < usize::MAX,
        ensures
            final(self)@ == (ContextView { ignored: old(self)@.ignored + 1, ..old(self)@ }),
    {
        self.ignored = self.ignored + 1;
    }

    /// Keeps the running test as failed, with what it printed and the text
    /// of what it threw.
    fn log_failure(&mut self, exception: &str)
        requires
            old(self)@.current_test is Some,
        ensures
            final(self)@ == (ContextView {
                failures: old(self)@.failures.push(
                    (
                        old(self)@.current_test->0,
                        failure_message(
                            old(self)@.current_log,
                            old(self)@.current_error,
                            exception@,
                        ),
                    ),
                ),
                current_log: Seq::empty(),
                current_error: Seq::empty(),
                ..old(self)@
            }),
    {
        let name = match &self.current_test {
            Some(name) => name.clone(),
            None => String::new(),
        };
        let mut log = String::new();
        core::mem::swap(&mut self.current_log, &mut log);
        let mut error = String::new();
        core::mem::swap(&mut self.current_error, &mut error);
        let msg = compose_failure(log.as_str(), error.as_str(), exception);
        let ghost before = self.failures@;
        self.failures.push((name, msg));
        assert(failure_views(self.failures@) =~= failure_views(before).push((name@, msg@)));
    }

    /// The report at the end of a run, line by line: for each failed test
    /// what it left behind, then the names of the failed tests, then an empty
    /// line and the sum of the run.
    pub fn log_results(&self) -> (lines: Vec<String>)
        ensures
            views(lines@) == self@.report(),
    {
        let ghost failed = self@.failures;
        let ghost output = |failure: (Seq<char>, Seq<char>)| failure_output(failure);
        let ghost name = |failure: (Seq<char>, Seq<char>)| failure_name(failure);
        let mut lines: Vec<String> = Vec::new();
        let count = self.failures.len();
        if count > 0 {
            lines.push(String::from_str("\nfailures:\n"));
            let mut i: usize = 0;
            while i < count
                invariant
                    i <= count,
                    count == self.failures@.len(),
                    failed == self@.failures,
                    output == |failure: (Seq<char>, Seq<char>)| failure_output(failure),
                    views(lines@) == seq!["\nfailures:\n"@] + failed.take(i as int).map_values(
                        output,
                    ),
                decreases count - i,
            {
                let ghost before = lines@;
                let mut line = String::from_str("---- ");
                line.append(self.failures[i].0.as_str());
                line.append(" output ----\n");
                line.append(tab(self.failures[i].1.as_str()).as_str());
                lines.push(line);
                proof {
                    assert(views(lines@) =~= views(before).push(line@));
                    assert(failed.take(i + 1).map_values(output) =~= failed.take(
                        i as int,
                    ).map_values(output).push(output(failed[i as int])));
                }
                i += 1;
            }
            let ghost before = lines@;
            lines.push(String::from_str("failures:\n"));
            proof {
                assert(failed.take(count as int) =~= failed);
                assert(views(lines@) =~= seq!["\nfailures:\n"@] + failed.map_values(output)
                    + seq!["failures:\n"@] + failed.take(0).map_values(name));
            }
            let mut i: usize = 0;
            while i < count
                invariant
                    i <= count,
                    count == self.failures@.len(),
                    failed == self@.failures,
                    output == |failure: (Seq<char>, Seq<char>)| failure_output(failure),
                    name == |failure: (Seq<char>, Seq<char>)| failure_name(failure),
                    views(lines@) == seq!["\nfailures:\n"@] + failed.map_values(output)
                        + seq!["failures:\n"@] + failed.take(i as int).map_values(name),
                decreases count - i,
            {
                let ghost before = lines@;
                let mut line = String::from_str("    ");
                line.append(self.failures[i].0.as_str());
                lines.push(line);
                proof {
                    assert(views(lines@) =~= views(before).push(line@));
                    assert(failed.take(i + 1).map_values(name) =~= failed.take(i as int).map_values(
                        name,
                    ).push(name(failed[i as int])));
                }
                i += 1;
            }
        }
        lines.push(String::new());
        let mut line = String::from_str("test result: ");
        if count == 0 {
            line.append("ok");
        } else {
            line.append("FAILED");
        }
        line.append(". ");
        line.append(decimal(self.succeeded).as_str());
        line.append(" passed; ");
        line.append(decimal(count).as_str());
        line.append(" failed; ");
        line.append(decimal(self.ignored).as_str());
        line.append(" ignored\n");
        lines.push(line);
        lines
    }

    /// Whether no test has failed.
    pub fn passed(&self) -> (passed: bool)
        ensures
            passed == (self@.failures.len() == 0),
    {
        self.failures.len() == 0
    }

    /// The filter, if one was given.
    pub fn filter(&self) -> (filter: Option<&String>)
        ensures
            optional_view(
                match filter {
                    Some(filter) => Some(*filter),
                    None => None,
                },
            ) == self@.filter,
    {
        self.filter.as_ref()
    }

    /// The name of the test that is running, if one is.
    pub fn current_test(&self) -> (name: Option<&String>)
        ensures
            optional_view(
                match name {
                    Some(name) => Some(*name),
                    None => None,
                },
            ) == self@.current_test,
    {
        self.current_test.as_ref()
    }

    /// How many tests have passed.
    pub fn succeeded(&self) -> (count: usize)
        ensures
            count == self@.succeeded,
    {
        self.succeeded
    }

    /// How many tests the filter has left out.
    pub fn ignored(&self) -> (count: usize)
        ensures
            count == self@.ignored,
    {
        self.ignored
    }

    /// The failed tests, each with its message, oldest first.
    pub fn failures(&self) -> (failures: &Vec<(String, String)>)
        ensures
            failure_views(failures@) == self@.failures,
    {
        &self.failures
    }
}

} // verus!
