//! The test report of the workspace: reading the output of `cargo test`
//! into suites and test cases, and printing them as two tables of one
//! width with a summary line.

use vstd::prelude::*;
use crate::digits::{decimal, decimal_chars, parse_u64, parse_u64_spec};
use crate::text::{
    chars_of, has_prefix, has_suffix, last_occurrence, rsplit_once, rsplit_once_spec, slice,
    split_once, split_once_spec, starts_with, string_of, trim, trim_spec, trim_start,
    trim_start_spec,
};

verus! {

/// A line without the carriage return that ends it, if any.
pub open spec fn strip_cr(line: Seq<char>) -> Seq<char> {
    if line.len() > 0 && line.last() == '\r' { line.drop_last() } else { line }
}

/// The lines ended within the first `n` characters of `s`, and the line
/// under way after them.
pub open spec fn scan_lines(s: Seq<char>, n: nat) -> (Seq<Seq<char>>, Seq<char>)
    decreases n,
{
    if n == 0 || n > s.len() {
        (seq![], seq![])
    } else {
        let prev = scan_lines(s, (n - 1) as nat);
        if s[n - 1] == '\n' {
            (prev.0.push(strip_cr(prev.1)), seq![])
        } else {
            (prev.0, prev.1.push(s[n - 1]))
        }
    }
}

/// The lines of `s` as `str::lines` gives them: split at each line feed,
/// a carriage return before it dropped, and a last line kept only if it is
/// not empty.
pub open spec fn lines_of(s: Seq<char>) -> Seq<Seq<char>> {
    let r = scan_lines(s, s.len());
    if r.1.len() > 0 { r.0.push(r.1) } else { r.0 }
}

/// The parts ended by `sep` within the first `n` characters of `s`, and
/// the part under way after them.
pub open spec fn scan_parts(s: Seq<char>, sep: char, n: nat) -> (Seq<Seq<char>>, Seq<char>)
    decreases n,
{
    if n == 0 || n > s.len() {
        (seq![], seq![])
    } else {
        let prev = scan_parts(s, sep, (n - 1) as nat);
        if s[n - 1] == sep {
            (prev.0.push(prev.1), seq![])
        } else {
            (prev.0, prev.1.push(s[n - 1]))
        }
    }
}

/// The parts of `s` between the separators, as `str::split` gives them.
pub open spec fn parts_of(s: Seq<char>, sep: char) -> Seq<Seq<char>> {
    let r = scan_parts(s, sep, s.len());
    r.0.push(r.1)
}

/// A list of character vectors as sequences.
pub open spec fn texts(v: Seq<Vec<char>>) -> Seq<Seq<char>> {
    v.map_values(|x: Vec<char>| x@)
}

/// Splits `s` into its lines.
pub fn split_lines(s: &Vec<char>) -> (r: Vec<Vec<char>>)
    ensures
        texts(r@) == lines_of(s@),
{
    let mut done: Vec<Vec<char>> = Vec::new();
    let mut cur: Vec<char> = Vec::new();
    let mut i: usize = 0;
    while i < s.len()
        invariant
            i <= s.len(),
            (texts(done@), cur@) == scan_lines(s@, i as nat),
        decreases s.len() - i,
    {
        let c = s[i];
        if c == '\n' {
            let n = cur.len();
            let line = if n > 0 && cur[n - 1] == '\r' { slice(&cur, 0, n - 1) } else { slice(&cur, 0, n) };
            assert(line@ == strip_cr(cur@));
            let ghost before = texts(done@);
            done.push(line);
            assert(texts(done@) =~= before.push(strip_cr(cur@)));
            cur = Vec::new();
        } else {
            cur.push(c);
        }
        i = i + 1;
    }
    if cur.len() > 0 {
        let ghost before = texts(done@);
        done.push(cur);
        assert(texts(done@) =~= before.push(scan_lines(s@, s@.len()).1));
    }
    done
}

/// Splits `s` at each `sep`.
pub fn split_parts(s: &Vec<char>, sep: char) -> (r: Vec<Vec<char>>)
    ensures
        texts(r@) == parts_of(s@, sep),
{
    let mut done: Vec<Vec<char>> = Vec::new();
    let mut cur: Vec<char> = Vec::new();
    let mut i: usize = 0;
    while i < s.len()
        invariant
            i <= s.len(),
            (texts(done@), cur@) == scan_parts(s@, sep, i as nat),
        decreases s.len() - i,
    {
        let c = s[i];
        if c == sep {
            let ghost before = texts(done@);
            let ghost part = cur@;
            done.push(cur);
            assert(texts(done@) =~= before.push(part));
            cur = Vec::new();
        } else {
            cur.push(c);
        }
        i = i + 1;
    }
    let ghost before = texts(done@);
    let ghost last = cur@;
    done.push(cur);
    assert(texts(done@) =~= before.push(last));
    done
}

/// `s` without the prefix `p`, if it has it.
pub open spec fn strip_prefix_spec(s: Seq<char>, p: Seq<char>) -> Option<Seq<char>> {
    if has_prefix(s, p) { Some(s.skip(p.len() as int)) } else { None }
}

/// `s` without the suffix `p`, if it has it.
pub open spec fn strip_suffix_spec(s: Seq<char>, p: Seq<char>) -> Option<Seq<char>> {
    if has_suffix(s, p) { Some(s.take(s.len() - p.len())) } else { None }
}

/// Removes the prefix `p` from `s`, if `s` has it.
pub fn strip_prefix(s: &Vec<char>, p: &str) -> (r: Option<Vec<char>>)
    ensures
        match (r, strip_prefix_spec(s@, p@)) {
            (Some(a), Some(b)) => a@ == b,
            (None, None) => true,
            _ => false,
        },
{
    let pc = chars_of(p);
    if starts_with(s, &pc) {
        Some(slice(s, pc.len(), s.len()))
    } else {
        None
    }
}

/// Removes the suffix `p` from `s`, if `s` has it.
pub fn strip_suffix(s: &Vec<char>, p: &str) -> (r: Option<Vec<char>>)
    ensures
        match (r, strip_suffix_spec(s@, p@)) {
            (Some(a), Some(b)) => a@ == b,
            (None, None) => true,
            _ => false,
        },
{
    let pc = chars_of(p);
    if pc.len() > s.len() {
        return None;
    }
    let start = s.len() - pc.len();
    if crate::text::matches_at(s, &pc, start) {
        assert(s@.skip(start as int) =~= s@.subrange(start as int, start + pc@.len()));
        Some(slice(s, 0, start))
    } else {
        assert(s@.skip(start as int) =~= s@.subrange(start as int, start + pc@.len()));
        None
    }
}

/// The package a test binary belongs to: its name without the hash after
/// the last `-`, with `_` read as `-`.
pub open spec fn package_spec(binary: Seq<char>) -> Seq<char> {
    let name = match last_occurrence(binary, "-"@) {
        Some(i) => binary.take(i),
        None => binary,
    };
    name.map_values(|c: char| if c == '_' { '-' } else { c })
}

/// The package a test binary belongs to.
pub fn package_from_binary(binary: &Vec<char>) -> (r: Vec<char>)
    ensures
        r@ == package_spec(binary@),
{
    let name = match rsplit_once(binary, &chars_of("-")) {
        Some((a, _)) => a,
        None => slice(binary, 0, binary.len()),
    };
    let mut out: Vec<char> = Vec::new();
    let mut i: usize = 0;
    while i < name.len()
        invariant
            i <= name.len(),
            out@ == name@.take(i as int).map_values(|c: char| if c == '_' { '-' } else { c }),
        decreases name.len() - i,
    {
        let c = name[i];
        out.push(if c == '_' { '-' } else { c });
        assert(name@.take(i + 1).map_values(|c: char| if c == '_' { '-' } else { c }) =~= name@.take(i as int).map_values(
            |c: char| if c == '_' { '-' } else { c },
        ).push(if c == '_' { '-' } else { c }));
        i = i + 1;
    }
    assert(name@.take(name@.len() as int) =~= name@);
    out
}

/// What follows the last `/` of `path`, or all of it.
pub open spec fn after_last_slash(path: Seq<char>) -> Seq<char> {
    match last_occurrence(path, "/"@) {
        Some(i) => path.skip(i + 1),
        None => path,
    }
}

/// The name of a test binary's suite, from what follows `Running ...`: the
/// binary's package where a binary path follows, else the rest itself.
pub open spec fn binary_suite_name(rest: Seq<char>) -> Seq<char> {
    match split_once_spec(rest, "(target/"@) {
        Some((_, path)) => match strip_suffix_spec(after_last_slash(path), ")"@) {
            Some(binary) => package_spec(binary),
            None => trim_spec(rest),
        },
        None => trim_spec(rest),
    }
}

/// The text after a suite header's leading words, if the line is a header.
pub open spec fn header_rest(t: Seq<char>) -> Option<Seq<char>> {
    match strip_prefix_spec(t, "Running unittests "@) {
        Some(r) => Some(r),
        None => match strip_prefix_spec(t, "Running tests/"@) {
            Some(r) => Some(r),
            None => strip_prefix_spec(t, "Doc-tests "@),
        },
    }
}

/// The suite that a `cargo test` line opens, if it opens one: a doc-test
/// suite is named `doc:` and its crate; a test binary by its package, or
/// by the rest of the line where no binary path follows.
pub open spec fn suite_name_spec(line: Seq<char>) -> Option<Seq<char>> {
    let t = trim_start_spec(line);
    match header_rest(t) {
        None => None,
        Some(rest) => if has_prefix(t, "Doc-tests "@) {
            Some("doc:"@ + trim_spec(rest))
        } else {
            Some(binary_suite_name(rest))
        },
    }
}

fn binary_suite_name_x(rest: &Vec<char>) -> (r: Vec<char>)
    ensures
        r@ == binary_suite_name(rest@),
{
    match split_once(rest, &chars_of("(target/")) {
        Some((_, path)) => {
            let binary_with_paren = match rsplit_once(&path, &chars_of("/")) {
                Some((_, b)) => b,
                None => slice(&path, 0, path.len()),
            };
            proof {
                reveal_strlit("/");
            }
            assert(binary_with_paren@ == after_last_slash(path@));
            match strip_suffix(&binary_with_paren, ")") {
                Some(binary) => package_from_binary(&binary),
                None => trim(rest),
            }
        },
        None => trim(rest),
    }
}

fn header_rest_x(t: &Vec<char>) -> (r: Option<Vec<char>>)
    ensures
        match (r, header_rest(t@)) {
            (Some(a), Some(b)) => a@ == b,
            (None, None) => true,
            _ => false,
        },
{
    match strip_prefix(t, "Running unittests ") {
        Some(r) => Some(r),
        None => match strip_prefix(t, "Running tests/") {
            Some(r) => Some(r),
            None => strip_prefix(t, "Doc-tests "),
        },
    }
}

/// The suite that a `cargo test` line opens, if it opens one.
pub fn parse_suite_name(line: &Vec<char>) -> (r: Option<Vec<char>>)
    ensures
        match (r, suite_name_spec(line@)) {
            (Some(a), Some(b)) => a@ == b,
            (None, None) => true,
            _ => false,
        },
{
    let t = trim_start(line);
    let rest = match header_rest_x(&t) {
        Some(r) => r,
        None => return None,
    };
    if starts_with(&t, &chars_of("Doc-tests ")) {
        let mut out = chars_of("doc:");
        let tr = trim(&rest);
        crate::text::push_chars(&mut out, &tr);
        return Some(out);
    }
    Some(binary_suite_name_x(&rest))
}

/// The name and outcome of a test case that a line reports, if it reports
/// one: `test <name> ... <outcome>`, split at the last ` ... `.
pub open spec fn test_case_spec(line: Seq<char>) -> Option<(Seq<char>, Seq<char>)> {
    match strip_prefix_spec(trim_start_spec(line), "test "@) {
        Some(rest) => rsplit_once_spec(rest, " ... "@),
        None => None,
    }
}

/// The test case that a line reports, if it reports one.
pub fn parse_test_case(line: &Vec<char>) -> (r: Option<(Vec<char>, Vec<char>)>)
    ensures
        match (r, test_case_spec(line@)) {
            (Some((a, b)), Some((sa, sb))) => a@ == sa && b@ == sb,
            (None, None) => true,
            _ => false,
        },
{
    let t = trim_start(line);
    match strip_prefix(&t, "test ") {
        Some(rest) => rsplit_once(&rest, &chars_of(" ... ")),
        None => None,
    }
}

/// The count in the first part of a summary, among `parts`, that ends with
/// `label`: `None` when no part does, `Some(None)` when the count there is
/// not a number.
pub open spec fn first_count(parts: Seq<Seq<char>>, label: Seq<char>) -> Option<Option<u64>>
    decreases parts.len(),
{
    if parts.len() == 0 {
        None
    } else {
        let t = trim_spec(parts[0]);
        match strip_suffix_spec(t, label) {
            Some(n) => Some(parse_u64_spec(trim_spec(n))),
            None => first_count(parts.drop_first(), label),
        }
    }
}

/// The count that a summary gives for `label`, as in `3 passed`.
pub open spec fn count_spec(summary: Seq<char>, label: Seq<char>) -> Option<u64> {
    match first_count(parts_of(summary, ';'), label) {
        Some(r) => r,
        None => None,
    }
}

/// The count that a summary gives for `label`.
pub fn parse_count(summary: &Vec<char>, label: &str) -> (r: Option<u64>)
    ensures
        r == count_spec(summary@, label@),
{
    let parts = split_parts(summary, ';');
    let ghost ps = texts(parts@);
    assert(ps.skip(0) =~= ps);
    let mut i: usize = 0;
    while i < parts.len()
        invariant
            i <= parts.len(),
            ps == texts(parts@),
            ps == parts_of(summary@, ';'),
            first_count(ps, label@) == first_count(ps.skip(i as int), label@),
        decreases parts.len() - i,
    {
        let t = trim(&parts[i]);
        assert(ps.skip(i as int)[0] == parts@[i as int]@);
        assert(t@ == trim_spec(ps.skip(i as int)[0]));
        match strip_suffix(&t, label) {
            Some(n) => {
                let digits = trim(&n);
                let r = parse_u64(&digits);
                assert(first_count(ps.skip(i as int), label@) == Some(r));
                assert(first_count(parts_of(summary@, ';'), label@) == Some(r));
                assert(count_spec(summary@, label@) == r);
                return r;
            },
            None => {
                assert(ps.skip(i as int).drop_first() =~= ps.skip(i + 1));
            },
        }
        i = i + 1;
    }
    assert(ps.skip(i as int).len() == 0);
    None
}

/// The counts and time of a finished suite.
pub struct SuiteSummary {
    pub passed: u64,
    pub failed: u64,
    pub ignored: u64,
    pub measured: u64,
    pub filtered: u64,
    pub duration: String,
}

/// `SuiteSummary` with its text as characters.
pub struct SuiteSummaryView {
    pub passed: u64,
    pub failed: u64,
    pub ignored: u64,
    pub measured: u64,
    pub filtered: u64,
    pub duration: Seq<char>,
}

impl View for SuiteSummary {
    type V = SuiteSummaryView;

    open spec fn view(&self) -> SuiteSummaryView {
        SuiteSummaryView {
            passed: self.passed,
            failed: self.failed,
            ignored: self.ignored,
            measured: self.measured,
            filtered: self.filtered,
            duration: self.duration@,
        }
    }
}

/// The summary of a suite that a line gives, if it gives one:
/// `test result: <status>. <n> passed; <n> failed; ...; finished in <time>`,
/// where every count must be there and the time may not.
pub open spec fn summary_spec(line: Seq<char>) -> Option<SuiteSummaryView> {
    match strip_prefix_spec(trim_start_spec(line), "test result: "@) {
        None => None,
        Some(rest0) => match split_once_spec(rest0, ". "@) {
            None => None,
            Some((_, rest)) => match (
                count_spec(rest, "passed"@),
                count_spec(rest, "failed"@),
                count_spec(rest, "ignored"@),
                count_spec(rest, "measured"@),
                count_spec(rest, "filtered out"@),
            ) {
                (Some(p), Some(f), Some(i), Some(m), Some(fo)) => Some(SuiteSummaryView {
                    passed: p,
                    failed: f,
                    ignored: i,
                    measured: m,
                    filtered: fo,
                    duration: match rsplit_once_spec(rest, "finished in "@) {
                        Some((_, d)) => d,
                        None => "-"@,
                    },
                }),
                _ => None,
            },
        },
    }
}

/// The summary of a suite that a line gives, if it gives one.
pub fn parse_suite_summary(line: &Vec<char>) -> (r: Option<SuiteSummary>)
    ensures
        match (r, summary_spec(line@)) {
            (Some(a), Some(b)) => a@ == b,
            (None, None) => true,
            _ => false,
        },
{
    let t = trim_start(line);
    let rest0 = match strip_prefix(&t, "test result: ") {
        Some(r) => r,
        None => return None,
    };
    let rest = match split_once(&rest0, &chars_of(". ")) {
        Some((_, r)) => r,
        None => return None,
    };
    let passed = match parse_count(&rest, "passed") {
        Some(n) => n,
        None => return None,
    };
    let failed = match parse_count(&rest, "failed") {
        Some(n) => n,
        None => return None,
    };
    let ignored = match parse_count(&rest, "ignored") {
        Some(n) => n,
        None => return None,
    };
    let measured = match parse_count(&rest, "measured") {
        Some(n) => n,
        None => return None,
    };
    let filtered = match parse_count(&rest, "filtered out") {
        Some(n) => n,
        None => return None,
    };
    let duration = match rsplit_once(&rest, &chars_of("finished in ")) {
        Some((_, d)) => string_of(&d),
        None => "-".to_string(),
    };
    Some(SuiteSummary { passed, failed, ignored, measured, filtered, duration })
}

/// A suite of tests that `cargo test` ran.
pub struct Suite {
    pub name: String,
    pub passed: u64,
    pub failed: u64,
    pub ignored: u64,
    pub measured: u64,
    pub filtered: u64,
    pub duration: String,
}

/// `Suite` with its text as characters.
pub struct SuiteView {
    pub name: Seq<char>,
    pub passed: u64,
    pub failed: u64,
    pub ignored: u64,
    pub measured: u64,
    pub filtered: u64,
    pub duration: Seq<char>,
}

impl View for Suite {
    type V = SuiteView;

    open spec fn view(&self) -> SuiteView {
        SuiteView {
            name: self.name@,
            passed: self.passed,
            failed: self.failed,
            ignored: self.ignored,
            measured: self.measured,
            filtered: self.filtered,
            duration: self.duration@,
        }
    }
}

/// A test case and its outcome.
pub struct TestCase {
    pub suite: String,
    pub name: String,
    pub status: String,
}

/// `TestCase` with its text as characters.
pub struct TestCaseView {
    pub suite: Seq<char>,
    pub name: Seq<char>,
    pub status: Seq<char>,
}

impl View for TestCase {
    type V = TestCaseView;

    open spec fn view(&self) -> TestCaseView {
        TestCaseView { suite: self.suite@, name: self.name@, status: self.status@ }
    }
}

/// The suites and test cases of a test run.
pub struct Report {
    pub suites: Vec<Suite>,
    pub tests: Vec<TestCase>,
}

/// `Report` as sequences of views.
pub struct ReportView {
    pub suites: Seq<SuiteView>,
    pub tests: Seq<TestCaseView>,
}

impl View for Report {
    type V = ReportView;

    open spec fn view(&self) -> ReportView {
        ReportView {
            suites: self.suites@.map_values(|x: Suite| x@),
            tests: self.tests@.map_values(|x: TestCase| x@),
        }
    }
}

/// A suite just opened, with no counts yet.
pub open spec fn opened_suite(name: Seq<char>) -> SuiteView {
    SuiteView { name, passed: 0, failed: 0, ignored: 0, measured: 0, filtered: 0, duration: seq![] }
}

/// One line of `cargo test` output read into the report, with the name
/// of the suite under way: a header opens a suite, a test line adds a case
/// to the suite under way (or to `unknown`), a summary line fills in the
/// last suite opened.
pub open spec fn report_step(acc: (ReportView, Option<Seq<char>>), line: Seq<char>) -> (ReportView, Option<Seq<char>>) {
    match suite_name_spec(line) {
        Some(name) => (ReportView { suites: acc.0.suites.push(opened_suite(name)), tests: acc.0.tests }, Some(name)),
        None => match test_case_spec(line) {
            Some((n, st)) => (
                ReportView {
                    suites: acc.0.suites,
                    tests: acc.0.tests.push(TestCaseView {
                        suite: match acc.1 {
                            Some(s) => s,
                            None => "unknown"@,
                        },
                        name: n,
                        status: st,
                    }),
                },
                acc.1,
            ),
            None => match summary_spec(line) {
                Some(sm) => if acc.0.suites.len() > 0 {
                    let last = acc.0.suites.len() - 1;
                    (
                        ReportView {
                            suites: acc.0.suites.update(last, SuiteView {
                                name: acc.0.suites[last].name,
                                passed: sm.passed,
                                failed: sm.failed,
                                ignored: sm.ignored,
                                measured: sm.measured,
                                filtered: sm.filtered,
                                duration: sm.duration,
                            }),
                            tests: acc.0.tests,
                        },
                        acc.1,
                    )
                } else {
                    acc
                },
                None => acc,
            },
        },
    }
}

/// The report after the first `k` lines.
pub open spec fn report_prefix(lines: Seq<Seq<char>>, k: nat) -> (ReportView, Option<Seq<char>>)
    decreases k,
{
    if k == 0 || k > lines.len() {
        (ReportView { suites: seq![], tests: seq![] }, None)
    } else {
        report_step(report_prefix(lines, (k - 1) as nat), lines[k - 1])
    }
}

/// The report of a whole `cargo test` output.
pub open spec fn report_of(output: Seq<char>) -> ReportView {
    report_prefix(lines_of(output), lines_of(output).len()).0
}

/// Optional characters as a sequence.
pub open spec fn opt_seq(o: Option<Vec<char>>) -> Option<Seq<char>> {
    match o {
        Some(c) => Some(c@),
        None => None,
    }
}

fn read_line(report: &mut Report, current: &mut Option<Vec<char>>, line: &Vec<char>)
    ensures
        ({
            let before = (old(report)@, opt_seq(*old(current)));
            let after = (final(report)@, opt_seq(*final(current)));
            after == report_step(before, line@)
        }),
{
    let ghost before = (report@, opt_seq(*current));
    if let Some(name) = parse_suite_name(line) {
        let ghost suites0 = report@.suites;
        let copy = slice(&name, 0, name.len());
        report.suites.push(Suite {
            name: string_of(&name),
            passed: 0,
            failed: 0,
            ignored: 0,
            measured: 0,
            filtered: 0,
            duration: String::new(),
        });
        assert(report@.suites =~= suites0.push(opened_suite(name@)));
        *current = Some(copy);
        return;
    }
    if let Some((n, st)) = parse_test_case(line) {
        let ghost tests0 = report@.tests;
        let suite = match current {
            Some(c) => string_of(c),
            None => "unknown".to_string(),
        };
        report.tests.push(TestCase { suite, name: string_of(&n), status: string_of(&st) });
        assert(report@.tests =~= tests0.push(TestCaseView {
            suite: match before.1 {
                Some(s) => s,
                None => "unknown"@,
            },
            name: n@,
            status: st@,
        }));
        return;
    }
    if let Some(sm) = parse_suite_summary(line) {
        let n = report.suites.len();
        if n > 0 {
            let ghost suites0 = report@.suites;
            let name = report.suites[n - 1].name.clone();
            report.suites.set(n - 1, Suite {
                name,
                passed: sm.passed,
                failed: sm.failed,
                ignored: sm.ignored,
                measured: sm.measured,
                filtered: sm.filtered,
                duration: sm.duration,
            });
            assert(report@.suites =~= suites0.update(n - 1, SuiteView {
                name: suites0[n - 1].name,
                passed: sm@.passed,
                failed: sm@.failed,
                ignored: sm@.ignored,
                measured: sm@.measured,
                filtered: sm@.filtered,
                duration: sm@.duration,
            }));
        }
    }
}

/// Reads the output of `cargo test` into its suites and test cases.
pub fn parse_report(output: &str) -> (r: Report)
    ensures
        r@ == report_of(output@),
{
    let cs = chars_of(output);
    let lines = split_lines(&cs);
    let ghost ls = texts(lines@);
    let mut report = Report { suites: Vec::new(), tests: Vec::new() };
    let mut current: Option<Vec<char>> = None;
    assert(report@.suites =~= Seq::<SuiteView>::empty());
    assert(report@.tests =~= Seq::<TestCaseView>::empty());
    let mut k: usize = 0;
    while k < lines.len()
        invariant
            k <= lines.len(),
            ls == texts(lines@),
            ls == lines_of(output@),
            (report@, opt_seq(current)) == report_prefix(ls, k as nat),
        decreases lines.len() - k,
    {
        read_line(&mut report, &mut current, &lines[k]);
        assert(ls[k as int] == lines@[k as int]@);
        k = k + 1;
    }
    report
}

/// The width of a table cell: its length in UTF-8 bytes.
pub open spec fn cell_width(c: Seq<char>) -> nat {
    vstd::utf8::encode_utf8(c).len()
}

/// A table of text cells under headers.
pub struct Table {
    pub headers: Vec<String>,
    pub rows: Vec<Vec<String>>,
}

/// `Table` with its cells as characters.
pub struct TableView {
    pub headers: Seq<Seq<char>>,
    pub rows: Seq<Seq<Seq<char>>>,
}

/// A list of strings as sequences.
pub open spec fn strings_view(v: Seq<String>) -> Seq<Seq<char>> {
    v.map_values(|x: String| x@)
}

/// Table rows as sequences.
pub open spec fn rows_view(rows: Seq<Vec<String>>) -> Seq<Seq<Seq<char>>> {
    rows.map_values(|r: Vec<String>| strings_view(r@))
}

impl View for Table {
    type V = TableView;

    open spec fn view(&self) -> TableView {
        TableView {
            headers: strings_view(self.headers@),
            rows: rows_view(self.rows@),
        }
    }
}

/// No row has more cells than there are headers.
pub open spec fn rows_fit(t: TableView) -> bool {
    forall|r: int| 0 <= r < t.rows.len() ==> #[trigger] t.rows[r].len() <= t.headers.len()
}

/// The width of column `i` over the header and the first `n` rows: the
/// widest of its cells.
pub open spec fn col_width(t: TableView, i: int, n: nat) -> nat
    decreases n,
{
    if n == 0 || n > t.rows.len() {
        cell_width(t.headers[i])
    } else {
        let w = col_width(t, i, (n - 1) as nat);
        let row = t.rows[n - 1];
        if i < row.len() && cell_width(row[i]) > w { cell_width(row[i]) } else { w }
    }
}

/// The width of each column.
pub open spec fn widths_spec(t: TableView) -> Seq<nat> {
    Seq::new(t.headers.len(), |i: int| col_width(t, i, t.rows.len()))
}

/// The sum of the widths.
pub open spec fn sum_widths(ws: Seq<nat>) -> nat
    decreases ws.len(),
{
    if ws.len() == 0 { 0 } else { sum_widths(ws.drop_last()) + ws.last() }
}

/// The length of a border line of columns this wide, line feed aside.
pub open spec fn table_width(ws: Seq<nat>) -> nat {
    sum_widths(ws) + ws.len() * 3 + 1
}

/// The widths with the last column widened so that the table is at least
/// `target` wide.
pub open spec fn padded_widths(ws: Seq<nat>, target: nat) -> Seq<nat> {
    if ws.len() == 0 {
        ws
    } else {
        let extra: nat = if target > table_width(ws) { (target - table_width(ws)) as nat } else { 0 };
        ws.update(ws.len() - 1, ws.last() + extra)
    }
}

/// `n` copies of `c`.
pub open spec fn repeat(c: char, n: nat) -> Seq<char> {
    Seq::new(n, |i: int| c)
}

/// The cells of a border line for the first `n` columns.
pub open spec fn border_cells(ws: Seq<nat>, n: nat) -> Seq<char>
    decreases n,
{
    if n == 0 || n > ws.len() {
        seq![]
    } else {
        border_cells(ws, (n - 1) as nat) + repeat('-', ws[n - 1] + 2) + "+"@
    }
}

/// A border line: `+`, then for each column dashes two wider than it and
/// `+`.
pub open spec fn border_line(ws: Seq<nat>) -> Seq<char> {
    "+"@ + border_cells(ws, ws.len()) + "\n"@
}

/// A cell padded with spaces to `w` characters.
pub open spec fn padded_cell(c: Seq<char>, w: nat) -> Seq<char> {
    if c.len() < w { c + repeat(' ', (w - c.len()) as nat) } else { c }
}

/// The cells of a row line for the first `n` columns.
pub open spec fn row_cells(ws: Seq<nat>, row: Seq<Seq<char>>, n: nat) -> Seq<char>
    decreases n,
{
    if n == 0 || n > ws.len() || n > row.len() {
        seq![]
    } else {
        row_cells(ws, row, (n - 1) as nat) + " "@ + padded_cell(row[n - 1], ws[n - 1]) + " |"@
    }
}

/// A row line: `|`, then each cell padded to its column and ` |`.
pub open spec fn row_line(ws: Seq<nat>, row: Seq<Seq<char>>) -> Seq<char> {
    "|"@ + row_cells(ws, row, if ws.len() < row.len() { ws.len() } else { row.len() }) + "\n"@
}

/// The lines of the first `n` rows.
pub open spec fn body_lines(ws: Seq<nat>, rows: Seq<Seq<Seq<char>>>, n: nat) -> Seq<char>
    decreases n,
{
    if n == 0 || n > rows.len() {
        seq![]
    } else {
        body_lines(ws, rows, (n - 1) as nat) + row_line(ws, rows[n - 1])
    }
}

/// A table drawn at least `target` wide: a border, the headers, a border,
/// the rows and a border.
pub open spec fn table_text(t: TableView, target: nat) -> Seq<char> {
    let ws = padded_widths(widths_spec(t), target);
    border_line(ws) + row_line(ws, t.headers) + border_line(ws) + body_lines(ws, t.rows, t.rows.len()) + border_line(ws)
}

/// Every border line is as long as the table is wide; where the table is
/// drawn at a target at least its own width, it is the target.
pub proof fn borders_have_the_table_width(ws: Seq<nat>, target: nat)
    requires
        ws.len() > 0,
    ensures
        border_line(padded_widths(ws, target)).len() == table_width(padded_widths(ws, target)) + 1,
        target >= table_width(ws) ==> table_width(padded_widths(ws, target)) == target,
        target < table_width(ws) ==> table_width(padded_widths(ws, target)) == table_width(ws),
{
    reveal_strlit("+");
    reveal_strlit("\n");
    let p = padded_widths(ws, target);
    lemma_border_len(p, ws.len());
    assert(p.take(p.len() as int) =~= p);
    lemma_sum_update(ws, if target > table_width(ws) { (target - table_width(ws)) as nat } else { 0 });
}

proof fn lemma_border_len(ws: Seq<nat>, n: nat)
    requires
        n <= ws.len(),
    ensures
        border_cells(ws, n).len() == sum_widths(ws.take(n as int)) + 3 * n,
    decreases n,
{
    reveal_strlit("+");
    if n > 0 {
        lemma_border_len(ws, (n - 1) as nat);
        assert(ws.take(n as int).drop_last() =~= ws.take(n - 1));
    }
    assert(ws.take(0) =~= Seq::<nat>::empty());
}

proof fn lemma_sum_update(ws: Seq<nat>, extra: nat)
    requires
        ws.len() > 0,
    ensures
        sum_widths(ws.update(ws.len() - 1, ws.last() + extra)) == sum_widths(ws) + extra,
        ws.take(ws.len() as int) == ws,
{
    let u = ws.update(ws.len() - 1, ws.last() + extra);
    assert(u.drop_last() =~= ws.drop_last());
    assert(ws.take(ws.len() as int) =~= ws);
}

/// Widths as natural numbers.
pub open spec fn nat_view(v: Seq<usize>) -> Seq<nat> {
    v.map_values(|w: usize| w as nat)
}

proof fn lemma_col_width_grows(t: TableView, i: int, n: nat, m: nat)
    requires
        n <= m <= t.rows.len(),
    ensures
        col_width(t, i, n) <= col_width(t, i, m),
    decreases m,
{
    if n < m {
        lemma_col_width_grows(t, i, n, (m - 1) as nat);
    }
}

proof fn lemma_sum_bounds(ws: Seq<nat>, i: int)
    requires
        0 <= i < ws.len(),
    ensures
        ws[i] <= sum_widths(ws),
    decreases ws.len(),
{
    if i < ws.len() - 1 {
        lemma_sum_bounds(ws.drop_last(), i);
    }
}

/// The byte width of a cell.
fn cell_bytes(s: &String) -> (r: usize)
    requires
        cell_width(s@) <= usize::MAX,
    ensures
        r == cell_width(s@),
{
    s.as_str().len()
}

impl Table {
    /// The width of each column: the widest of its cells, in bytes.
    pub fn widths(&self) -> (r: Vec<usize>)
        requires
            rows_fit(self@),
            table_width(widths_spec(self@)) <= usize::MAX,
        ensures
            nat_view(r@) == widths_spec(self@),
    {
        let ghost t = self@;
        proof {
            assert forall|i: int| 0 <= i < t.headers.len() implies widths_spec(t)[i] <= usize::MAX by {
                lemma_sum_bounds(widths_spec(t), i);
            }
        }
        let mut widths: Vec<usize> = Vec::new();
        let mut i: usize = 0;
        while i < self.headers.len()
            invariant
                t == self@,
                i <= self.headers.len(),
                forall|j: int| 0 <= j < t.headers.len() ==> widths_spec(t)[j] <= usize::MAX,
                nat_view(widths@) == Seq::new(i as nat, |j: int| col_width(t, j, 0)),
            decreases self.headers.len() - i,
        {
            proof {
                lemma_col_width_grows(t, i as int, 0, t.rows.len());
            }
            assert(self.headers@[i as int]@ == t.headers[i as int]);
            assert(widths_spec(t)[i as int] == col_width(t, i as int, t.rows.len()));
            assert(col_width(t, i as int, 0) == cell_width(t.headers[i as int]));
            let w = cell_bytes(&self.headers[i]);
            let ghost before = widths@;
            widths.push(w);
            assert(nat_view(widths@) =~= nat_view(before).push(w as nat));
            assert(nat_view(widths@) =~= Seq::new((i + 1) as nat, |j: int| col_width(t, j, 0)));
            i = i + 1;
        }
        let mut r: usize = 0;
        while r < self.rows.len()
            invariant
                t == self@,
                r <= self.rows.len(),
                rows_fit(t),
                widths@.len() == t.headers.len(),
                forall|j: int| 0 <= j < t.headers.len() ==> widths_spec(t)[j] <= usize::MAX,
                nat_view(widths@) == Seq::new(t.headers.len(), |j: int| col_width(t, j, r as nat)),
            decreases self.rows.len() - r,
        {
            let row = &self.rows[r];
            assert(t.rows[r as int] == strings_view(row@));
            assert(t.rows[r as int].len() <= t.headers.len());
            assert forall|j: int| 0 <= j < t.headers.len() implies widths@[j] as nat == col_width(t, j, r as nat) by {
                assert(nat_view(widths@)[j] == widths@[j] as nat);
            }
            let mut c: usize = 0;
            while c < row.len()
                invariant
                    t == self@,
                    r < self.rows.len(),
                    row == &self.rows@[r as int],
                    t.rows[r as int] == strings_view(row@),
                    row@.len() <= t.headers.len(),
                    c <= row.len(),
                    widths@.len() == t.headers.len(),
                    forall|j: int| 0 <= j < t.headers.len() ==> widths_spec(t)[j] <= usize::MAX,
                    forall|j: int| 0 <= j < c ==> widths@[j] as nat == col_width(t, j, (r + 1) as nat),
                    forall|j: int| c <= j < t.headers.len() ==> widths@[j] as nat == col_width(t, j, r as nat),
                decreases row.len() - c,
            {
                proof {
                    lemma_col_width_grows(t, c as int, (r + 1) as nat, t.rows.len());
                }
                assert(row@[c as int]@ == t.rows[r as int][c as int]);
                assert(widths_spec(t)[c as int] == col_width(t, c as int, t.rows.len()));
                assert(cell_width(t.rows[r as int][c as int]) <= col_width(t, c as int, (r + 1) as nat));
                let w = cell_bytes(&row[c]);
                let cur = widths[c];
                if w > cur {
                    widths.set(c, w);
                }
                c = c + 1;
            }
            assert forall|j: int| 0 <= j < t.headers.len() implies widths@[j] as nat == col_width(t, j, (r + 1) as nat) by {
                if j >= row@.len() {
                    assert(col_width(t, j, (r + 1) as nat) == col_width(t, j, r as nat));
                }
            }
            assert(nat_view(widths@) =~= Seq::new(t.headers.len(), |j: int| col_width(t, j, (r + 1) as nat)));
            r = r + 1;
        }
        assert(nat_view(widths@) =~= widths_spec(t));
        widths
    }
}

/// The sum of widths, three per column and one more.
fn table_width_x(ws: &Vec<usize>) -> (r: usize)
    requires
        table_width(nat_view(ws@)) <= usize::MAX,
    ensures
        r == table_width(nat_view(ws@)),
{
    let ghost v = nat_view(ws@);
    let mut sum: usize = 0;
    let mut i: usize = 0;
    while i < ws.len()
        invariant
            v == nat_view(ws@),
            i <= ws.len(),
            table_width(v) <= usize::MAX,
            sum == sum_widths(v.take(i as int)),
        decreases ws.len() - i,
    {
        assert(v.take(i + 1).drop_last() =~= v.take(i as int));
        proof {
            lemma_sum_prefix(v, (i + 1) as nat);
        }
        sum = sum + ws[i];
        i = i + 1;
    }
    assert(v.take(i as int) =~= v);
    sum + ws.len() * 3 + 1
}

proof fn lemma_sum_prefix(v: Seq<nat>, n: nat)
    requires
        n <= v.len(),
    ensures
        sum_widths(v.take(n as int)) <= sum_widths(v),
    decreases v.len(),
{
    if n < v.len() {
        assert(v.drop_last().take(n as int) =~= v.take(n as int));
        lemma_sum_prefix(v.drop_last(), n);
    } else {
        assert(v.take(n as int) =~= v);
    }
}

/// Widens the last column so that the table is at least `target` wide.
fn padded_widths_x(ws: Vec<usize>, target: usize) -> (r: Vec<usize>)
    requires
        table_width(nat_view(ws@)) <= usize::MAX,
    ensures
        nat_view(r@) == padded_widths(nat_view(ws@), target as nat),
        table_width(nat_view(r@)) <= usize::MAX,
{
    let mut ws = ws;
    let ghost v = nat_view(ws@);
    let width = table_width_x(&ws);
    let n = ws.len();
    if n > 0 {
        proof {
            lemma_sum_update(v, if target > width { (target - width) as nat } else { 0 });
            lemma_sum_bounds(v, n - 1);
        }
        let extra = target.saturating_sub(width);
        let last = ws[n - 1];
        ws.set(n - 1, last + extra);
        assert(nat_view(ws@) =~= padded_widths(v, target as nat));
    } else {
        assert(nat_view(ws@) =~= v);
    }
    ws
}

fn push_repeat(out: &mut Vec<char>, c: char, n: usize)
    ensures
        final(out)@ == old(out)@ + repeat(c, n as nat),
{
    let ghost start = out@;
    let mut i: usize = 0;
    while i < n
        invariant
            i <= n,
            out@ == start + repeat(c, i as nat),
        decreases n - i,
    {
        out.push(c);
        assert(start + repeat(c, (i + 1) as nat) =~= (start + repeat(c, i as nat)).push(c));
        i = i + 1;
    }
}

/// Appends a border line for columns this wide.
fn render_border(out: &mut Vec<char>, widths: &Vec<usize>)
    requires
        table_width(nat_view(widths@)) <= usize::MAX,
    ensures
        final(out)@ == old(out)@ + border_line(nat_view(widths@)),
{
    let ghost v = nat_view(widths@);
    let ghost start = out@;
    out.push('+');
    proof {
        reveal_strlit("+");
    }
    assert(out@ =~= start + "+"@ + border_cells(v, 0));
    let mut i: usize = 0;
    while i < widths.len()
        invariant
            v == nat_view(widths@),
            i <= widths.len(),
            table_width(v) <= usize::MAX,
            out@ == start + "+"@ + border_cells(v, i as nat),
        decreases widths.len() - i,
    {
        proof {
            lemma_sum_bounds(v, i as int);
            reveal_strlit("+");
        }
        push_repeat(out, '-', widths[i] + 2);
        out.push('+');
        assert(out@ =~= start + "+"@ + border_cells(v, (i + 1) as nat));
        i = i + 1;
    }
    out.push('\n');
    proof {
        reveal_strlit("+");
        reveal_strlit("\n");
    }
    assert(out@ =~= start + border_line(v));
}

/// Appends a row line, each cell padded to its column.
fn render_row(out: &mut Vec<char>, widths: &Vec<usize>, row: &Vec<String>)
    ensures
        final(out)@ == old(out)@ + row_line(nat_view(widths@), strings_view(row@)),
{
    let ghost v = nat_view(widths@);
    let ghost cells = strings_view(row@);
    let ghost start = out@;
    let n = if widths.len() < row.len() { widths.len() } else { row.len() };
    out.push('|');
    proof {
        reveal_strlit("|");
    }
    assert(out@ =~= start + "|"@ + row_cells(v, cells, 0));
    let mut i: usize = 0;
    while i < n
        invariant
            v == nat_view(widths@),
            cells == strings_view(row@),
            n <= widths.len(),
            n <= row.len(),
            i <= n,
            out@ == start + "|"@ + row_cells(v, cells, i as nat),
        decreases n - i,
    {
        proof {
            reveal_strlit("|");
            reveal_strlit(" ");
            reveal_strlit(" |");
        }
        out.push(' ');
        let cell = chars_of(row[i].as_str());
        assert(cell@ == cells[i as int]);
        crate::text::push_chars(out, &cell);
        if cell.len() < widths[i] {
            push_repeat(out, ' ', widths[i] - cell.len());
        }
        out.push(' ');
        out.push('|');
        assert(out@ =~= start + "|"@ + row_cells(v, cells, (i + 1) as nat));
        i = i + 1;
    }
    out.push('\n');
    proof {
        reveal_strlit("|");
        reveal_strlit("\n");
    }
    assert(out@ =~= start + row_line(v, cells));
}

/// Draws a table at least `target` wide.
fn render_table(table: &Table, target: usize) -> (r: Vec<char>)
    requires
        rows_fit(table@),
        table_width(widths_spec(table@)) <= usize::MAX,
        target <= usize::MAX,
        widths_spec(table@).len() > 0,
        target >= table_width(widths_spec(table@)),
    ensures
        r@ == table_text(table@, target as nat),
{
    let ghost t = table@;
    let widths = padded_widths_x(table.widths(), target);
    let ghost ws = nat_view(widths@);
    let mut out: Vec<char> = Vec::new();
    render_border(&mut out, &widths);
    render_row(&mut out, &widths, &table.headers);
    render_border(&mut out, &widths);
    let ghost head = out@;
    let mut k: usize = 0;
    while k < table.rows.len()
        invariant
            t == table@,
            ws == nat_view(widths@),
            k <= table.rows.len(),
            out@ == head + body_lines(ws, t.rows, k as nat),
        decreases table.rows.len() - k,
    {
        render_row(&mut out, &widths, &table.rows[k]);
        assert(t.rows[k as int] == strings_view(table.rows@[k as int]@));
        assert(out@ =~= head + body_lines(ws, t.rows, (k + 1) as nat));
        k = k + 1;
    }
    render_border(&mut out, &widths);
    assert(out@ =~= table_text(t, target as nat));
    out
}

/// A suite's status: `ok` when no test failed.
pub open spec fn suite_status_spec(s: SuiteView) -> Seq<char> {
    if s.failed == 0 { "ok"@ } else { "failed"@ }
}

/// The row of a suite in the suite table.
pub open spec fn suite_row(s: SuiteView) -> Seq<Seq<char>> {
    seq![s.name, decimal(s.passed as nat), decimal(s.failed as nat), decimal(s.ignored as nat), decimal(s.filtered as nat), s.duration, suite_status_spec(s)]
}

/// The rows of the suite table.
pub open spec fn suite_rows(ss: Seq<SuiteView>) -> Seq<Seq<Seq<char>>> {
    ss.map_values(|s: SuiteView| suite_row(s))
}

/// The table of suites.
pub open spec fn suite_table_spec(r: ReportView) -> TableView {
    TableView {
        headers: seq!["suite"@, "passed"@, "failed"@, "ignored"@, "filtered"@, "time"@, "status"@],
        rows: suite_rows(r.suites),
    }
}

/// The row of a test case in the case table.
pub open spec fn test_row(t: TestCaseView) -> Seq<Seq<char>> {
    seq![t.suite, t.status, t.name]
}

/// The rows of the case table.
pub open spec fn test_rows(ts: Seq<TestCaseView>) -> Seq<Seq<Seq<char>>> {
    ts.map_values(|t: TestCaseView| test_row(t))
}

/// The table of test cases.
pub open spec fn test_table_spec(r: ReportView) -> TableView {
    TableView { headers: seq!["suite"@, "status"@, "test"@], rows: test_rows(r.tests) }
}

/// Passed, failed and ignored tests over all suites.
pub open spec fn totals(ss: Seq<SuiteView>) -> (nat, nat, nat)
    decreases ss.len(),
{
    if ss.len() == 0 {
        (0, 0, 0)
    } else {
        let t = totals(ss.drop_last());
        (t.0 + ss.last().passed as nat, t.1 + ss.last().failed as nat, t.2 + ss.last().ignored as nat)
    }
}

/// The width both tables are drawn at: that of the wider one.
pub open spec fn report_width(r: ReportView) -> nat {
    let a = table_width(widths_spec(suite_table_spec(r)));
    let b = table_width(widths_spec(test_table_spec(r)));
    if a >= b { a } else { b }
}

/// The printed report: the suite table and the case table at one width,
/// then the totals.
pub open spec fn report_text(r: ReportView) -> Seq<char> {
    let w = report_width(r);
    let t = totals(r.suites);
    "test suites\n"@ + table_text(suite_table_spec(r), w) + "\n"@ + "test cases\n"@ + table_text(test_table_spec(r), w) + "\n"@
        + "summary: "@ + decimal(t.0) + " passed, "@ + decimal(t.1) + " failed, "@ + decimal(t.2) + " ignored\n"@
}

/// The report can be printed without a count or a width overflowing.
pub open spec fn report_fits(r: ReportView) -> bool {
    &&& table_width(widths_spec(suite_table_spec(r))) <= usize::MAX
    &&& table_width(widths_spec(test_table_spec(r))) <= usize::MAX
    &&& totals(r.suites).0 <= u64::MAX
    &&& totals(r.suites).1 <= u64::MAX
    &&& totals(r.suites).2 <= u64::MAX
}

fn number_text(n: u64) -> (r: String)
    ensures
        r@ == decimal(n as nat),
{
    string_of(&decimal_chars(n))
}

fn copy_string(s: &String) -> (r: String)
    ensures
        r@ == s@,
{
    s.clone()
}

/// The strings, owned.
pub fn strings(items: &[&str]) -> (r: Vec<String>)
    ensures
        r@.len() == items@.len(),
        forall|i: int| 0 <= i < items@.len() ==> r@[i]@ == items@[i]@,
{
    let mut out: Vec<String> = Vec::new();
    let mut i: usize = 0;
    while i < items.len()
        invariant
            i <= items@.len(),
            out@.len() == i,
            forall|j: int| 0 <= j < i ==> out@[j]@ == items@[j]@,
        decreases items@.len() - i,
    {
        out.push(items[i].to_string());
        i = i + 1;
    }
    out
}

/// A suite's status.
pub fn suite_status(suite: &Suite) -> (r: &'static str)
    ensures
        r@ == suite_status_spec(suite@),
{
    if suite.failed == 0 { "ok" } else { "failed" }
}

/// The table of suites.
pub fn suite_table(report: &Report) -> (r: Table)
    ensures
        r@ == suite_table_spec(report@),
{
    let headers = strings(&["suite", "passed", "failed", "ignored", "filtered", "time", "status"]);
    let mut rows: Vec<Vec<String>> = Vec::new();
    let mut i: usize = 0;
    while i < report.suites.len()
        invariant
            i <= report.suites.len(),
            rows_view(rows@) == suite_rows(report@.suites.take(i as int)),
        decreases report.suites.len() - i,
    {
        let suite = &report.suites[i];
        let mut row: Vec<String> = Vec::new();
        row.push(copy_string(&suite.name));
        row.push(number_text(suite.passed));
        row.push(number_text(suite.failed));
        row.push(number_text(suite.ignored));
        row.push(number_text(suite.filtered));
        row.push(copy_string(&suite.duration));
        row.push(suite_status(suite).to_string());
        assert(report@.suites[i as int] == suite@);
        assert(strings_view(row@) =~= suite_row(suite@));
        let ghost before = rows@;
        let ghost row_view = strings_view(row@);
        rows.push(row);
        assert(rows_view(rows@) =~= rows_view(before).push(row_view));
        assert(suite_rows(report@.suites.take(i + 1)) =~= suite_rows(report@.suites.take(i as int)).push(suite_row(suite@)));
        assert(rows_view(rows@) =~= suite_rows(report@.suites.take(i + 1)));
        i = i + 1;
    }
    assert(report@.suites.take(i as int) =~= report@.suites);
    let t = Table { headers, rows };
    assert(t@.headers =~= suite_table_spec(report@).headers);
    t
}

/// The table of test cases.
pub fn test_table(report: &Report) -> (r: Table)
    ensures
        r@ == test_table_spec(report@),
{
    let headers = strings(&["suite", "status", "test"]);
    let mut rows: Vec<Vec<String>> = Vec::new();
    let mut i: usize = 0;
    while i < report.tests.len()
        invariant
            i <= report.tests.len(),
            rows_view(rows@) == test_rows(report@.tests.take(i as int)),
        decreases report.tests.len() - i,
    {
        let test = &report.tests[i];
        let mut row: Vec<String> = Vec::new();
        row.push(copy_string(&test.suite));
        row.push(copy_string(&test.status));
        row.push(copy_string(&test.name));
        assert(report@.tests[i as int] == test@);
        assert(strings_view(row@) =~= test_row(test@));
        let ghost before = rows@;
        let ghost row_view = strings_view(row@);
        rows.push(row);
        assert(rows_view(rows@) =~= rows_view(before).push(row_view));
        assert(test_rows(report@.tests.take(i + 1)) =~= test_rows(report@.tests.take(i as int)).push(test_row(test@)));
        assert(rows_view(rows@) =~= test_rows(report@.tests.take(i + 1)));
        i = i + 1;
    }
    assert(report@.tests.take(i as int) =~= report@.tests);
    let t = Table { headers, rows };
    assert(t@.headers =~= test_table_spec(report@).headers);
    t
}

proof fn lemma_totals_prefix(ss: Seq<SuiteView>, n: nat)
    requires
        n <= ss.len(),
    ensures
        totals(ss.take(n as int)).0 <= totals(ss).0,
        totals(ss.take(n as int)).1 <= totals(ss).1,
        totals(ss.take(n as int)).2 <= totals(ss).2,
    decreases ss.len(),
{
    if n < ss.len() {
        assert(ss.drop_last().take(n as int) =~= ss.take(n as int));
        lemma_totals_prefix(ss.drop_last(), n);
    } else {
        assert(ss.take(n as int) =~= ss);
    }
}

/// Prints the report: the suite and case tables at one width, then the
/// totals.
pub fn render_report(report: &Report) -> (r: String)
    requires
        report_fits(report@),
    ensures
        r@ == report_text(report@),
{
    let ghost rv = report@;
    let suites = suite_table(report);
    let tests = test_table(report);
    assert(rows_fit(suites@));
    assert(rows_fit(tests@));
    let sw = table_width_x(&suites.widths());
    let tw = table_width_x(&tests.widths());
    let width = if sw >= tw { sw } else { tw };
    let mut passed: u64 = 0;
    let mut failed: u64 = 0;
    let mut ignored: u64 = 0;
    let mut i: usize = 0;
    while i < report.suites.len()
        invariant
            rv == report@,
            report_fits(rv),
            i <= report.suites.len(),
            (passed as nat, failed as nat, ignored as nat) == totals(rv.suites.take(i as int)),
        decreases report.suites.len() - i,
    {
        proof {
            lemma_totals_prefix(rv.suites, (i + 1) as nat);
            assert(rv.suites.take(i + 1).drop_last() =~= rv.suites.take(i as int));
        }
        assert(rv.suites[i as int] == report.suites@[i as int]@);
        passed = passed + report.suites[i].passed;
        failed = failed + report.suites[i].failed;
        ignored = ignored + report.suites[i].ignored;
        i = i + 1;
    }
    assert(rv.suites.take(i as int) =~= rv.suites);
    let mut out: Vec<char> = Vec::new();
    crate::text::push_str(&mut out, "test suites\n");
    crate::text::push_chars(&mut out, &render_table(&suites, width));
    crate::text::push_str(&mut out, "\n");
    crate::text::push_str(&mut out, "test cases\n");
    crate::text::push_chars(&mut out, &render_table(&tests, width));
    crate::text::push_str(&mut out, "\n");
    crate::text::push_str(&mut out, "summary: ");
    crate::text::push_chars(&mut out, &decimal_chars(passed));
    crate::text::push_str(&mut out, " passed, ");
    crate::text::push_chars(&mut out, &decimal_chars(failed));
    crate::text::push_str(&mut out, " failed, ");
    crate::text::push_chars(&mut out, &decimal_chars(ignored));
    crate::text::push_str(&mut out, " ignored\n");
    assert(out@ =~= report_text(rv));
    string_of(&out)
}

/// Both tables of a printed report are drawn at the report's width: each
/// of their border lines is that long, line feed aside.
pub proof fn report_tables_share_one_width(r: ReportView)
    ensures
        border_line(padded_widths(widths_spec(suite_table_spec(r)), report_width(r))).len() == report_width(r) + 1,
        border_line(padded_widths(widths_spec(test_table_spec(r)), report_width(r))).len() == report_width(r) + 1,
{
    borders_have_the_table_width(widths_spec(suite_table_spec(r)), report_width(r));
    borders_have_the_table_width(widths_spec(test_table_spec(r)), report_width(r));
}

} // verus!
