//! The linter: which check a run asks for, and what each check reports on a stego.lock;
//! and the verbosity of the run's log.

use vstd::prelude::*;
use crate::env::{AmbosoEnv, AmbosoLintMode};
use crate::building::braced;
use crate::toml_doc::{TomlItem, TomlTable, TomlValue};
use crate::trusted::{parse_toml_document, toml_document};
use crate::vtable::table_view;

verus! {

/// The check the linter runs: a full check by default; a lex of the stego.lock when all
/// versions are listed, a lint when versions are listed; a Makefile lex when the git
/// check is ignored (with debug output when all versions are listed, quiet when the run
/// is quiet).
pub fn lint_mode(list: bool, list_all: bool, ignore_gitcheck: bool, quiet: bool) -> (r: AmbosoLintMode)
    ensures
        r == (if ignore_gitcheck {
            if list_all {
                AmbosoLintMode::NajloDebug
            } else if quiet {
                AmbosoLintMode::NajloQuiet
            } else {
                AmbosoLintMode::NajloFull
            }
        } else if list {
            AmbosoLintMode::LintOnly
        } else if list_all {
            AmbosoLintMode::Lex
        } else {
            AmbosoLintMode::FullCheck
        }),
{
    let mut mode = AmbosoLintMode::FullCheck;
    if list_all {
        mode = AmbosoLintMode::Lex;
    }
    if list {
        mode = AmbosoLintMode::LintOnly;
    }
    if ignore_gitcheck {
        mode = if list_all {
            AmbosoLintMode::NajloDebug
        } else if quiet {
            AmbosoLintMode::NajloQuiet
        } else {
            AmbosoLintMode::NajloFull
        };
    }
    mode
}

/// How a Makefile lex prints: (debug output, skip the recap, report warnings).
pub fn makefile_lex_flags(mode: AmbosoLintMode) -> (r: (bool, bool, bool))
    requires
        mode == AmbosoLintMode::NajloFull || mode == AmbosoLintMode::NajloDebug || mode
            == AmbosoLintMode::NajloQuiet,
    ensures
        r == (mode == AmbosoLintMode::NajloDebug, mode == AmbosoLintMode::NajloQuiet, true),
{
    match mode {
        AmbosoLintMode::NajloDebug => (true, false, true),
        AmbosoLintMode::NajloQuiet => (false, true, true),
        _ => (false, false, true),
    }
}

/// A lint of a stego.lock: it succeeds when the text is a TOML document.
pub fn try_parse_stego(text: &str) -> (r: Result<String, String>)
    ensures
        toml_document(text@) is Some ==> (r matches Ok(m) && m@ == "Lint success"@),
        toml_document(text@) is None ==> (r matches Err(e) && e@ == "Lint failed"@),
{
    match parse_toml_document(text) {
        Some(_) => Ok(String::from_str("Lint success")),
        None => Err(String::from_str("Lint failed")),
    }
}

/// The linter's verdict on a lint.
pub fn lint_only_verdict(res: &Result<String, String>) -> (r: Result<String, String>)
    ensures
        res is Ok ==> (r matches Ok(m) && m@ == "Lint success"@),
        res is Err ==> (r matches Err(e) && e@ == "Lint failure"@),
{
    match res {
        Ok(_) => Ok(String::from_str("Lint success")),
        Err(_) => Err(String::from_str("Lint failure")),
    }
}

/// The line that reports one setting of a full check: `<name>: {<value>}`.
pub open spec fn report_line(name: Seq<char>, value: Seq<char>) -> Seq<char> {
    name + ": "@ + braced(value)
}

/// An optional setting as text, empty when absent.
pub open spec fn or_empty(o: Option<String>) -> Seq<char> {
    match o {
        Some(s) => s@,
        None => Seq::empty(),
    }
}

/// The line that reports one setting of a full check.
fn report_line_of(name: &str, value: &Option<String>) -> (r: String)
    ensures
        r@ == report_line(name@, or_empty(*value)),
{
    let mut r = String::from_str(name);
    r.append(": {");
    match value {
        Some(v) => {
            r.append(v.as_str());
        },
        None => {},
    }
    r.append("}");
    proof {
        reveal_strlit(": {");
        reveal_strlit(": ");
        reveal_strlit("}");
    }
    assert(r@ =~= report_line(name@, or_empty(*value)));
    r
}

/// The report of a full check of a stego.lock: its automake and make versions, binary,
/// source and test directories, then each base version and each git version.
pub open spec fn full_check_lines(env: AmbosoEnv) -> Seq<Seq<char>> {
    seq![
        report_line("ANVIL_AUTOMAKE_VERS"@, or_empty(env.mintag_automake)),
        report_line("ANVIL_MAKE_VERS"@, or_empty(env.mintag_make)),
        report_line("ANVIL_BIN"@, or_empty(env.bin)),
        report_line("ANVIL_SOURCE"@, or_empty(env.source)),
        report_line("ANVIL_TESTDIR"@, or_empty(env.tests_dir)),
        report_line("ANVIL_BONE_DIR"@, or_empty(env.bonetests_dir)),
        report_line("ANVIL_KULPO_DIR"@, or_empty(env.kulpotests_dir)),
    ] + table_view(env.basemode_versions_table@).map_values(
        |e: (Seq<char>, Seq<char>)| report_line("ANVIL_BASE_VERSION"@, e.0),
    ) + table_view(env.gitmode_versions_table@).map_values(
        |e: (Seq<char>, Seq<char>)| report_line("ANVIL_GIT_VERSION"@, e.0),
    )
}

/// The lines reporting each version of a table under one name.
fn version_report(name: &str, t: &Vec<(crate::semver::SemVerKey, String)>) -> (r: Vec<String>)
    ensures
        r@.map_values(|s: String| s@) == table_view(t@).map_values(
            |e: (Seq<char>, Seq<char>)| report_line(name@, e.0),
        ),
{
    let mut r: Vec<String> = Vec::new();
    let mut i: usize = 0;
    while i < t.len()
        invariant
            i <= t@.len(),
            r@.map_values(|s: String| s@) == table_view(t@).take(i as int).map_values(
                |e: (Seq<char>, Seq<char>)| report_line(name@, e.0),
            ),
        decreases t@.len() - i,
    {
        let line = report_line_of(name, &Some(t[i].0.0.clone()));
        let ghost before = r@;
        r.push(line);
        assert(r@.map_values(|s: String| s@) =~= before.map_values(|s: String| s@).push(line@));
        assert(r@.map_values(|s: String| s@) =~= table_view(t@).take(i + 1).map_values(
            |e: (Seq<char>, Seq<char>)| report_line(name@, e.0),
        ));
        i = i + 1;
    }
    assert(table_view(t@).take(t@.len() as int) =~= table_view(t@));
    r
}

/// The report of a full check of a stego.lock.
pub fn full_check_report(env: &AmbosoEnv) -> (r: Vec<String>)
    ensures
        r@.map_values(|s: String| s@) == full_check_lines(*env),
{
    let mut r: Vec<String> = Vec::new();
    r.push(report_line_of("ANVIL_AUTOMAKE_VERS", &env.mintag_automake));
    r.push(report_line_of("ANVIL_MAKE_VERS", &env.mintag_make));
    r.push(report_line_of("ANVIL_BIN", &env.bin));
    r.push(report_line_of("ANVIL_SOURCE", &env.source));
    r.push(report_line_of("ANVIL_TESTDIR", &env.tests_dir));
    r.push(report_line_of("ANVIL_BONE_DIR", &env.bonetests_dir));
    r.push(report_line_of("ANVIL_KULPO_DIR", &env.kulpotests_dir));
    let ghost head = r@.map_values(|s: String| s@);
    let mut base = version_report("ANVIL_BASE_VERSION", &env.basemode_versions_table);
    let mut git = version_report("ANVIL_GIT_VERSION", &env.gitmode_versions_table);
    let ghost (bv, gv) = (base@, git@);
    r.append(&mut base);
    r.append(&mut git);
    proof {
        assert(r@.map_values(|s: String| s@) =~= head + bv.map_values(|s: String| s@) + gv.map_values(
            |s: String| s@,
        ));
    }
    r
}

/// Each line of a full check names a setting and shows that same setting between braces:
/// the automake version under ANVIL_AUTOMAKE_VERS, the make version under
/// ANVIL_MAKE_VERS, then the binary, the source and the three test directories, and after
/// them one line per base version and one per git version, in the tables' order.
pub proof fn lemma_full_check_names_its_settings(env: AmbosoEnv)
    ensures
        ({
            let l = full_check_lines(env);
            let base = table_view(env.basemode_versions_table@);
            let git = table_view(env.gitmode_versions_table@);
            &&& l.len() == 7 + base.len() + git.len()
            &&& l[0] == "ANVIL_AUTOMAKE_VERS: {"@ + or_empty(env.mintag_automake) + "}"@
            &&& l[1] == "ANVIL_MAKE_VERS: {"@ + or_empty(env.mintag_make) + "}"@
            &&& l[2] == "ANVIL_BIN: {"@ + or_empty(env.bin) + "}"@
            &&& l[3] == "ANVIL_SOURCE: {"@ + or_empty(env.source) + "}"@
            &&& l[4] == "ANVIL_TESTDIR: {"@ + or_empty(env.tests_dir) + "}"@
            &&& l[5] == "ANVIL_BONE_DIR: {"@ + or_empty(env.bonetests_dir) + "}"@
            &&& l[6] == "ANVIL_KULPO_DIR: {"@ + or_empty(env.kulpotests_dir) + "}"@
            &&& forall|i: int| 0 <= i < base.len() ==> #[trigger] l[7 + i] == "ANVIL_BASE_VERSION: {"@ + base[i].0 + "}"@
            &&& forall|i: int| 0 <= i < git.len() ==> #[trigger] l[7 + base.len() + i] == "ANVIL_GIT_VERSION: {"@ + git[i].0 + "}"@
        }),
{
    reveal_strlit(": ");
    reveal_strlit("}");
    reveal_strlit("ANVIL_AUTOMAKE_VERS");
    reveal_strlit("ANVIL_AUTOMAKE_VERS: {");
    reveal_strlit("ANVIL_MAKE_VERS");
    reveal_strlit("ANVIL_MAKE_VERS: {");
    reveal_strlit("ANVIL_BIN");
    reveal_strlit("ANVIL_BIN: {");
    reveal_strlit("ANVIL_SOURCE");
    reveal_strlit("ANVIL_SOURCE: {");
    reveal_strlit("ANVIL_TESTDIR");
    reveal_strlit("ANVIL_TESTDIR: {");
    reveal_strlit("ANVIL_BONE_DIR");
    reveal_strlit("ANVIL_BONE_DIR: {");
    reveal_strlit("ANVIL_KULPO_DIR");
    reveal_strlit("ANVIL_KULPO_DIR: {");
    reveal_strlit("ANVIL_BASE_VERSION");
    reveal_strlit("ANVIL_BASE_VERSION: {");
    reveal_strlit("ANVIL_GIT_VERSION");
    reveal_strlit("ANVIL_GIT_VERSION: {");
    let l = full_check_lines(env);
    let base = table_view(env.basemode_versions_table@);
    let git = table_view(env.gitmode_versions_table@);
    assert(l[0] =~= "ANVIL_AUTOMAKE_VERS: {"@ + or_empty(env.mintag_automake) + "}"@);
    assert(l[1] =~= "ANVIL_MAKE_VERS: {"@ + or_empty(env.mintag_make) + "}"@);
    assert(l[2] =~= "ANVIL_BIN: {"@ + or_empty(env.bin) + "}"@);
    assert(l[3] =~= "ANVIL_SOURCE: {"@ + or_empty(env.source) + "}"@);
    assert(l[4] =~= "ANVIL_TESTDIR: {"@ + or_empty(env.tests_dir) + "}"@);
    assert(l[5] =~= "ANVIL_BONE_DIR: {"@ + or_empty(env.bonetests_dir) + "}"@);
    assert(l[6] =~= "ANVIL_KULPO_DIR: {"@ + or_empty(env.kulpotests_dir) + "}"@);
    assert forall|i: int| 0 <= i < base.len() implies #[trigger] l[7 + i] == "ANVIL_BASE_VERSION: {"@ + base[i].0 + "}"@ by {
        assert(l[7 + i] =~= "ANVIL_BASE_VERSION: {"@ + base[i].0 + "}"@);
    }
    assert forall|i: int| 0 <= i < git.len() implies #[trigger] l[7 + base.len() + i] == "ANVIL_GIT_VERSION: {"@ + git[i].0 + "}"@ by {
        assert(l[7 + base.len() + i] =~= "ANVIL_GIT_VERSION: {"@ + git[i].0 + "}"@);
    }
}

/// The separator printed after each scope of a lexed stego.lock.
pub open spec fn scope_separator() -> Seq<char> {
    "----------------------------"@
}

/// The lines that a lex prints for the text items of one scope.
pub open spec fn variable_lines(scope: Seq<char>, e: Seq<(String, TomlItem)>) -> Seq<Seq<char>>
    decreases e.len(),
{
    if e.len() == 0 {
        Seq::empty()
    } else {
        let rest = variable_lines(scope, e.drop_last());
        match e.last().1.value {
            TomlValue::Str(_) => rest.push(
                "Variable: "@ + scope + seq!['_'] + e.last().0@ + ", Value: "@ + e.last().1.shown@,
            ),
            _ => rest,
        }
    }
}

/// The lines that a lex prints for one scope: its name, its text items, and the
/// separator.
pub open spec fn scope_lines(scope: Seq<char>, item: TomlItem) -> Seq<Seq<char>> {
    seq!["Scope: "@ + scope] + match item.value {
        TomlValue::Table(t) => variable_lines(scope, t.entries@),
        _ => Seq::empty(),
    } + seq![scope_separator()]
}

/// The lines that a lex prints for a document, scope by scope.
pub open spec fn lex_lines_of(e: Seq<(String, TomlItem)>) -> Seq<Seq<char>>
    decreases e.len(),
{
    if e.len() == 0 {
        Seq::empty()
    } else {
        lex_lines_of(e.drop_last()) + scope_lines(e.last().0@, e.last().1)
    }
}

/// The lines that a lex prints for one scope.
fn scope_report(scope: &str, item: &TomlItem) -> (r: Vec<String>)
    ensures
        r@.map_values(|s: String| s@) == scope_lines(scope@, *item),
{
    let mut r: Vec<String> = Vec::new();
    let mut head = String::from_str("Scope: ");
    head.append(scope);
    r.push(head);
    let ghost first = r@.map_values(|s: String| s@);
    assert(first =~= seq!["Scope: "@ + scope@]);
    match &item.value {
        TomlValue::Table(t) => {
            let n = t.entries.len();
            let mut i: usize = 0;
            while i < n
                invariant
                    n == t.entries@.len(),
                    i <= n,
                    r@.map_values(|s: String| s@) == first + variable_lines(
                        scope@,
                        t.entries@.take(i as int),
                    ),
                decreases n - i,
            {
                let ghost before = r@;
                proof {
                    assert(t.entries@.take(i + 1).drop_last() =~= t.entries@.take(i as int));
                    assert(t.entries@.take(i + 1).last() == t.entries@[i as int]);
                }
                match &t.entries[i].1.value {
                    TomlValue::Str(_) => {
                        let mut line = String::from_str("Variable: ");
                        line.append(scope);
                        line.append("_");
                        line.append(t.entries[i].0.as_str());
                        line.append(", Value: ");
                        line.append(t.entries[i].1.shown.as_str());
                        proof {
                            reveal_strlit("_");
                        }
                        r.push(line);
                        assert(r@.map_values(|s: String| s@) =~= before.map_values(|s: String| s@).push(
                            line@,
                        ));
                        assert(line@ =~= "Variable: "@ + scope@ + seq!['_'] + t.entries@[i as int].0@
                            + ", Value: "@ + t.entries@[i as int].1.shown@);
                        assert(variable_lines(scope@, t.entries@.take(i + 1)) == variable_lines(
                            scope@,
                            t.entries@.take(i as int),
                        ).push(line@));
                        assert(r@.map_values(|s: String| s@) =~= first + variable_lines(
                            scope@,
                            t.entries@.take(i + 1),
                        ));
                    },
                    _ => {
                        assert(variable_lines(scope@, t.entries@.take(i + 1)) == variable_lines(
                            scope@,
                            t.entries@.take(i as int),
                        ));
                    },
                }
                i = i + 1;
            }
            assert(t.entries@.take(n as int) =~= t.entries@);
        },
        _ => {
            assert(r@.map_values(|s: String| s@) =~= first + Seq::<Seq<char>>::empty());
        },
    }
    let ghost mid = r@.map_values(|s: String| s@);
    r.push(String::from_str("----------------------------"));
    assert(r@.map_values(|s: String| s@) =~= mid + seq![scope_separator()]);
    r
}

/// The lines that a lex of a stego.lock prints, scope by scope.
pub fn lex_report(doc: &TomlTable) -> (r: Vec<String>)
    ensures
        r@.map_values(|s: String| s@) == lex_lines_of(doc.entries@),
{
    let n = doc.entries.len();
    let mut r: Vec<String> = Vec::new();
    let mut i: usize = 0;
    while i < n
        invariant
            n == doc.entries@.len(),
            i <= n,
            r@.map_values(|s: String| s@) == lex_lines_of(doc.entries@.take(i as int)),
        decreases n - i,
    {
        let mut part = scope_report(doc.entries[i].0.as_str(), &doc.entries[i].1);
        let ghost (a, b) = (r@, part@);
        r.append(&mut part);
        proof {
            assert(doc.entries@.take(i + 1).drop_last() =~= doc.entries@.take(i as int));
            assert(doc.entries@.take(i + 1).last() == doc.entries@[i as int]);
            assert(r@.map_values(|s: String| s@) =~= a.map_values(|s: String| s@) + b.map_values(
                |s: String| s@,
            ));
        }
        i = i + 1;
    }
    assert(doc.entries@.take(n as int) =~= doc.entries@);
    r
}

/// A lex of a stego.lock: the lines it prints, or an error when the text is not a TOML
/// document.
pub fn lex_stego(text: &str) -> (r: Result<Vec<String>, String>)
    ensures
        toml_document(text@) matches Some(doc) ==> (r matches Ok(lines) && lines@.map_values(
            |s: String| s@,
        ) == lex_lines_of(doc.entries@)),
        toml_document(text@) is None ==> (r matches Err(e) && e@ == "Failed lexing TOML"@),
{
    match parse_toml_document(text) {
        Some(doc) => Ok(lex_report(&doc)),
        None => Err(String::from_str("Failed lexing TOML")),
    }
}

/// How much a run logs.
#[derive(Debug, Clone, Copy, PartialEq, Eq, Structural)]
pub enum LogLevel {
    Error,
    Warn,
    Info,
    Debug,
    Trace,
}

/// How much a run logs: errors only when silent; otherwise by verbosity, one less when
/// quiet: 5 traces, 4 debugs, 3 informs, 2 warns, 0 and 1 only report errors, and above 5
/// the run debugs.
pub fn log_level(silent: bool, quiet: bool, verbose: u8) -> (r: LogLevel)
    ensures
        ({
            let v = if quiet && verbose > 0 {
                verbose - 1
            } else {
                verbose as int
            };
            r == (if silent {
                LogLevel::Error
            } else if v == 5 {
                LogLevel::Trace
            } else if v == 4 {
                LogLevel::Debug
            } else if v == 3 {
                LogLevel::Info
            } else if v == 2 {
                LogLevel::Warn
            } else if v <= 1 {
                LogLevel::Error
            } else {
                LogLevel::Debug
            })
        }),
{
    let v = if quiet && verbose > 0 {
        verbose - 1
    } else {
        verbose
    };
    if silent {
        LogLevel::Error
    } else if v == 5 {
        LogLevel::Trace
    } else if v == 4 {
        LogLevel::Debug
    } else if v == 3 {
        LogLevel::Info
    } else if v == 2 {
        LogLevel::Warn
    } else if v <= 1 {
        LogLevel::Error
    } else {
        LogLevel::Debug
    }
}

} // verus!
