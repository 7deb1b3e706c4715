//! The operations on one version of the project (build, run, delete, query) and on its
//! tests: which version or test they target, where its files are, and what each finding
//! about those files, or each exit of a command, makes of the operation.

use vstd::prelude::*;
use crate::args::Args;
use crate::chars::{opt_text, path_join};
use crate::chars::path_push;
use crate::env::{AmbosoEnv, AmbosoMode};
use crate::order::{has_name, named_value, named_view, names_sorted, insert_named};
use crate::trusted::{regex_compiles, regex_finds, regex_is_match};
use crate::vtable::{has_equal_key, has_version, table_view};

verus! {

/// What a look at a path found.
#[derive(Debug, Clone, Copy, PartialEq, Eq, Structural)]
pub enum PathProbe {
    /// Nothing is there.
    Missing,
    /// Something that is not a file is there.
    NotFile,
    /// A file is there, executable or not.
    File { executable: bool },
}

/// The versions of the table for the run's mode: git mode uses the git versions,
/// base mode the base versions.
pub open spec fn mode_versions(env: AmbosoEnv) -> Seq<(Seq<char>, Seq<char>)> {
    if env.run_mode == Some(AmbosoMode::GitMode) {
        table_view(env.gitmode_versions_table@)
    } else {
        table_view(env.basemode_versions_table@)
    }
}

/// Whether the run is in git mode or in base mode.
pub open spec fn in_version_mode(env: AmbosoEnv) -> bool {
    env.run_mode == Some(AmbosoMode::GitMode) || env.run_mode == Some(AmbosoMode::BaseMode)
}

/// The version that a build, run or delete targets: the tag argument, which must name a
/// version of the table for the run's mode.
pub fn op_tag(env: &AmbosoEnv, args: &Args) -> (r: Result<String, String>)
    requires
        args.tag is Some ==> in_version_mode(*env),
    ensures
        args.tag is None ==> (r matches Err(e) && e@ == "No tag provided"@),
        args.tag matches Some(t) ==> (if has_equal_key(mode_versions(*env), t@) {
            r == Ok::<String, String>(t)
        } else {
            r matches Err(e) && e@ == "Invalid tag"@
        }),
{
    match &args.tag {
        None => Err(String::from_str("No tag provided")),
        Some(t) => {
            let known = match env.run_mode {
                Some(AmbosoMode::GitMode) => has_version(&env.gitmode_versions_table, t.as_str()),
                _ => has_version(&env.basemode_versions_table, t.as_str()),
            };
            if known {
                Ok(t.clone())
            } else {
                Err(String::from_str("Invalid tag"))
            }
        },
    }
}

/// The directory of a version's build: `v` and the version, under the builds directory.
pub open spec fn tag_dir(builds_dir: Seq<char>, tag: Seq<char>) -> Seq<char> {
    path_join(builds_dir, seq!['v'] + tag)
}

/// The directory of a version's build.
pub fn tag_dir_path(builds_dir: &str, tag: &str) -> (r: String)
    ensures
        r@ == tag_dir(builds_dir@, tag@),
{
    let mut d = String::from_str("v");
    d.append(tag);
    proof {
        reveal_strlit("v");
    }
    path_push(builds_dir, d.as_str())
}

/// The binary of a version's build, in the directory of that build.
pub fn tag_bin_path(builds_dir: &str, tag: &str, bin: &str) -> (r: String)
    ensures
        r@ == path_join(tag_dir(builds_dir@, tag@), bin@),
{
    let d = tag_dir_path(builds_dir, tag);
    path_push(d.as_str(), bin)
}

/// The binary of a version's build as the run and delete commands name it:
/// `./<builds dir>/v<version>/<binary>`.
pub open spec fn bin_command_path(builds_dir: Seq<char>, tag: Seq<char>, bin: Seq<char>) -> Seq<char> {
    seq!['.', '/'] + builds_dir + seq!['/', 'v'] + tag + seq!['/'] + bin
}

/// The binary of a version's build as the run and delete commands name it.
pub fn bin_command_path_of(builds_dir: &str, tag: &str, bin: &str) -> (r: String)
    ensures
        r@ == bin_command_path(builds_dir@, tag@, bin@),
{
    let mut r = String::from_str("./");
    r.append(builds_dir);
    r.append("/v");
    r.append(tag);
    r.append("/");
    r.append(bin);
    proof {
        reveal_strlit("./");
        reveal_strlit("/v");
        reveal_strlit("/");
    }
    r
}

/// What the build makes of its version's directory (`dir_exists`, after it was created
/// when missing) and of the binary found there: none when it goes on building.
pub fn build_target_verdict(dir_exists: bool, bin: PathProbe, force: bool) -> (r: Option<
    Result<String, String>,
>)
    ensures
        !dir_exists ==> (r matches Some(Err(e)) && e@ == "No dir found"@),
        dir_exists ==> match bin {
            PathProbe::NotFile => r matches Some(Err(e)) && e@ == "Not a file"@,
            PathProbe::File { .. } => if force {
                r is None
            } else {
                r matches Some(Ok(m)) && m@ == "File was ready"@
            },
            PathProbe::Missing => r is None,
        },
{
    if !dir_exists {
        return Some(Err(String::from_str("No dir found")));
    }
    match bin {
        PathProbe::NotFile => Some(Err(String::from_str("Not a file"))),
        PathProbe::File { .. } => if force {
            None
        } else {
            Some(Ok(String::from_str("File was ready")))
        },
        PathProbe::Missing => None,
    }
}

/// What running or deleting makes of its version's directory and of the binary found
/// there: none when the binary is a file and the command goes ahead.
pub fn existing_bin_verdict(dir_exists: bool, bin: PathProbe) -> (r: Option<String>)
    ensures
        !dir_exists ==> (r matches Some(e) && e@ == "No dir found"@),
        dir_exists ==> match bin {
            PathProbe::NotFile => r matches Some(e) && e@ == "Not a file"@,
            PathProbe::Missing => r matches Some(e) && e@ == "File not found"@,
            PathProbe::File { .. } => r is None,
        },
{
    if !dir_exists {
        return Some(String::from_str("No dir found"));
    }
    match bin {
        PathProbe::NotFile => Some(String::from_str("Not a file")),
        PathProbe::Missing => Some(String::from_str("File not found")),
        PathProbe::File { .. } => None,
    }
}

/// What a command's exit makes of an operation: done when it exited with a status,
/// whatever the status; failed when it was ended by a signal.
pub fn status_outcome(code: Option<i32>, done: &str, failed: &str) -> (r: Result<String, String>)
    ensures
        code is Some ==> (r matches Ok(m) && m@ == done@),
        code is None ==> (r matches Err(e) && e@ == failed@),
{
    match code {
        Some(_) => Ok(String::from_str(done)),
        None => Err(String::from_str(failed)),
    }
}

/// The pattern of a tag that asks the run to act as the interpreter of a stego.lock.
pub const INTERPRETER_TAG_PATTERN: &'static str = "stego.lock$";

/// Whether the tag asks the run to act as the interpreter of a stego.lock: it ends
/// with `stego` and `lock` around any one character.
pub open spec fn interpreter_tag(t: Seq<char>) -> bool {
    regex_compiles(INTERPRETER_TAG_PATTERN@) && regex_finds(INTERPRETER_TAG_PATTERN@, t)
}

/// Whether the tag asks the run to act as the interpreter of a stego.lock.
pub fn is_interpreter_tag(t: &str) -> (r: bool)
    ensures
        r == interpreter_tag(t@),
{
    match regex_is_match(INTERPRETER_TAG_PATTERN, t) {
        Some(b) => b,
        None => false,
    }
}

/// A copy of a table of tests.
fn copy_tests(t: &Vec<(String, String)>) -> (r: Vec<(String, String)>)
    ensures
        named_view(r@) == named_view(t@),
{
    let mut r: Vec<(String, String)> = Vec::new();
    let mut i: usize = 0;
    while i < t.len()
        invariant
            i <= t@.len(),
            named_view(r@) == named_view(t@).take(i as int),
        decreases t@.len() - i,
    {
        let e = (t[i].0.clone(), t[i].1.clone());
        assert(e == t@[i as int]);
        let ghost before = r@;
        r.push(e);
        assert(named_view(r@) =~= named_view(before).push((e.0@, e.1@)));
        assert(named_view(r@) =~= named_view(t@).take(i + 1));
        i = i + 1;
    }
    assert(named_view(t@).take(t@.len() as int) =~= named_view(t@));
    r
}

/// The path of the test named `x` among all tests: the error test of that name if there
/// is one, else the test of that name.
pub open spec fn merged_test(
    bone: Seq<(Seq<char>, Seq<char>)>,
    kulpo: Seq<(Seq<char>, Seq<char>)>,
    x: Seq<char>,
) -> Option<Seq<char>> {
    if has_name(kulpo, x) {
        named_value(kulpo, x)
    } else {
        named_value(bone, x)
    }
}

/// All tests in one table in name order, an error test taking the place of a test of the
/// same name (`BTreeMap::append` of the tests, then of the error tests).
pub fn merge_tests(bone: &Vec<(String, String)>, kulpo: &Vec<(String, String)>) -> (r: Vec<
    (String, String),
>)
    requires
        names_sorted(named_view(bone@)),
        names_sorted(named_view(kulpo@)),
    ensures
        names_sorted(named_view(r@)),
        forall|x: Seq<char>|
            #![trigger named_value(named_view(r@), x)]
            named_value(named_view(r@), x) == merged_test(named_view(bone@), named_view(kulpo@), x),
{
    let mut r = copy_tests(bone);
    let ghost b = named_view(bone@);
    let ghost k = named_view(kulpo@);
    let mut i: usize = 0;
    while i < kulpo.len()
        invariant
            b == named_view(bone@),
            k == named_view(kulpo@),
            names_sorted(k),
            i <= kulpo@.len(),
            names_sorted(named_view(r@)),
            forall|x: Seq<char>|
                #![trigger named_value(named_view(r@), x)]
                named_value(named_view(r@), x) == (if has_name(k.take(i as int), x) {
                    named_value(k, x)
                } else {
                    named_value(b, x)
                }),
        decreases kulpo@.len() - i,
    {
        let name = kulpo[i].0.clone();
        let path = kulpo[i].1.clone();
        let ghost before = named_view(r@);
        insert_named(&mut r, name, path);
        proof {
            crate::order::lemma_named_value_at(k, i as int);
            assert forall|x: Seq<char>| #[trigger] named_value(named_view(r@), x) == (if has_name(
                k.take(i + 1),
                x,
            ) {
                named_value(k, x)
            } else {
                named_value(b, x)
            }) by {
                if x == k[i as int].0 {
                    assert(k.take(i + 1)[i as int].0 == x);
                } else {
                    assert(named_value(before, x) == named_value(named_view(r@), x));
                    if has_name(k.take(i as int), x) {
                        let j = choose|j: int| 0 <= j < k.take(i as int).len() && #[trigger] k.take(i as int)[j].0 == x;
                        assert(k.take(i + 1)[j].0 == x);
                    }
                    if has_name(k.take(i + 1), x) {
                        let j = choose|j: int| 0 <= j < k.take(i + 1).len() && #[trigger] k.take(i + 1)[j].0 == x;
                        assert(k.take(i as int)[j].0 == x);
                    }
                }
            }
        }
        i = i + 1;
    }
    proof {
        assert(k.take(kulpo@.len() as int) =~= k);
    }
    r
}

/// What a query does next.
pub enum QueryPlan {
    /// Hand the run over to make, which ends it.
    RunMake,
    /// End the query with this result.
    Done(Result<String, String>),
    /// Run the test at this path, recording its output when `record` holds.
    Test { path: String, record: bool },
    /// Look at the build of a version: its directory and, when the project names its
    /// binary, the binary.
    Info { dir: String, bin: Option<String> },
    /// Run all these tests, in this order, recording their output when `record` holds.
    AllTests { tests: Vec<(String, String)>, record: bool },
}

/// What a query decides before it looks at any file. A tag that asks for the
/// interpreter hands over to make. With a tag, git and base mode look at that version's
/// build, test mode runs the test of that name; without one, test-macro mode runs all
/// tests, and git and base mode hand over to make unless an init, a purge or a listing
/// was asked for.
pub fn query_plan(env: &AmbosoEnv, args: &Args) -> (r: QueryPlan)
    requires
        env.run_mode is Some,
        names_sorted(named_view(env.bonetests_table@)),
        names_sorted(named_view(env.kulpotests_table@)),
        args.tag matches Some(t) && !interpreter_tag(t@) ==> env.run_mode != Some(
            AmbosoMode::TestMacro,
        ),
        args.tag matches Some(t) && !interpreter_tag(t@) && in_version_mode(*env) && has_equal_key(
            mode_versions(*env),
            t@,
        ) ==> env.builds_dir is Some,
    ensures
        match args.tag {
            Some(t) => if interpreter_tag(t@) {
                r is RunMake
            } else if in_version_mode(*env) {
                if has_equal_key(mode_versions(*env), t@) {
                    r matches QueryPlan::Info { dir, bin } && dir@ == tag_dir(
                        env.builds_dir->0@,
                        t@,
                    ) && opt_text(bin) == match env.bin {
                        Some(b) => Some(path_join(dir@, b@)),
                        None => None,
                    }
                } else {
                    r matches QueryPlan::Done(Err(e)) && e@ == "Invalid tag"@
                }
            } else if !env.support_testmode {
                r matches QueryPlan::Done(Err(e)) && e@ == "Missing testmode support"@
            } else {
                let b = named_view(env.bonetests_table@);
                let k = named_view(env.kulpotests_table@);
                if !has_name(b, t@) && !has_name(k, t@) {
                    r matches QueryPlan::Done(Err(e)) && e@ == "Invalid test query"@
                } else {
                    &&& r matches QueryPlan::Test { path, record }
                    &&& record == env.do_build
                    &&& Some(path@) == (if has_name(b, t@) {
                        named_value(b, t@)
                    } else {
                        named_value(k, t@)
                    })
                }
            },
            None => if env.run_mode == Some(AmbosoMode::TestMacro) {
                if !env.support_testmode {
                    r matches QueryPlan::Done(Err(e)) && e@ == "Missing testmode support"@
                } else {
                    &&& r matches QueryPlan::AllTests { tests, record }
                    &&& record == env.do_build
                    &&& names_sorted(named_view(tests@))
                    &&& forall|x: Seq<char>|
                        #![trigger named_value(named_view(tests@), x)]
                        named_value(named_view(tests@), x) == merged_test(
                            named_view(env.bonetests_table@),
                            named_view(env.kulpotests_table@),
                            x,
                        )
                }
            } else if in_version_mode(*env) && !env.do_init && !env.do_purge && !args.list
                && !args.list_all {
                r is RunMake
            } else {
                r matches QueryPlan::Done(Err(e)) && e@ == "No tag provided."@
            },
        },
{
    match &args.tag {
        Some(t) => {
            if is_interpreter_tag(t.as_str()) {
                return QueryPlan::RunMake;
            }
            match env.run_mode {
                Some(AmbosoMode::GitMode) | Some(AmbosoMode::BaseMode) => {
                    match op_tag(env, args) {
                        Err(e) => QueryPlan::Done(Err(e)),
                        Ok(q) => {
                            let builds = match &env.builds_dir {
                                Some(b) => b,
                                None => {
                                    return QueryPlan::Done(Err(String::from_str("No dir found")));
                                },
                            };
                            let dir = tag_dir_path(builds.as_str(), q.as_str());
                            let bin = match &env.bin {
                                Some(b) => Some(path_push(dir.as_str(), b.as_str())),
                                None => None,
                            };
                            QueryPlan::Info { dir, bin }
                        },
                    }
                },
                _ => {
                    if !env.support_testmode {
                        return QueryPlan::Done(Err(String::from_str("Missing testmode support")));
                    }
                    let found = match find_test(&env.bonetests_table, t.as_str()) {
                        Some(p) => Some(p),
                        None => find_test(&env.kulpotests_table, t.as_str()),
                    };
                    match found {
                        Some(path) => QueryPlan::Test { path, record: env.do_build },
                        None => QueryPlan::Done(Err(String::from_str("Invalid test query"))),
                    }
                },
            }
        },
        None => match env.run_mode {
            Some(AmbosoMode::TestMacro) => {
                if !env.support_testmode {
                    QueryPlan::Done(Err(String::from_str("Missing testmode support")))
                } else {
                    let tests = merge_tests(&env.bonetests_table, &env.kulpotests_table);
                    QueryPlan::AllTests { tests, record: env.do_build }
                }
            },
            Some(AmbosoMode::GitMode) | Some(AmbosoMode::BaseMode) => {
                if !env.do_init && !env.do_purge && !args.list && !args.list_all {
                    QueryPlan::RunMake
                } else {
                    QueryPlan::Done(Err(String::from_str("No tag provided.")))
                }
            },
            _ => QueryPlan::Done(Err(String::from_str("No tag provided."))),
        },
    }
}

/// The path of the test named `name` (`BTreeMap::get`).
pub fn find_test(t: &Vec<(String, String)>, name: &str) -> (r: Option<String>)
    requires
        names_sorted(named_view(t@)),
    ensures
        opt_text(r) == named_value(named_view(t@), name@),
{
    let n = t.len();
    let mut i: usize = 0;
    while i < n
        invariant
            names_sorted(named_view(t@)),
            n == t@.len(),
            i <= n,
            forall|j: int| 0 <= j < i ==> #[trigger] named_view(t@)[j].0 != name@,
        decreases n - i,
    {
        if crate::chars::same_text(t[i].0.as_str(), name) {
            proof {
                crate::order::lemma_named_value_at(named_view(t@), i as int);
            }
            return Some(t[i].1.clone());
        }
        i = i + 1;
    }
    proof {
        if has_name(named_view(t@), name@) {
            let j = choose|j: int| 0 <= j < named_view(t@).len() && #[trigger] named_view(t@)[j].0 == name@;
            assert(named_view(t@)[j].0 != name@);
        }
    }
    None
}

/// What a query makes of its version's directory and of the binary found there.
pub fn info_verdict(dir_exists: bool, bin: PathProbe) -> (r: Result<String, String>)
    ensures
        !dir_exists ==> (r matches Err(e) && e@ == "No dir found"@),
        dir_exists ==> match bin {
            PathProbe::Missing => r matches Err(e) && e@ == "No file found"@,
            PathProbe::NotFile => r matches Err(e) && e@ == "Not a file"@,
            PathProbe::File { executable } => r matches Ok(m) && m@ == (if executable {
                "Is executable"@
            } else {
                "Is not executable"@
            }),
        },
{
    if !dir_exists {
        return Err(String::from_str("No dir found"));
    }
    match bin {
        PathProbe::Missing => Err(String::from_str("No file found")),
        PathProbe::NotFile => Err(String::from_str("Not a file")),
        PathProbe::File { executable } => if executable {
            Ok(String::from_str("Is executable"))
        } else {
            Ok(String::from_str("Is not executable"))
        },
    }
}

/// What the look at a test's path makes of it: none when it is an executable file, to be
/// run; otherwise the result it ends with.
pub fn test_probe_verdict(p: PathProbe) -> (r: Option<Result<String, String>>)
    ensures
        match p {
            PathProbe::Missing => r matches Some(Err(e)) && e@ == "No file found"@,
            PathProbe::NotFile => r matches Some(Err(e)) && e@ == "Not a file"@,
            PathProbe::File { executable } => if executable {
                r is None
            } else {
                r matches Some(Ok(m)) && m@ == "Is not executable"@
            },
        },
{
    match p {
        PathProbe::Missing => Some(Err(String::from_str("No file found"))),
        PathProbe::NotFile => Some(Err(String::from_str("Not a file"))),
        PathProbe::File { executable } => if executable {
            None
        } else {
            Some(Ok(String::from_str("Is not executable")))
        },
    }
}

/// What happened with one test of a run of all tests.
pub enum MacroStep {
    /// The test's path could not be run: the look at it found this.
    Unrunnable(PathProbe),
    /// The test ran, and passed when this holds.
    Ran(bool),
}

/// The result of a run of all tests, from what happened with each test in turn: the
/// first test that could not be run ends it, as a query of that test would, except that
/// failures before it still make the run fail; otherwise the run fails when some test
/// failed.
pub open spec fn macro_outcome(steps: Seq<MacroStep>, failures: nat) -> Result<Seq<char>, Seq<char>>
    decreases steps.len(),
{
    if steps.len() == 0 {
        if failures != 0 {
            Err("Test macro had some failures"@)
        } else {
            Ok("Done test macro run"@)
        }
    } else {
        match steps[0] {
            MacroStep::Unrunnable(PathProbe::Missing) => Err("No file found"@),
            MacroStep::Unrunnable(PathProbe::NotFile) => Err("Not a file"@),
            MacroStep::Unrunnable(PathProbe::File { .. }) => if failures != 0 {
                Err("Test macro had some failures"@)
            } else {
                Ok("Is not executable"@)
            },
            MacroStep::Ran(passed) => macro_outcome(
                steps.drop_first(),
                if passed {
                    failures
                } else {
                    failures + 1
                },
            ),
        }
    }
}

/// The view of a result of text.
pub open spec fn result_text(r: Result<String, String>) -> Result<Seq<char>, Seq<char>> {
    match r {
        Ok(m) => Ok(m@),
        Err(e) => Err(e@),
    }
}

/// The result of a run of all tests.
pub fn macro_verdict(steps: &Vec<MacroStep>) -> (r: Result<String, String>)
    ensures
        result_text(r) == macro_outcome(steps@, 0),
{
    let mut failures: usize = 0;
    let mut i: usize = 0;
    assert(steps@.skip(0) =~= steps@);
    while i < steps.len()
        invariant
            i <= steps@.len(),
            failures <= i,
            macro_outcome(steps@, 0) == macro_outcome(steps@.skip(i as int), failures as nat),
        decreases steps@.len() - i,
    {
        proof {
            assert(steps@.skip(i as int).drop_first() =~= steps@.skip(i + 1));
        }
        match &steps[i] {
            MacroStep::Unrunnable(PathProbe::Missing) => {
                return Err(String::from_str("No file found"));
            },
            MacroStep::Unrunnable(PathProbe::NotFile) => {
                return Err(String::from_str("Not a file"));
            },
            MacroStep::Unrunnable(PathProbe::File { .. }) => {
                if failures != 0 {
                    return Err(String::from_str("Test macro had some failures"));
                }
                return Ok(String::from_str("Is not executable"));
            },
            MacroStep::Ran(passed) => {
                if !*passed {
                    failures = failures + 1;
                }
            },
        }
        i = i + 1;
    }
    if failures != 0 {
        Err(String::from_str("Test macro had some failures"))
    } else {
        Ok(String::from_str("Done test macro run"))
    }
}

/// A run of all tests in which every test could be run succeeds exactly when every test
/// passed.
pub proof fn lemma_macro_all_ran(steps: Seq<MacroStep>, failures: nat)
    requires
        forall|i: int| 0 <= i < steps.len() ==> #[trigger] steps[i] is Ran,
    ensures
        macro_outcome(steps, failures) == (if failures == 0 && forall|i: int|
            0 <= i < steps.len() ==> #[trigger] steps[i] == MacroStep::Ran(true) {
            Ok::<Seq<char>, Seq<char>>("Done test macro run"@)
        } else {
            Err::<Seq<char>, Seq<char>>("Test macro had some failures"@)
        }),
    decreases steps.len(),
{
    if steps.len() > 0 {
        let rest = steps.drop_first();
        assert(steps[0] is Ran);
        assert forall|i: int| 0 <= i < rest.len() implies #[trigger] rest[i] is Ran by {
            assert(rest[i] == steps[i + 1]);
        }
        let f2 = if steps[0] == MacroStep::Ran(true) {
            failures
        } else {
            failures + 1
        };
        lemma_macro_all_ran(rest, f2);
        if steps[0] == MacroStep::Ran(true) {
            if forall|i: int| 0 <= i < rest.len() ==> #[trigger] rest[i] == MacroStep::Ran(true) {
                assert forall|i: int| 0 <= i < steps.len() implies #[trigger] steps[i] == MacroStep::Ran(
                    true,
                ) by {
                    if i > 0 {
                        assert(steps[i] == rest[i - 1]);
                    }
                }
            } else {
                let k = choose|k: int| 0 <= k < rest.len() && !(#[trigger] rest[k] == MacroStep::Ran(true));
                assert(steps[k + 1] == rest[k]);
            }
        } else {
            match steps[0] {
                MacroStep::Ran(p) => assert(!p),
                _ => {},
            }
        }
    }
}

/// Once a test of a run of all tests has failed, the run fails, whatever comes after.
pub proof fn lemma_macro_failures_stick(steps: Seq<MacroStep>, failures: nat)
    requires
        failures > 0,
    ensures
        macro_outcome(steps, failures) is Err,
    decreases steps.len(),
{
    if steps.len() > 0 {
        match steps[0] {
            MacroStep::Ran(p) => {
                lemma_macro_failures_stick(steps.drop_first(), if p {
                    failures
                } else {
                    failures + 1
                });
            },
            _ => {},
        }
    }
}

/// A run of all tests fails when a test that ran failed: any test after it can only make
/// the run fail too.
pub proof fn lemma_macro_failed_test(steps: Seq<MacroStep>, i: int)
    requires
        0 <= i < steps.len(),
        steps[i] == MacroStep::Ran(false),
        forall|j: int| 0 <= j < i ==> #[trigger] steps[j] is Ran,
    ensures
        macro_outcome(steps, 0) is Err,
{
    lemma_macro_failed_from(steps, i, 0);
}

proof fn lemma_macro_failed_from(steps: Seq<MacroStep>, i: int, failures: nat)
    requires
        0 <= i < steps.len(),
        steps[i] == MacroStep::Ran(false),
        forall|j: int| 0 <= j < i ==> #[trigger] steps[j] is Ran,
    ensures
        macro_outcome(steps, failures) is Err,
    decreases i,
{
    let rest = steps.drop_first();
    if i == 0 {
        lemma_macro_failures_stick(rest, failures + 1);
    } else {
        assert(steps[0] is Ran);
        assert forall|j: int| 0 <= j < i - 1 implies #[trigger] rest[j] is Ran by {
            assert(rest[j] == steps[j + 1]);
        }
        assert(rest[i - 1] == steps[i]);
        match steps[0] {
            MacroStep::Ran(p) => {
                lemma_macro_failed_from(rest, i - 1, if p {
                    failures
                } else {
                    failures + 1
                });
            },
            _ => {},
        }
    }
}

} // verus!
