//! Building a version: whether make and automake are used, where the build happens,
//! which commands it runs, and what each command's exit makes of the build.

use vstd::prelude::*;
use crate::chars::{dashes_to_underscores, path_join, path_push, replace_dashes};
use crate::custom::AnvilCustomEnv;
use crate::env::{AmbosoEnv, AnvilKern};
use crate::semver::{
    lemma_semver_order_antisymmetric, lemma_semver_order_transitive, semver_order, semver_order_code,
    version_parts,
};

verus! {

/// Whether make and automake build version `tag` of an amboso-C project: each from its
/// first version on, in version order. Other kinds use neither.
pub open spec fn make_modes(env: AmbosoEnv, tag: Seq<char>) -> (bool, bool) {
    if env.anvil_kern == AnvilKern::AmbosoC {
        (semver_order(tag, env.mintag_make->0@) >= 0, semver_order(tag, env.mintag_automake->0@) >= 0)
    } else {
        (false, false)
    }
}

/// Whether make and automake build version `tag`; an error when the project does not
/// support the one that is needed.
pub fn choose_make_modes(env: &AmbosoEnv, tag: &str) -> (r: Result<(bool, bool), String>)
    requires
        env.anvil_kern == AnvilKern::AmbosoC ==> env.mintag_make is Some,
        env.anvil_kern == AnvilKern::AmbosoC && (env.support_makemode || semver_order(tag@, env.mintag_make->0@) < 0) ==> env.mintag_automake is Some,
    ensures
        env.anvil_kern != AnvilKern::AmbosoC ==> r == Ok::<(bool, bool), String>((false, false)),
        env.anvil_kern == AnvilKern::AmbosoC ==> ({
            let (m, a) = make_modes(*env, tag@);
            if m && !env.support_makemode {
                r matches Err(e) && e@ == "Missing makemode support"@
            } else if a && !env.support_automakemode {
                r matches Err(e) && e@ == "Missing automakemode support"@
            } else {
                r == Ok::<(bool, bool), String>((m, a))
            }
        }),
{
    match env.anvil_kern {
        AnvilKern::AmbosoC => {},
        _ => {
            return Ok((false, false));
        },
    }
    let use_make = match &env.mintag_make {
        Some(m) => semver_order_code(tag, m.as_str()) >= 0,
        None => false,
    };
    if use_make && !env.support_makemode {
        return Err(String::from_str("Missing makemode support"));
    }
    let use_automake = match &env.mintag_automake {
        Some(a) => semver_order_code(tag, a.as_str()) >= 0,
        None => false,
    };
    if use_automake && !env.support_automakemode {
        return Err(String::from_str("Missing automakemode support"));
    }
    Ok((use_make, use_automake))
}

/// The directory where a version is built: `./<builds dir>/v<version>/` in base mode,
/// `<builds dir>/v<version>/` in git mode.
pub open spec fn build_dir(builds_dir: Seq<char>, tag: Seq<char>, base_mode: bool) -> Seq<char> {
    (if base_mode {
        seq!['.', '/']
    } else {
        Seq::empty()
    }) + builds_dir + seq!['/', 'v'] + tag + seq!['/']
}

/// The build directory, the path of the source and the path of the binary of a build.
pub fn build_paths(builds_dir: &str, tag: &str, source: &str, bin: &str, base_mode: bool) -> (r: (
    String,
    String,
    String,
))
    ensures
        r.0@ == build_dir(builds_dir@, tag@, base_mode),
        r.1@ == path_join(r.0@, source@),
        r.2@ == path_join(r.0@, bin@),
{
    let mut d = if base_mode {
        String::from_str("./")
    } else {
        String::new()
    };
    d.append(builds_dir);
    d.append("/v");
    d.append(tag);
    d.append("/");
    proof {
        reveal_strlit("./");
        reveal_strlit("/v");
        reveal_strlit("/");
    }
    let s = path_push(d.as_str(), source);
    let b = path_push(d.as_str(), bin);
    (d, s, b)
}

/// The CFLAGS of a build: those given to the run when there are any; else, in base mode,
/// the `CFLAGS` environment variable (`env_cflags`), if set.
pub open spec fn build_cflags(cflags_arg: Seq<char>, env_cflags: Option<Seq<char>>, base_mode: bool) -> Seq<char> {
    if cflags_arg.len() > 0 {
        cflags_arg
    } else {
        match env_cflags {
            Some(c) => if base_mode {
                c
            } else {
                Seq::empty()
            },
            None => Seq::empty(),
        }
    }
}

/// The CFLAGS of a build.
pub fn cflags_choice(cflags_arg: &str, env_cflags: Option<String>, base_mode: bool) -> (r: String)
    ensures
        r@ == build_cflags(cflags_arg@, crate::chars::opt_text(env_cflags), base_mode),
{
    if cflags_arg.unicode_len() > 0 {
        return String::from_str(cflags_arg);
    }
    match env_cflags {
        Some(c) => if base_mode {
            c
        } else {
            String::new()
        },
        None => String::new(),
    }
}

/// The compiler of a single-file build: the `CC` environment variable (`env_cc`), else
/// `gcc`.
pub fn cc_choice(env_cc: Option<String>) -> (r: String)
    ensures
        env_cc matches Some(c) ==> r == c,
        env_cc is None ==> r@ == "gcc"@,
{
    match env_cc {
        Some(c) => c,
        None => String::from_str("gcc"),
    }
}

/// The views of a command line.
pub open spec fn argv_view(v: Seq<String>) -> Seq<Seq<char>> {
    v.map_values(|s: String| s@)
}

/// The command of a single-file build: `<cc> <cflags> <source> -o <binary> -lm`.
pub fn single_file_command(cc: String, cflags: String, source: String, bin: String) -> (r: Vec<String>)
    ensures
        argv_view(r@) == seq![cc@, cflags@, source@, "-o"@, bin@, "-lm"@],
{
    let mut r: Vec<String> = Vec::new();
    r.push(cc);
    r.push(cflags);
    r.push(source);
    r.push(String::from_str("-o"));
    r.push(bin);
    r.push(String::from_str("-lm"));
    assert(argv_view(r@) =~= seq![cc@, cflags@, source@, "-o"@, bin@, "-lm"@]);
    r
}

/// Whether a git-mode build looks whether HEAD is detached before it checks the version
/// out: from 2.0.11 on.
pub fn checks_detached_head(anvil_version: &str) -> (r: bool)
    ensures
        r == (semver_order(anvil_version@, "2.0.11"@) >= 0),
{
    semver_order_code(anvil_version, "2.0.11") >= 0
}

/// What the exit of one step of a build makes of it: it goes on after status 0; it fails
/// with `failed` after another status, and with `killed` when a signal ended it.
pub fn step_exit(code: Option<i32>, failed: &str, killed: &str) -> (r: Result<(), String>)
    ensures
        code == Some(0i32) ==> r is Ok,
        code matches Some(c) && c != 0 ==> (r matches Err(e) && e@ == failed@),
        code is None ==> (r matches Err(e) && e@ == killed@),
{
    match code {
        Some(c) => if c == 0 {
            Ok(())
        } else {
            Err(String::from_str(failed))
        },
        None => Err(String::from_str(killed)),
    }
}

/// `{<text>}`: a text between braces, as messages show names.
pub open spec fn braced(t: Seq<char>) -> Seq<char> {
    seq!['{'] + t + seq!['}']
}

/// The error of a build whose build step failed: `Build failed for {<version>}. Err: <e>`.
pub fn build_failed_message(tag: &str, e: &str) -> (r: String)
    ensures
        r@ == "Build failed for "@ + braced(tag@) + ". Err: "@ + e@,
{
    let mut r = String::from_str("Build failed for {");
    r.append(tag);
    r.append("}. Err: ");
    r.append(e);
    proof {
        reveal_strlit("Build failed for {");
        reveal_strlit("Build failed for ");
        reveal_strlit("}. Err: ");
        reveal_strlit(". Err: ");
    }
    assert(r@ =~= "Build failed for "@ + braced(tag@) + ". Err: "@ + e@);
    r
}

/// The error of a build that could not go back to the directory it started from.
pub fn cdback_failed_message(dir: &str) -> (r: String)
    ensures
        r@ == "cdback to "@ + braced(dir@) + " failed"@,
{
    let mut r = String::from_str("cdback to {");
    r.append(dir);
    r.append("} failed");
    proof {
        reveal_strlit("cdback to {");
        reveal_strlit("cdback to ");
        reveal_strlit("} failed");
        reveal_strlit(" failed");
    }
    assert(r@ =~= "cdback to "@ + braced(dir@) + " failed"@);
    r
}

/// The name of the build step's command: `make` for amboso-C; for anvilPy
/// `python -m build`, or `make` in a strict run below 2.1.0; for the custom kind, the
/// custom builder.
pub open spec fn build_step_name(
    kern: AnvilKern,
    strict: bool,
    anvil_version: Seq<char>,
    custom: Option<AnvilCustomEnv>,
) -> Option<Seq<char>> {
    match kern {
        AnvilKern::AmbosoC => Some("make"@),
        AnvilKern::AnvilPy => if strict && semver_order(anvil_version, "2.1.0"@) < 0 {
            Some("make"@)
        } else {
            Some("python -m build"@)
        },
        AnvilKern::Custom => match custom {
            Some(c) => Some(c.custom_builder@),
            None => None,
        },
    }
}

/// The build step's command: its name, as messages show it, and its command line. For
/// amboso-C: `make rebuild <cflags>`, or `make <cflags>` when no rebuild was asked for;
/// for anvilPy: the command and the CFLAGS; for the custom kind: the builder with the
/// build directory, the binary's name, the version and the stego.lock directory. An
/// error when a custom project has no builder.
pub fn build_step_command(
    env: &AmbosoEnv,
    strict: bool,
    no_rebuild: bool,
    cflags: &str,
    build_path: &str,
    bin: &str,
    tag: &str,
) -> (r: Result<(String, Vec<String>), String>)
    requires
        env.anvil_kern == AnvilKern::Custom && env.anvilcustom_env is Some ==> env.stego_dir is Some,
    ensures
        match build_step_name(env.anvil_kern, strict, env.anvil_version@, env.anvilcustom_env) {
            None => r matches Err(e) && e@ == "Missing anvilcustom_env"@,
            Some(name) => r matches Ok((n, argv)) && n@ == name && argv_view(argv@) == match env.anvil_kern {
                AnvilKern::AmbosoC => if no_rebuild {
                    seq![name, cflags@]
                } else {
                    seq!["make"@, "rebuild"@, cflags@]
                },
                AnvilKern::AnvilPy => seq![name, cflags@],
                AnvilKern::Custom => seq![name, build_path@, bin@, tag@, env.stego_dir->0@],
            },
        },
{
    let name = match env.anvil_kern {
        AnvilKern::AmbosoC => String::from_str("make"),
        AnvilKern::AnvilPy => {
            if strict && semver_order_code(env.anvil_version.as_str(), "2.1.0") < 0 {
                String::from_str("make")
            } else {
                String::from_str("python -m build")
            }
        },
        AnvilKern::Custom => match &env.anvilcustom_env {
            Some(c) => c.custom_builder.clone(),
            None => {
                return Err(String::from_str("Missing anvilcustom_env"));
            },
        },
    };
    let mut argv: Vec<String> = Vec::new();
    match env.anvil_kern {
        AnvilKern::AmbosoC => {
            if no_rebuild {
                argv.push(name.clone());
            } else {
                argv.push(String::from_str("make"));
                argv.push(String::from_str("rebuild"));
            }
            argv.push(String::from_str(cflags));
        },
        AnvilKern::AnvilPy => {
            argv.push(name.clone());
            argv.push(String::from_str(cflags));
        },
        AnvilKern::Custom => {
            let stego_dir = match &env.stego_dir {
                Some(d) => d.clone(),
                None => String::new(),
            };
            argv.push(name.clone());
            argv.push(String::from_str(build_path));
            argv.push(String::from_str(bin));
            argv.push(String::from_str(tag));
            argv.push(stego_dir);
        },
    }
    proof {
        assert(argv_view(argv@) =~= match env.anvil_kern {
            AnvilKern::AmbosoC => if no_rebuild {
                seq![name@, cflags@]
            } else {
                seq!["make"@, "rebuild"@, cflags@]
            },
            AnvilKern::AnvilPy => seq![name@, cflags@],
            AnvilKern::Custom => seq![name@, build_path@, bin@, tag@, env.stego_dir->0@],
        });
    }
    Ok((name, argv))
}

/// What the build step's exit makes of the build: after status 0, a git-mode build goes
/// on to the post-build step and any other is done; another status or a signal fails it.
pub enum StepNext {
    /// Go on to the post-build step.
    Postbuild,
    /// End the build step with this result.
    Done(Result<String, String>),
}

/// What the exit of the build step named `name` makes of the build.
pub fn build_step_exit(name: &str, code: Option<i32>, git_mode: bool) -> (r: StepNext)
    ensures
        code == Some(0i32) && git_mode ==> r is Postbuild,
        code == Some(0i32) && !git_mode ==> (r matches StepNext::Done(Ok(m)) && m@ == braced(name@)
            + " succeded"@),
        code matches Some(c) && c != 0 ==> (r matches StepNext::Done(Err(e)) && e@ == braced(name@)
            + " failed"@),
        code is None ==> (r matches StepNext::Done(Err(e)) && e@ == braced(name@) + " command failed"@),
{
    proof {
        reveal_strlit("{");
        reveal_strlit("} succeded");
        reveal_strlit(" succeded");
        reveal_strlit("} failed");
        reveal_strlit(" failed");
        reveal_strlit("} command failed");
        reveal_strlit(" command failed");
    }
    let mut m = String::from_str("{");
    m.append(name);
    match code {
        Some(c) => {
            if c == 0 {
                if git_mode {
                    StepNext::Postbuild
                } else {
                    m.append("} succeded");
                    assert(m@ =~= braced(name@) + " succeded"@);
                    StepNext::Done(Ok(m))
                }
            } else {
                m.append("} failed");
                assert(m@ =~= braced(name@) + " failed"@);
                StepNext::Done(Err(m))
            }
        },
        None => {
            m.append("} command failed");
            assert(m@ =~= braced(name@) + " command failed"@);
            StepNext::Done(Err(m))
        },
    }
}

/// The command that goes back to the branch or commit the build started from: `git
/// switch -`, with `--detach` when HEAD was detached.
pub fn switchback_command(head_was_detached: bool) -> (r: Vec<String>)
    ensures
        argv_view(r@) == (if head_was_detached {
            seq!["git"@, "switch"@, "-"@, "--detach"@]
        } else {
            seq!["git"@, "switch"@, "-"@]
        }),
{
    let mut r: Vec<String> = Vec::new();
    r.push(String::from_str("git"));
    r.push(String::from_str("switch"));
    r.push(String::from_str("-"));
    if head_was_detached {
        r.push(String::from_str("--detach"));
    }
    assert(argv_view(r@) =~= (if head_was_detached {
        seq!["git"@, "switch"@, "-"@, "--detach"@]
    } else {
        seq!["git"@, "switch"@, "-"@]
    }));
    r
}

/// The result of a build that went back to where it started and updated the submodules.
pub fn switchback_done(tag: &str) -> (r: String)
    ensures
        r@ == "Done build step for "@ + braced(tag@),
{
    let mut r = String::from_str("Done build step for {");
    r.append(tag);
    r.append("}");
    proof {
        reveal_strlit("Done build step for {");
        reveal_strlit("Done build step for ");
        reveal_strlit("}");
    }
    assert(r@ =~= "Done build step for "@ + braced(tag@));
    r
}

/// The names an anvilPy build produces: the project's name with `_` for `-`, then the
/// source distribution's name, its path under `./dist/`, the directory it unpacks to,
/// and the wheel's path.
pub open spec fn anvilpy_dist(proj_name: Seq<char>, tag: Seq<char>) -> (
    Seq<char>,
    Seq<char>,
    Seq<char>,
    Seq<char>,
    Seq<char>,
) {
    let p = dashes_to_underscores(proj_name);
    let srcdist = p + seq!['-'] + tag + ".tar.gz"@;
    (p, srcdist, path_join("./dist/"@, srcdist), p + seq!['-'] + tag, "./dist/"@ + p + seq!['-']
        + tag + "-py3-none-any.whl"@)
}

/// The names an anvilPy build produces.
pub fn anvilpy_dist_names(proj_name: &str, tag: &str) -> (r: (String, String, String, String, String))
    ensures
        (r.0@, r.1@, r.2@, r.3@, r.4@) == anvilpy_dist(proj_name@, tag@),
{
    proof {
        reveal_strlit("-");
        reveal_strlit(".tar.gz");
        reveal_strlit("./dist/");
        reveal_strlit("-py3-none-any.whl");
    }
    let p = replace_dashes(proj_name);
    let mut dir = p.clone();
    dir.append("-");
    dir.append(tag);
    let mut srcdist = dir.clone();
    srcdist.append(".tar.gz");
    let srcdist_path = path_push("./dist/", srcdist.as_str());
    let mut wheel = String::from_str("./dist/");
    wheel.append(dir.as_str());
    wheel.append("-py3-none-any.whl");
    assert(dir@ =~= p@ + seq!['-'] + tag@);
    assert(wheel@ =~= "./dist/"@ + p@ + seq!['-'] + tag@ + "-py3-none-any.whl"@);
    (p, srcdist, srcdist_path, dir, wheel)
}

/// What the post-build step does after the build step.
pub enum PostbuildPlan {
    /// Move the built file: run this command.
    Move(Vec<String>),
    /// Move the anvilPy distributions.
    MoveDists,
    /// The custom builder placed the binary itself: go back to where the build started.
    Switchback,
    /// End with this error.
    Fail(String),
}

/// What the post-build step does: amboso-C moves the binary into the build directory;
/// anvilPy moves its distributions; the custom kind goes back to where the build started
/// when its builder placed the binary, and moves it otherwise (outside git mode, a
/// binary already in place is an error).
pub fn postbuild_plan(kern: AnvilKern, git_mode: bool, bin: &str, bin_path: &str, bin_in_place: bool) -> (r:
    PostbuildPlan)
    ensures
        match kern {
            AnvilKern::AmbosoC => r matches PostbuildPlan::Move(argv) && argv_view(argv@) == seq![
                "mv"@,
                bin@,
                bin_path@,
            ],
            AnvilKern::AnvilPy => r is MoveDists,
            AnvilKern::Custom => if bin_in_place {
                if git_mode {
                    r is Switchback
                } else {
                    r matches PostbuildPlan::Fail(e) && e@ == "Unexpected mode in postbuild step"@
                }
            } else {
                r matches PostbuildPlan::Move(argv) && argv_view(argv@) == seq!["mv"@, bin@, bin_path@]
            },
        },
{
    match kern {
        AnvilKern::AnvilPy => PostbuildPlan::MoveDists,
        AnvilKern::Custom if bin_in_place => {
            if git_mode {
                PostbuildPlan::Switchback
            } else {
                PostbuildPlan::Fail(String::from_str("Unexpected mode in postbuild step"))
            }
        },
        _ => {
            let mut argv: Vec<String> = Vec::new();
            argv.push(String::from_str("mv"));
            argv.push(String::from_str(bin));
            argv.push(String::from_str(bin_path));
            assert(argv_view(argv@) =~= seq!["mv"@, bin@, bin_path@]);
            PostbuildPlan::Move(argv)
        },
    }
}

/// What a successful move makes of the post-build step: a git-mode build goes back to
/// where it started; any other is an error.
pub fn after_move(git_mode: bool) -> (r: Result<(), String>)
    ensures
        git_mode ==> r is Ok,
        !git_mode ==> (r matches Err(e) && e@ == "Unexpected mode in postbuild step"@),
{
    if git_mode {
        Ok(())
    } else {
        Err(String::from_str("Unexpected mode in postbuild step"))
    }
}

/// Make and automake build every version from their first one on: when they build
/// version `t1`, they build every version `t2` that does not come before it. Version
/// order is transitive among versions whose numeric cores have the same length, so the
/// law is stated for versions like that.
pub proof fn lemma_make_modes_monotone(env: AmbosoEnv, t1: Seq<char>, t2: Seq<char>)
    requires
        semver_order(t2, t1) >= 0,
        version_parts(t1).0.len() == version_parts(t2).0.len(),
        env.anvil_kern == AnvilKern::AmbosoC ==> version_parts(env.mintag_make->0@).0.len()
            == version_parts(t1).0.len() && version_parts(env.mintag_automake->0@).0.len()
            == version_parts(t1).0.len(),
    ensures
        make_modes(env, t1).0 ==> make_modes(env, t2).0,
        make_modes(env, t1).1 ==> make_modes(env, t2).1,
{
    if env.anvil_kern == AnvilKern::AmbosoC {
        let m = env.mintag_make->0@;
        let a = env.mintag_automake->0@;
        lemma_semver_order_antisymmetric(t2, t1);
        lemma_semver_order_antisymmetric(t1, m);
        lemma_semver_order_antisymmetric(t2, m);
        lemma_semver_order_antisymmetric(t1, a);
        lemma_semver_order_antisymmetric(t2, a);
        if semver_order(t1, m) >= 0 {
            lemma_semver_order_transitive(m, t1, t2);
        }
        if semver_order(t1, a) >= 0 {
            lemma_semver_order_transitive(a, t1, t2);
        }
    }
}

/// How a build goes on once its version is known.
pub enum BuildRoute {
    /// The build ends with this result.
    Done(Result<String, String>),
    /// Base mode, one source file: run this compiler command.
    SingleFile(Vec<String>),
    /// Base mode: in the build directory, run the build step with these CFLAGS.
    BaseStep { build_path: String, bin_path: String, cflags: String },
    /// Git mode: prepare automake first when `automake` holds; check the version out,
    /// update the submodules, then run the build step with these CFLAGS.
    GitStep { automake: bool, build_path: String, bin_path: String, cflags: String },
}

/// Whether a build gets past its version's directory and binary: the directory exists
/// and the binary is not there, or is a file and the build is forced.
pub open spec fn route_reached(dir_exists: bool, bin: crate::query::PathProbe, force: bool) -> bool {
    dir_exists && bin != crate::query::PathProbe::NotFile && !(bin is File && !force)
}

/// What a build that gets past its version's directory and binary needs of the project:
/// for amboso-C, the first make version, and the first automake version unless make is
/// needed and not supported; and the source, unless make or automake support is missing.
pub open spec fn build_prepared(env: AmbosoEnv, tag: Seq<char>) -> bool {
    &&& env.anvil_kern == AnvilKern::AmbosoC ==> env.mintag_make is Some
    &&& env.anvil_kern == AnvilKern::AmbosoC && (env.support_makemode || semver_order(tag, env.mintag_make->0@) < 0) ==> env.mintag_automake is Some
    &&& !(env.anvil_kern == AnvilKern::AmbosoC && ((make_modes(env, tag).0 && !env.support_makemode) || (
    make_modes(env, tag).1 && !env.support_automakemode))) ==> env.source is Some
}

/// How a build of version `tag` goes on, from whether its directory exists (after it
/// was created when missing), what is at its binary's path, and the `CFLAGS` and `CC`
/// environment variables. A ready binary ends the build unless forced; so does a
/// missing make or automake support. Base mode compiles the single source file when
/// make is not used for an amboso-C project, and otherwise runs the build step in the
/// build directory; git mode checks the version out first.
pub fn build_route(
    env: &AmbosoEnv,
    tag: &str,
    dir_exists: bool,
    bin: crate::query::PathProbe,
    force: bool,
    env_cflags: Option<String>,
    env_cc: Option<String>,
) -> (r: BuildRoute)
    requires
        crate::query::in_version_mode(*env),
        env.builds_dir is Some,
        dir_exists ==> env.bin is Some,
        route_reached(dir_exists, bin, force) ==> build_prepared(*env, tag@),
        route_reached(dir_exists, bin, force) && env.anvil_kern == AnvilKern::AmbosoC && make_modes(
            *env,
            tag@,
        ).1 && env.support_automakemode && !(make_modes(*env, tag@).0 && !env.support_makemode) ==> env.run_mode
            == Some(crate::env::AmbosoMode::GitMode),
    ensures
        ({
            let (m, a) = make_modes(*env, tag@);
            let base = env.run_mode == Some(crate::env::AmbosoMode::BaseMode);
            let bd = build_dir(env.builds_dir->0@, tag@, base);
            let cflags = build_cflags(env.cflags_arg@, crate::chars::opt_text(env_cflags), base);
            if !dir_exists {
                r matches BuildRoute::Done(Err(e)) && e@ == "No dir found"@
            } else if bin == crate::query::PathProbe::NotFile {
                r matches BuildRoute::Done(Err(e)) && e@ == "Not a file"@
            } else if bin is File && !force {
                r matches BuildRoute::Done(Ok(e)) && e@ == "File was ready"@
            } else if env.anvil_kern == AnvilKern::AmbosoC && m && !env.support_makemode {
                r matches BuildRoute::Done(Err(e)) && e@ == "Missing makemode support"@
            } else if env.anvil_kern == AnvilKern::AmbosoC && a && !env.support_automakemode {
                r matches BuildRoute::Done(Err(e)) && e@ == "Missing automakemode support"@
            } else if base {
                if env.anvil_kern == AnvilKern::AmbosoC && !m {
                    r matches BuildRoute::SingleFile(argv) && argv_view(argv@) == seq![
                        match env_cc {
                            Some(c) => c@,
                            None => "gcc"@,
                        },
                        cflags,
                        path_join(bd, env.source->0@),
                        "-o"@,
                        path_join(bd, env.bin->0@),
                        "-lm"@,
                    ]
                } else {
                    r matches BuildRoute::BaseStep { build_path, bin_path, cflags: c } && build_path@ == bd
                        && bin_path@ == path_join(bd, env.bin->0@) && c@ == cflags
                }
            } else {
                r matches BuildRoute::GitStep { automake, build_path, bin_path, cflags: c } && automake == a
                    && build_path@ == bd && bin_path@ == path_join(bd, env.bin->0@) && c@ == cflags
            }
        }),
{
    match crate::query::build_target_verdict(dir_exists, bin, force) {
        Some(r) => {
            return BuildRoute::Done(r);
        },
        None => {},
    }
    let (use_make, use_automake) = match choose_make_modes(env, tag) {
        Ok(p) => p,
        Err(e) => {
            return BuildRoute::Done(Err(e));
        },
    };
    let base = match env.run_mode {
        Some(crate::env::AmbosoMode::BaseMode) => true,
        _ => false,
    };
    let builds = match &env.builds_dir {
        Some(b) => b.as_str(),
        None => "",
    };
    let source = match &env.source {
        Some(s) => s.as_str(),
        None => "",
    };
    let bin_name = match &env.bin {
        Some(b) => b.as_str(),
        None => "",
    };
    let (build_path, source_path, bin_path) = build_paths(builds, tag, source, bin_name, base);
    let cflags = cflags_choice(env.cflags_arg.as_str(), env_cflags, base);
    if base {
        match env.anvil_kern {
            AnvilKern::AmbosoC => {
                if !use_make {
                    let cc = cc_choice(env_cc);
                    return BuildRoute::SingleFile(single_file_command(cc, cflags, source_path, bin_path));
                }
            },
            _ => {},
        }
        BuildRoute::BaseStep { build_path, bin_path, cflags }
    } else {
        BuildRoute::GitStep { automake: use_automake, build_path, bin_path, cflags }
    }
}

/// Whether a build can take its route without failing on a missing setting: what
/// `build_route` needs of the project; a caller fails where it does not hold.
pub fn build_route_ready(
    env: &AmbosoEnv,
    tag: &str,
    dir_exists: bool,
    bin: crate::query::PathProbe,
    force: bool,
) -> (r: bool)
    ensures
        r == ({
            &&& crate::query::in_version_mode(*env)
            &&& env.builds_dir is Some
            &&& dir_exists ==> env.bin is Some
            &&& route_reached(dir_exists, bin, force) ==> build_prepared(*env, tag@)
            &&& route_reached(dir_exists, bin, force) && env.anvil_kern == AnvilKern::AmbosoC && make_modes(
                *env,
                tag@,
            ).1 && env.support_automakemode && !(make_modes(*env, tag@).0 && !env.support_makemode)
                ==> env.run_mode == Some(crate::env::AmbosoMode::GitMode)
        }),
{
    let git = match env.run_mode {
        Some(crate::env::AmbosoMode::GitMode) => true,
        _ => false,
    };
    let base = match env.run_mode {
        Some(crate::env::AmbosoMode::BaseMode) => true,
        _ => false,
    };
    if !(git || base) || env.builds_dir.is_none() || (dir_exists && env.bin.is_none()) {
        return false;
    }
    let not_file = match bin {
        crate::query::PathProbe::NotFile => true,
        _ => false,
    };
    let file = match bin {
        crate::query::PathProbe::File { .. } => true,
        _ => false,
    };
    let reached = dir_exists && !not_file && !(file && !force);
    if !reached {
        return true;
    }
    match env.anvil_kern {
        AnvilKern::AmbosoC => {},
        _ => {
            return env.source.is_some();
        },
    }
    let m = match &env.mintag_make {
        None => {
            return false;
        },
        Some(x) => semver_order_code(tag, x.as_str()) >= 0,
    };
    if (env.support_makemode || !m) && env.mintag_automake.is_none() {
        return false;
    }
    let make_missing = m && !env.support_makemode;
    let a = match &env.mintag_automake {
        Some(x) => semver_order_code(tag, x.as_str()) >= 0,
        None => false,
    };
    if !make_missing && !(a && !env.support_automakemode) && env.source.is_none() {
        return false;
    }
    if a && env.support_automakemode && !make_missing && !git {
        return false;
    }
    true
}

} // verus!
