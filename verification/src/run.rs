//! The decisions taken while a run checks its arguments against the project: which
//! anvil versions it accepts, how arguments and stego.lock settings complete each other,
//! and which mode and operations the run ends up with.

use vstd::prelude::*;
use crate::args::Args;
use crate::chars::{opt_text, same_text, starts_with_text, has_prefix};
use crate::env::{AmbosoConf, AmbosoEnv, AmbosoMode, AnvilKern, kern_name};
use crate::semver::{is_semver, is_strict_semver, semver_order, semver_order_code};
use crate::stego::{later_2_0, lemma_later_2_0_patches, lemma_patch_2_0_texts, patch_2_0};

verus! {

/// What checking the anvil version argument decides: whether the stego.lock version is
/// to be replaced by the run's, whether strict mode is turned on, and whether the kind of
/// project is fixed to amboso-C.
pub struct VersionArgOutcome {
    pub override_stego_version: bool,
    pub set_strict: bool,
    pub set_amboso_c: bool,
}

/// The outcome of checking the anvil version argument `x`: 2.0.0 turns strict mode on
/// (and so the extensions off); up to 2.0.3 the kind of project is amboso-C; from 2.0.3
/// on the run's version replaces the stego.lock's. Legacy versions from 1.0.0 up to (not
/// including) 1.8.0 are accepted as they are.
pub open spec fn version_arg_outcome(x: Seq<char>) -> Result<(bool, bool, bool), Seq<char>> {
    // (override, sets strict, sets amboso-C kern)
    if !is_strict_semver(x) {
        Err("Invalid anvil_version"@)
    } else if has_prefix(x, "2.0"@) {
        if x == "2.0.0"@ {
            Ok((semver_order(x, "2.0.3"@) >= 0, true, true))
        } else if x == "2.0.1"@ || x == "2.0.2"@ || x == "2.0.3"@ {
            Ok((semver_order(x, "2.0.3"@) >= 0, false, true))
        } else if later_2_0(x) {
            Ok((semver_order(x, "2.0.3"@) >= 0, false, false))
        } else {
            Err("Invalid anvil_version"@)
        }
    } else if has_prefix(x, "2.1"@) {
        if x == "2.1.0"@ {
            Ok((false, false, false))
        } else {
            Err("Invalid anvil_version"@)
        }
    } else if semver_order(x, "1.8.0"@) < 0 && semver_order(x, "1.0.0"@) >= 0 {
        Ok((false, false, false))
    } else {
        Err("Invalid anvil_version"@)
    }
}

/// An anvil version argument 2.0.p, p from 1 to 12 (a strict version), is accepted and
/// does not turn strict mode on; up to 2.0.3 it fixes the kind of project to amboso-C,
/// and from 2.0.4 on it leaves the kind alone.
pub proof fn lemma_version_arg_2_0_patch_accepted(p: nat)
    requires
        1 <= p <= 12,
        is_strict_semver(patch_2_0(p)),
    ensures
        version_arg_outcome(patch_2_0(p)) matches Ok((_, st, kc)) && !st && (kc <==> p <= 3),
{
    lemma_later_2_0_patches(patch_2_0(p));
    lemma_patch_2_0_texts();
    reveal_strlit("2.0");
    reveal_strlit("2.0.");
    reveal_strlit("2.0.0");
    assert(patch_2_0(p).take(3) =~= "2.0"@);
    assert(patch_2_0(p) != "2.0.0"@) by {
        if p < 10 {
            assert(patch_2_0(p)[4] != "2.0.0"@[4]);
        } else {
            assert(patch_2_0(p).len() != "2.0.0"@.len());
        }
    }
    if p > 3 {
        assert(patch_2_0(p) != "2.0.1"@ && patch_2_0(p) != "2.0.2"@ && patch_2_0(p) != "2.0.3"@) by {
            if p < 10 {
                assert(patch_2_0(p)[4] != "2.0.1"@[4]);
                assert(patch_2_0(p)[4] != "2.0.2"@[4]);
                assert(patch_2_0(p)[4] != "2.0.3"@[4]);
            }
        }
    }
}

/// Checks the anvil version argument; it changes nothing itself (see `apply_version_arg`).
pub fn check_anvil_version_arg(args: &Args) -> (r: Result<VersionArgOutcome, String>)
    ensures
        args.anvil_version is None ==> (r matches Ok(o) && !o.override_stego_version && !o.set_strict
            && !o.set_amboso_c),
        args.anvil_version matches Some(x) ==> match (r, version_arg_outcome(x@)) {
            (Ok(o), Ok((ov, st, kc))) => o.override_stego_version == ov && o.set_strict == st
                && o.set_amboso_c == kc,
            (Err(e), Err(f)) => e@ == f,
            _ => false,
        },
{
    let x = match &args.anvil_version {
        None => {
            return Ok(VersionArgOutcome { override_stego_version: false, set_strict: false, set_amboso_c: false });
        },
        Some(x) => x.as_str(),
    };
    if !is_semver(x) {
        return Err(String::from_str("Invalid anvil_version"));
    }
    if starts_with_text(x, "2.0") {
        let (st, kc) = if same_text(x, "2.0.0") {
            (true, true)
        } else if same_text(x, "2.0.1") || same_text(x, "2.0.2") || same_text(x, "2.0.3") {
            (false, true)
        } else if crate::stego::is_later_2_0(x) {
            (false, false)
        } else {
            return Err(String::from_str("Invalid anvil_version"));
        };
        let ov = semver_order_code(x, "2.0.3") >= 0;
        Ok(VersionArgOutcome { override_stego_version: ov, set_strict: st, set_amboso_c: kc })
    } else if starts_with_text(x, "2.1") {
        if same_text(x, "2.1.0") {
            Ok(VersionArgOutcome { override_stego_version: false, set_strict: false, set_amboso_c: false })
        } else {
            Err(String::from_str("Invalid anvil_version"))
        }
    } else if semver_order_code(x, "1.8.0") < 0 && semver_order_code(x, "1.0.0") >= 0 {
        Ok(VersionArgOutcome { override_stego_version: false, set_strict: false, set_amboso_c: false })
    } else {
        Err(String::from_str("Invalid anvil_version"))
    }
}

/// Applies what the version argument decided: strict mode on, the kind fixed to
/// amboso-C; every other argument stays.
pub fn apply_version_arg(args: Args, o: &VersionArgOutcome) -> (r: Args)
    ensures
        r == (Args { strict: args.strict || o.set_strict, anvil_kern: r.anvil_kern, ..args }),
        o.set_amboso_c ==> opt_text(r.anvil_kern) == Some("amboso-C"@),
        !o.set_amboso_c ==> r.anvil_kern == args.anvil_kern,
{
    let strict = args.strict || o.set_strict;
    if o.set_amboso_c {
        Args { strict, anvil_kern: Some(String::from_str(AnvilKern::AmbosoC.as_text())), ..args }
    } else {
        Args { strict, ..args }
    }
}

/// The amboso directory argument, which a run needs.
pub fn amboso_dir_arg(args: &Args) -> (r: Result<String, String>)
    ensures
        args.amboso_dir matches Some(d) ==> r == Ok::<String, String>(d),
        args.amboso_dir is None ==> (r matches Err(e) && e@ == "Missing amboso_dir arg"@),
{
    match &args.amboso_dir {
        Some(d) => Ok(d.clone()),
        None => Err(String::from_str("Missing amboso_dir arg")),
    }
}

/// Whether the run reads the global configuration in `$HOME/.anvil/anvil.toml`: not when
/// strict.
pub fn reads_global_conf(args: &Args) -> (r: bool)
    ensures
        r == !args.strict,
{
    !args.strict
}

/// Git mode, unless base, test or test-macro mode was asked for.
pub fn default_to_git_mode(args: &mut Args)
    ensures
        *final(args) == (Args {
            git: old(args).git || (!old(args).base && !old(args).test && !old(args).testmacro),
            ..*old(args)
        }),
{
    if !args.base && !args.test && !args.testmacro {
        args.git = true;
    }
}

/// Whether the run checks that the repository is clean: not when asked to ignore the
/// check, nor in base mode.
pub fn needs_git_check(args: &Args) -> (r: bool)
    ensures
        r == !(args.ignore_gitcheck || args.base),
{
    !(args.ignore_gitcheck || args.base)
}

/// The verdict on the repository check: a dirty repository stops a git-mode run.
pub fn git_check_outcome(clean: Result<bool, String>) -> (r: Result<(), String>)
    ensures
        clean == Ok::<bool, String>(true) ==> r is Ok,
        clean == Ok::<bool, String>(false) ==> (r matches Err(e) && e@ == "Dirty repo with git mode on"@),
        clean matches Err(e) ==> r == Err::<(), String>(e),
{
    match clean {
        Ok(true) => Ok(()),
        Ok(false) => Err(String::from_str("Dirty repo with git mode on")),
        Err(e) => Err(e),
    }
}

/// Fills the version and kind arguments that were not given from the global configuration.
pub fn apply_global_conf(args: Args, conf: AmbosoConf) -> (r: Args)
    ensures
        args.anvil_version is Some ==> r.anvil_version == args.anvil_version,
        args.anvil_version is None ==> r.anvil_version == Some(conf.anvil_version),
        args.anvil_kern is Some ==> r.anvil_kern == args.anvil_kern,
        args.anvil_kern is None ==> opt_text(r.anvil_kern) == Some(kern_name(conf.anvil_kern)),
        r == (Args { anvil_version: r.anvil_version, anvil_kern: r.anvil_kern, ..args }),
{
    let anvil_version = match args.anvil_version {
        Some(v) => Some(v),
        None => Some(conf.anvil_version),
    };
    let anvil_kern = match args.anvil_kern {
        Some(k) => Some(k),
        None => Some(String::from_str(conf.anvil_kern.as_text())),
    };
    Args { anvil_version, anvil_kern, ..args }
}

/// The directory for builds: the one given, or the working directory.
pub fn builds_dir_of(args: &Args) -> (r: String)
    ensures
        args.builds_dir matches Some(b) ==> r@ == b@,
        args.builds_dir is None ==> r@ == "."@,
{
    match &args.builds_dir {
        Some(b) => b.clone(),
        None => String::from_str("."),
    }
}

/// Takes the environment read from the stego.lock; when the run's version (`passed`,
/// the compatibility level given with `-a`) is to replace the stego.lock's, the version
/// becomes the passed one.
pub fn adopt_stego_env(a: AmbosoEnv, override_stego_version: bool, passed: &str) -> (r: AmbosoEnv)
    ensures
        override_stego_version ==> r.anvil_version@ == passed@,
        !override_stego_version ==> r.anvil_version == a.anvil_version,
        r == (AmbosoEnv { anvil_version: r.anvil_version, ..a }),
{
    if override_stego_version {
        AmbosoEnv { anvil_version: String::from_str(passed), ..a }
    } else {
        a
    }
}

/// Whether a strict run below 2.1.0 skips reading the settings of the anvilPy or custom kern.
pub fn skips_kern_settings(strict: bool, anvil_version: &str) -> (r: bool)
    ensures
        r == (strict && semver_order(anvil_version@, "2.1.0"@) < 0),
{
    strict && semver_order_code(anvil_version, "2.1.0") < 0
}

/// An anvilPy project must build with setuptools.
pub fn check_build_backend(backend: &str) -> (r: Result<(), String>)
    ensures
        r is Ok <==> backend@ == "setuptools.build_meta"@,
        r matches Err(e) ==> e@ == "Unexpected build system"@,
{
    if same_text(backend, "setuptools.build_meta") {
        Ok(())
    } else {
        Err(String::from_str("Unexpected build system"))
    }
}

/// What a request for the C header needs: the tag and the binary name; none when no
/// header was asked for.
pub fn c_header_request(args: &Args, env: &AmbosoEnv) -> (r: Option<Result<(String, String), String>>)
    ensures
        args.gen_c_header is None ==> r is None,
        args.gen_c_header is Some ==> match r {
            Some(Ok((t, b))) => args.tag == Some(t) && env.bin == Some(b),
            Some(Err(e)) => (args.tag is None && e@ == "Missing query tag for C header gen"@) || (
            args.tag is Some && env.bin is None && e@ == "Missing bin name for C header gen"@),
            None => false,
        },
{
    if args.gen_c_header.is_none() {
        return None;
    }
    match &args.tag {
        None => Some(Err(String::from_str("Missing query tag for C header gen"))),
        Some(q) => match &env.bin {
            None => Some(Err(String::from_str("Missing bin name for C header gen"))),
            Some(b) => Some(Ok((q.clone(), b.clone()))),
        },
    }
}

/// The tests directory used when neither the arguments nor the stego.lock name one.
pub open spec fn default_kazoj() -> Seq<char> {
    "./kazoj"@
}

/// How the tests directory is settled, from the given directory, the stego.lock's and
/// whether each of them and `./kazoj` exist, to the settled directory, the environment's
/// tests directory and test-mode support.
pub open spec fn tests_dir_settled(
    kazoj: Option<String>,
    tests: Option<String>,
    testmode: bool,
    given_exists: bool,
    stego_exists: bool,
    default_exists: bool,
    kazoj2: Option<String>,
    tests2: Option<String>,
    testmode2: bool,
) -> bool {
    if kazoj is Some {
        &&& kazoj2 == kazoj
        &&& tests2 == (if given_exists { kazoj } else { tests })
        &&& testmode2 == testmode
    } else if tests is Some && stego_exists {
        &&& kazoj2 == tests
        &&& tests2 == tests
        &&& testmode2 == testmode
    } else {
        &&& opt_text(kazoj2) == Some(default_kazoj())
        &&& default_exists ==> opt_text(tests2) == Some(default_kazoj()) && testmode2 == testmode
        &&& !default_exists ==> tests2 == tests && !testmode2
    }
}

/// Settles the tests directory: the given one (taken for the environment when it
/// exists), else the stego.lock's when it exists, else `./kazoj` (taken when it exists;
/// test mode is off when it does not). `given_exists`, `stego_exists` and
/// `default_exists` say whether the given directory, the stego.lock's and `./kazoj` exist.
pub fn settle_tests_dir(
    kazoj_dir: &mut Option<String>,
    tests_dir: &mut Option<String>,
    support_testmode: &mut bool,
    given_exists: bool,
    stego_exists: bool,
    default_exists: bool,
)
    ensures
        tests_dir_settled(
            *old(kazoj_dir),
            *old(tests_dir),
            *old(support_testmode),
            given_exists,
            stego_exists,
            default_exists,
            *final(kazoj_dir),
            *final(tests_dir),
            *final(support_testmode),
        ),
{
    match kazoj_dir {
        Some(x) => {
            if given_exists {
                *tests_dir = Some(x.clone());
            }
        },
        None => {
            let use_stego = match tests_dir {
                Some(_) => stego_exists,
                None => false,
            };
            if use_stego {
                *kazoj_dir = tests_dir.clone();
            } else {
                *kazoj_dir = Some(String::from_str("./kazoj"));
                if default_exists {
                    *tests_dir = Some(String::from_str("./kazoj"));
                } else {
                    *support_testmode = false;
                }
            }
        },
    }
}

/// Settles a name that both the arguments and the stego.lock may give (source, binary):
/// the argument wins and is copied to the environment, else the stego.lock's is copied
/// to the arguments; false, with nothing changed, when neither gives one.
pub fn settle_name(arg: &mut Option<String>, stego: &mut Option<String>) -> (found: bool)
    ensures
        found == ((*old(arg)) is Some || (*old(stego)) is Some),
        found ==> *final(stego) == (if (*old(arg)) is Some { *old(arg) } else { *old(stego) }),
        found ==> *final(arg) == *final(stego),
        !found ==> *final(arg) == *old(arg) && *final(stego) == *old(stego),
{
    match arg {
        Some(_) => {
            *stego = arg.clone();
            true
        },
        None => match stego {
            Some(_) => {
                *arg = stego.clone();
                true
            },
            None => false,
        },
    }
}

/// How the first make version and the make and automake modes are settled: the given
/// version wins; else the stego.lock's is taken, and automake is supported exactly when
/// the stego.lock names an automake version; with neither, make mode is off.
pub open spec fn make_settled(
    maketag: Option<String>,
    mintag_make: Option<String>,
    mintag_automake: Option<String>,
    makemode: bool,
    automakemode: bool,
    maketag2: Option<String>,
    mintag_make2: Option<String>,
    makemode2: bool,
    automakemode2: bool,
) -> bool {
    if maketag is Some {
        &&& maketag2 == maketag && mintag_make2 == maketag
        &&& makemode2 == makemode && automakemode2 == automakemode
    } else if mintag_make is Some {
        &&& maketag2 == mintag_make && mintag_make2 == mintag_make
        &&& makemode2 == makemode && automakemode2 == (mintag_automake is Some)
    } else {
        &&& maketag2 is None && mintag_make2 is None
        &&& !makemode2 && automakemode2 == automakemode
    }
}

/// Settles the first make version and the make and automake modes.
pub fn settle_make(
    maketag: &mut Option<String>,
    mintag_make: &mut Option<String>,
    mintag_automake: &Option<String>,
    support_makemode: &mut bool,
    support_automakemode: &mut bool,
)
    ensures
        make_settled(
            *old(maketag),
            *old(mintag_make),
            *mintag_automake,
            *old(support_makemode),
            *old(support_automakemode),
            *final(maketag),
            *final(mintag_make),
            *final(support_makemode),
            *final(support_automakemode),
        ),
{
    match maketag {
        Some(_) => {
            *mintag_make = maketag.clone();
        },
        None => match mintag_make {
            Some(_) => {
                *maketag = mintag_make.clone();
                *support_automakemode = mintag_automake.is_some();
            },
            None => {
                *support_makemode = false;
            },
        },
    }
}

/// Completes the arguments and the environment from each other: the tests directory,
/// then source and binary (given, else from the stego.lock, which must then have them),
/// then the first make version, then CFLAGS. The three flags say whether the given tests
/// directory, the stego.lock's and `./kazoj` exist.
pub fn settle_env(
    args: Args,
    env: AmbosoEnv,
    given_exists: bool,
    stego_exists: bool,
    default_exists: bool,
) -> (r: Result<(Args, AmbosoEnv), String>)
    ensures
        env.amboso_dir is None ==> (r matches Err(e) && e@ == "anvil_env.amboso_dir was empty"@),
        env.amboso_dir is Some ==> {
            &&& r is Err <==> (args.source is None && env.source is None) || (args.execname is None
                && env.bin is None)
            &&& r matches Err(e) ==> (if args.source is None && env.source is None {
                e@ == "Could not determine anvil_env.source"@
            } else {
                e@ == "Could not determine anvil_env.bin arg"@
            })
        },
        r matches Ok((a, e)) ==> {
            &&& tests_dir_settled(
                args.kazoj_dir,
                env.tests_dir,
                env.support_testmode,
                given_exists,
                stego_exists,
                default_exists,
                a.kazoj_dir,
                e.tests_dir,
                e.support_testmode,
            )
            &&& e.source == (if args.source is Some { args.source } else { env.source })
            &&& a.source == e.source
            &&& e.bin == (if args.execname is Some { args.execname } else { env.bin })
            &&& a.execname == e.bin
            &&& make_settled(
                args.maketag,
                env.mintag_make,
                env.mintag_automake,
                env.support_makemode,
                env.support_automakemode,
                a.maketag,
                e.mintag_make,
                e.support_makemode,
                e.support_automakemode,
            )
            &&& e.cflags_arg == (match args.cflags {
                Some(c) => c,
                None => env.cflags_arg,
            })
            &&& e == (AmbosoEnv {
                tests_dir: e.tests_dir,
                support_testmode: e.support_testmode,
                source: e.source,
                bin: e.bin,
                mintag_make: e.mintag_make,
                support_makemode: e.support_makemode,
                support_automakemode: e.support_automakemode,
                cflags_arg: e.cflags_arg,
                ..env
            })
            &&& a == (Args {
                kazoj_dir: a.kazoj_dir,
                source: a.source,
                execname: a.execname,
                maketag: a.maketag,
                ..args
            })
        },
{
    if env.amboso_dir.is_none() {
        return Err(String::from_str("anvil_env.amboso_dir was empty"));
    }
    let mut kazoj_dir = args.kazoj_dir.clone();
    let mut tests_dir = env.tests_dir.clone();
    let mut support_testmode = env.support_testmode;
    settle_tests_dir(
        &mut kazoj_dir,
        &mut tests_dir,
        &mut support_testmode,
        given_exists,
        stego_exists,
        default_exists,
    );
    let mut source = args.source.clone();
    let mut env_source = env.source.clone();
    if !settle_name(&mut source, &mut env_source) {
        return Err(String::from_str("Could not determine anvil_env.source"));
    }
    let mut execname = args.execname.clone();
    let mut bin = env.bin.clone();
    if !settle_name(&mut execname, &mut bin) {
        return Err(String::from_str("Could not determine anvil_env.bin arg"));
    }
    let mut maketag = args.maketag.clone();
    let mut mintag_make = env.mintag_make.clone();
    let mut support_makemode = env.support_makemode;
    let mut support_automakemode = env.support_automakemode;
    settle_make(
        &mut maketag,
        &mut mintag_make,
        &env.mintag_automake,
        &mut support_makemode,
        &mut support_automakemode,
    );
    let cflags_arg = match &args.cflags {
        Some(c) => c.clone(),
        None => env.cflags_arg.clone(),
    };
    let e = AmbosoEnv {
        tests_dir,
        support_testmode,
        source: env_source,
        bin,
        mintag_make,
        support_makemode,
        support_automakemode,
        cflags_arg,
        ..env
    };
    let a = Args { kazoj_dir, source, execname, maketag, ..args };
    Ok((a, e))
}

/// The text after a leading sign, if any.
pub open spec fn unsigned_part(s: Seq<char>) -> Seq<char> {
    if s.len() > 0 && (s[0] == '+' || s[0] == '-') {
        s.drop_first()
    } else {
        s
    }
}

/// Whether the text reads as the `i32` zero (`str::parse::<i32>` gives 0): a sign at
/// most, then one or more zeros.
pub open spec fn zero_text(s: Seq<char>) -> bool {
    &&& unsigned_part(s).len() > 0
    &&& forall|i: int| 0 <= i < unsigned_part(s).len() ==> #[trigger] unsigned_part(s)[i] == '0'
}

/// Whether the configuration argument names a file to read (the default), or is itself
/// the configure argument: only when `AMBOSO_CONFIG_FLAG_ARG_ISFILE` reads as 0.
pub fn config_arg_is_file(var: Option<&str>) -> (r: bool)
    ensures
        r == !(var matches Some(v) && zero_text(v@)),
{
    let v = match var {
        None => {
            return true;
        },
        Some(v) => v,
    };
    let c = crate::chars::to_chars(v);
    let mut start: usize = 0;
    if c.len() > 0 && (c[0] == '+' || c[0] == '-') {
        start = 1;
    }
    let ghost d = unsigned_part(v@);
    assert(d =~= c@.subrange(start as int, c@.len() as int));
    if start == c.len() {
        return true;
    }
    let mut i = start;
    while i < c.len()
        invariant
            var == Some(v),
            c@ == v@,
            d == unsigned_part(v@),
            start <= i <= c@.len(),
            d == c@.subrange(start as int, c@.len() as int),
            forall|j: int| start <= j < i ==> c@[j] == '0',
        decreases c@.len() - i,
    {
        if c[i] != '0' {
            assert(d[i - start] != '0');
            return true;
        }
        i = i + 1;
    }
    assert forall|j: int| 0 <= j < d.len() implies #[trigger] d[j] == '0' by {
        assert(d[j] == c@[j + start]);
    }
    false
}

/// The mode of the run from its flags, first match among git, base, test and test macro.
pub open spec fn mode_of(args: Args) -> Option<AmbosoMode> {
    if args.git {
        Some(AmbosoMode::GitMode)
    } else if args.base {
        Some(AmbosoMode::BaseMode)
    } else if args.test {
        Some(AmbosoMode::TestMode)
    } else if args.testmacro {
        Some(AmbosoMode::TestMacro)
    } else {
        None
    }
}

/// Sets the configure argument (when one was given), the run mode and the operations;
/// a strict run turns the extensions off.
pub fn finish_env(args: &Args, env: AmbosoEnv, configure_arg: Option<String>) -> (r: AmbosoEnv)
    requires
        mode_of(*args) is Some,
    ensures
        r == (AmbosoEnv {
            configure_arg: match configure_arg {
                Some(c) => c,
                None => env.configure_arg,
            },
            run_mode: mode_of(*args),
            enable_extensions: env.enable_extensions && !args.strict,
            do_build: args.build,
            do_run: args.run,
            do_delete: args.delete,
            do_init: args.init,
            do_purge: args.purge,
            ..env
        }),
{
    let run_mode = if args.git {
        Some(AmbosoMode::GitMode)
    } else if args.base {
        Some(AmbosoMode::BaseMode)
    } else if args.test {
        Some(AmbosoMode::TestMode)
    } else {
        Some(AmbosoMode::TestMacro)
    };
    let configure_arg = match configure_arg {
        Some(c) => c,
        None => env.configure_arg.clone(),
    };
    AmbosoEnv {
        configure_arg,
        run_mode,
        enable_extensions: env.enable_extensions && !args.strict,
        do_build: args.build,
        do_run: args.run,
        do_delete: args.delete,
        do_init: args.init,
        do_purge: args.purge,
        ..env
    }
}

} // verus!
