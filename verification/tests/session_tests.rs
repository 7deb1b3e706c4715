use invil::args::Args;
use invil::building::build_step_command;
use invil::custom::AnvilCustomEnv;
use invil::env::{AmbosoConf, AmbosoEnv, AmbosoMode, AnvilKern};
use invil::query::{query_plan, QueryPlan};
use invil::run::{
    adopt_stego_env, apply_global_conf, apply_version_arg, c_header_request, check_anvil_version_arg,
    config_arg_is_file, finish_env, settle_env,
};
use invil::semver::SemVerKey;
use invil::session::{latest_tag, session_plan, test_subcommand, SessionOp};
use invil::stego::parse_stego_tomlvalue;

fn args() -> Args {
    Args {
        amboso_dir: Some("./bin".to_string()),
        stego_dir: Some(".".to_string()),
        builds_dir: Some(".".to_string()),
        kazoj_dir: None,
        source: None,
        execname: None,
        maketag: None,
        anvil_version: Some("2.1.0".to_string()),
        anvil_kern: Some("amboso-C".to_string()),
        gen_c_header: None,
        linter: None,
        test: false,
        base: false,
        git: false,
        testmacro: false,
        tag: None,
        init: false,
        purge: false,
        delete: false,
        build: false,
        run: false,
        list: false,
        list_all: false,
        quiet: false,
        silent: false,
        verbose: 3,
        watch: false,
        version: false,
        warranty: false,
        ignore_gitcheck: false,
        logged: false,
        no_color: false,
        force: false,
        no_rebuild: false,
        config: None,
        cflags: None,
        strict: false,
        command: None,
        extra_args: Vec::new(),
    }
}

fn env() -> AmbosoEnv {
    AmbosoEnv::new(Some("./bin".to_string()), Some(".".to_string()), Some(".".to_string()))
}

fn keys(t: &[(SemVerKey, String)]) -> Vec<String> {
    t.iter().map(|e| e.0 .0.clone()).collect()
}

const STEGO: &str = "[build]\nsource = \"main.c\"\nbin = \"hello\"\nmakevers = \"0.1.0\"\nautomakevers = \"0.2.0\"\ntests = \"tests\"\n[tests]\ntestsdir = \"ok\"\nerrortestsdir = \"errors\"\n[versions]\n\"0.1.0\" = \"first\"\n\"0.10.0\" = \"tenth\"\n\"0.2.0\" = \"second\"\n\"B0.3.0\" = \"base\"\n";

#[test]
fn version_tables_keep_version_order() {
    let mut e = parse_stego_tomlvalue(STEGO, "./bin", ".", ".").expect("reads");
    assert_eq!(keys(&e.gitmode_versions_table), vec!["0.1.0", "0.2.0", "0.10.0"]);
    assert_eq!(keys(&e.basemode_versions_table), vec!["0.3.0"]);
    e.run_mode = Some(AmbosoMode::GitMode);
    // the latest version is the greatest one, not the last in text order
    assert_eq!(latest_tag(&e), Some("0.10.0".to_string()));
    e.run_mode = Some(AmbosoMode::BaseMode);
    assert_eq!(latest_tag(&e), Some("0.3.0".to_string()));
}

#[test]
fn test_mode_needs_the_build_tests_directory() {
    let e = parse_stego_tomlvalue("[tests]\ntestsdir = \"ok\"\nerrortestsdir = \"errors\"\n", "b", ".", ".")
        .expect("reads");
    assert!(!e.support_testmode);
}

#[test]
fn stego_errors() {
    assert_eq!(
        parse_stego_tomlvalue("[versions]\n\"1.0\" = \"x\"\n", "b", ".", ".").err(),
        Some("Invalid semver key".to_string())
    );
    assert_eq!(parse_stego_tomlvalue("[build\n", "b", ".", ".").err(), Some("Failed parsing TOML".to_string()));
    assert_eq!(
        parse_stego_tomlvalue("[build]\nbin = 3\n", "b", ".", ".").err(),
        Some("toml conversion failed".to_string())
    );
}

#[test]
fn anvil_version_argument() {
    let mut a = args();
    a.anvil_version = Some("2.0.0".to_string());
    let o = check_anvil_version_arg(&a).expect("accepted");
    assert!(!o.override_stego_version);
    assert!(o.set_strict && o.set_amboso_c);
    a.anvil_kern = Some("anvilPy".to_string());
    let a2 = apply_version_arg(a, &o);
    assert!(a2.strict);
    assert_eq!(a2.anvil_kern, Some("amboso-C".to_string()));
    let mut a = args();
    a.anvil_version = Some("2.0.5".to_string());
    let o = check_anvil_version_arg(&a).expect("accepted");
    assert!(o.override_stego_version);
    assert!(!o.set_strict && !o.set_amboso_c);
    let mut a = args();
    a.anvil_version = Some("1.7.0".to_string());
    assert!(check_anvil_version_arg(&a).is_ok());
    for bad in ["1.9.0", "2.1.1", "0.9.0", "2.0", "2.0.13", "3.0.0"] {
        let mut a = args();
        a.anvil_version = Some(bad.to_string());
        assert_eq!(check_anvil_version_arg(&a).err(), Some("Invalid anvil_version".to_string()));
    }
}

#[test]
fn passed_version_overrides_stego_version() {
    let mut e = env();
    e.anvil_version = "2.0.2".to_string();
    let e2 = adopt_stego_env(e, true, "2.0.5");
    assert_eq!(e2.anvil_version, "2.0.5");
    let mut e = env();
    e.anvil_version = "2.0.2".to_string();
    let e3 = adopt_stego_env(e, false, "2.0.5");
    assert_eq!(e3.anvil_version, "2.0.2");
}

#[test]
fn strict_turns_extensions_off() {
    let mut a = args();
    a.git = true;
    a.strict = true;
    let e = finish_env(&a, env(), None);
    assert!(!e.enable_extensions);
    a.strict = false;
    let e = finish_env(&a, env(), None);
    assert!(e.enable_extensions);
}

#[test]
fn global_configuration_fills_gaps() {
    let mut a = args();
    a.anvil_version = None;
    a.anvil_kern = None;
    let a = apply_global_conf(a, AmbosoConf { anvil_kern: AnvilKern::AnvilPy, anvil_version: "2.0.5".to_string() });
    assert_eq!(a.anvil_version, Some("2.0.5".to_string()));
    assert_eq!(a.anvil_kern, Some("anvilPy".to_string()));
    let a = apply_global_conf(args(), AmbosoConf { anvil_kern: AnvilKern::AnvilPy, anvil_version: "2.0.5".to_string() });
    assert_eq!(a.anvil_version, Some("2.1.0".to_string()));
    assert_eq!(a.anvil_kern, Some("amboso-C".to_string()));
}

#[test]
fn configuration_argument_file_flag() {
    assert!(config_arg_is_file(None));
    assert!(!config_arg_is_file(Some("0")));
    assert!(!config_arg_is_file(Some("-00")));
    assert!(config_arg_is_file(Some("1")));
    assert!(config_arg_is_file(Some("+")));
    assert!(config_arg_is_file(Some("zero")));
}

#[test]
fn settling_arguments_and_stego() {
    let mut e = env();
    e.source = Some("main.c".to_string());
    e.bin = Some("hello".to_string());
    e.mintag_make = Some("0.1.0".to_string());
    e.mintag_automake = Some("0.2.0".to_string());
    e.tests_dir = Some("./tests".to_string());
    let mut a = args();
    a.execname = Some("other".to_string());
    a.cflags = Some("-O2".to_string());
    let (a2, e2) = settle_env(a, e, false, true, false).ok().expect("settles");
    assert_eq!(a2.source, Some("main.c".to_string()));
    assert_eq!(e2.bin, Some("other".to_string()));
    assert_eq!(a2.kazoj_dir, Some("./tests".to_string()));
    assert_eq!(a2.maketag, Some("0.1.0".to_string()));
    assert!(e2.support_automakemode);
    assert_eq!(e2.cflags_arg, "-O2");
    let mut e = env();
    e.bin = Some("hello".to_string());
    assert_eq!(settle_env(args(), e, false, false, false).err(), Some("Could not determine anvil_env.source".to_string()));
    let mut e = env();
    e.source = Some("main.c".to_string());
    e.bin = Some("hello".to_string());
    let (a3, e3) = settle_env(args(), e, false, false, false).ok().expect("settles");
    assert_eq!(a3.kazoj_dir, Some("./kazoj".to_string()));
    assert!(!e3.support_testmode);
    assert!(!e3.support_makemode);
}

#[test]
fn finishing_the_environment() {
    let mut a = args();
    a.base = true;
    a.build = true;
    let e = finish_env(&a, env(), Some("--prefix=x".to_string()));
    assert_eq!(e.run_mode, Some(AmbosoMode::BaseMode));
    assert!(e.do_build && !e.do_run);
    assert_eq!(e.configure_arg, "--prefix=x");
}

#[test]
fn c_header_requests() {
    let mut a = args();
    assert!(c_header_request(&a, &env()).is_none());
    a.gen_c_header = Some("out".to_string());
    assert_eq!(c_header_request(&a, &env()), Some(Err("Missing query tag for C header gen".to_string())));
    a.tag = Some("0.1.0".to_string());
    assert_eq!(c_header_request(&a, &env()), Some(Err("Missing bin name for C header gen".to_string())));
    let mut e = env();
    e.bin = Some("hello".to_string());
    assert_eq!(c_header_request(&a, &e), Some(Ok(("0.1.0".to_string(), "hello".to_string()))));
}

#[test]
fn build_step_commands() {
    let mut e = env();
    let (n, argv) = build_step_command(&e, false, false, "-O2", "b/", "hello", "0.1.0").expect("a command");
    assert_eq!(n, "make");
    assert_eq!(argv, vec!["make", "rebuild", "-O2"]);
    let (_, argv) = build_step_command(&e, false, true, "-O2", "b/", "hello", "0.1.0").expect("a command");
    assert_eq!(argv, vec!["make", "-O2"]);
    e.anvil_kern = AnvilKern::AnvilPy;
    e.anvil_version = "2.0.5".to_string();
    let (n, _) = build_step_command(&e, true, false, "", "b/", "hello", "0.1.0").expect("a command");
    assert_eq!(n, "make");
    let (n, _) = build_step_command(&e, false, false, "", "b/", "hello", "0.1.0").expect("a command");
    assert_eq!(n, "python -m build");
    e.anvil_kern = AnvilKern::Custom;
    assert_eq!(
        build_step_command(&e, false, false, "", "b/", "hello", "0.1.0").err(),
        Some("Missing anvilcustom_env".to_string())
    );
    e.anvilcustom_env = Some(AnvilCustomEnv { custom_builder: "./build.sh".to_string(), recipes: Vec::new() });
    let (n, argv) = build_step_command(&e, false, false, "", "b/", "hello", "0.1.0").expect("a command");
    assert_eq!(n, "./build.sh");
    assert_eq!(argv, vec!["./build.sh", "b/", "hello", "0.1.0", "."]);
}

#[test]
fn session_operations_in_order() {
    let mut e = parse_stego_tomlvalue(STEGO, "./bin", ".", ".").expect("reads");
    e.run_mode = Some(AmbosoMode::GitMode);
    e.do_build = true;
    e.do_purge = true;
    let mut a = args();
    a.list = true;
    let ops = session_plan(&e, &a);
    let shown: Vec<String> = ops
        .iter()
        .map(|o| match o {
            SessionOp::List(l) => format!("list {}", l.len()),
            SessionOp::Build(t) => format!("build {:?}", t),
            SessionOp::Run => "run".to_string(),
            SessionOp::Delete(t) => format!("delete {:?}", t),
            SessionOp::Query => "query".to_string(),
        })
        .collect();
    assert_eq!(
        shown,
        vec![
            "list 3",
            "build None",
            "delete Some(\"0.1.0\")",
            "delete Some(\"0.2.0\")",
            "delete Some(\"0.10.0\")",
            "query",
        ]
    );
    e.run_mode = Some(AmbosoMode::TestMacro);
    e.support_testmode = false;
    assert!(session_plan(&e, &args()).is_empty());
}

#[test]
fn test_subcommand_and_queries() {
    let (a, e) = test_subcommand(args(), env(), true, true, Some("t1".to_string()));
    assert!(a.test && a.list);
    assert_eq!(a.tag, Some("t1".to_string()));
    assert!(e.do_build);
    assert_eq!(e.run_mode, Some(AmbosoMode::TestMode));
    let mut e = e;
    e.bonetests_table = vec![("t1".to_string(), "ok/t1".to_string())];
    match query_plan(&e, &a) {
        QueryPlan::Test { path, record } => {
            assert_eq!(path, "ok/t1");
            assert!(record);
        }
        _ => panic!("expected a test"),
    }
    let mut a2 = a.clone();
    a2.tag = Some("nope".to_string());
    match query_plan(&e, &a2) {
        QueryPlan::Done(r) => assert_eq!(r, Err("Invalid test query".to_string())),
        _ => panic!("expected an error"),
    }
    let (a3, mut e3) = test_subcommand(args(), env(), false, false, None);
    assert!(a3.testmacro);
    e3.kulpotests_table = vec![("k".to_string(), "err/k".to_string())];
    match query_plan(&e3, &a3) {
        QueryPlan::AllTests { tests, record } => {
            assert_eq!(tests, vec![("k".to_string(), "err/k".to_string())]);
            assert!(!record);
        }
        _ => panic!("expected all tests"),
    }
    let mut a4 = args();
    a4.tag = Some("0.2.0".to_string());
    let mut e4 = parse_stego_tomlvalue(STEGO, "./bin", ".", "bin").expect("reads");
    e4.run_mode = Some(AmbosoMode::GitMode);
    match query_plan(&e4, &a4) {
        QueryPlan::Info { dir, bin } => {
            assert_eq!(dir, "bin/v0.2.0");
            assert_eq!(bin, Some("bin/v0.2.0/hello".to_string()));
        }
        _ => panic!("expected info"),
    }
    let mut e5 = parse_stego_tomlvalue(STEGO, "./bin", ".", "bin").expect("reads");
    e5.run_mode = Some(AmbosoMode::GitMode);
    e5.bin = None;
    match query_plan(&e5, &a4) {
        QueryPlan::Info { dir, bin } => {
            assert_eq!(dir, "bin/v0.2.0");
            assert_eq!(bin, None);
        }
        _ => panic!("expected info"),
    }
    a4.tag = Some("9.9.9".to_string());
    match query_plan(&e4, &a4) {
        QueryPlan::Done(r) => assert_eq!(r, Err("Invalid tag".to_string())),
        _ => panic!("expected an error"),
    }
    a4.tag = None;
    assert!(matches!(query_plan(&e4, &a4), QueryPlan::RunMake));
    a4.list = true;
    match query_plan(&e4, &a4) {
        QueryPlan::Done(r) => assert_eq!(r, Err("No tag provided.".to_string())),
        _ => panic!("expected an error"),
    }
}
