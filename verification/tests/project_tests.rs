use invil::building::{
    build_route, build_route_ready, BuildRoute,
    anvilpy_dist_names, build_failed_message, build_paths, build_step_exit, cc_choice,
    cflags_choice, checks_detached_head, choose_make_modes, postbuild_plan, single_file_command,
    step_exit, switchback_command, switchback_done, PostbuildPlan, StepNext,
};
use invil::checks::{
    add_tests, missing_amboso_dir, repo_clean_verdict, repo_is_clean, retries_in_amboso_dir,
    stego_dir_of, stego_location, test_dir_paths, test_dirs_check, DirEntry, RepoLookup,
};
use invil::env::{AmbosoEnv, AmbosoLintMode, AmbosoMode, AnvilKern, StegoFormat};
use invil::header::{c_header, c_impl, header_commit_source, header_paths, tag_reference, TagLookup};
use invil::lint::{lex_stego, lint_mode, log_level, try_parse_stego, LogLevel};
use invil::order::{insert_named, text_lt};
use invil::query::{
    bin_command_path_of, build_target_verdict, existing_bin_verdict, find_test, info_verdict,
    is_interpreter_tag, macro_verdict, merge_tests, status_outcome, tag_dir_path,
    test_probe_verdict, MacroStep, PathProbe,
};
use invil::records::{output_matches_exec, record_step, record_write_error, RecordFile, RecordStep};
use invil::scaffold::{
    init_kern, init_layout, init_start, project_names_of, stego_c, template_found, InitStart,
};
use invil::semver::SemVerKey;
use invil::session::{latest_tag, listing, make_exit_status, make_route, splash, MakeRoute};
use invil::stego::parse_stego_tomlvalue;

fn env_with(kern: AnvilKern) -> AmbosoEnv {
    let mut e = AmbosoEnv::new(Some("bin".to_string()), Some(".".to_string()), Some("bin".to_string()));
    e.anvil_kern = kern;
    e
}

fn table(keys: &[(&str, &str)]) -> Vec<(SemVerKey, String)> {
    keys.iter().map(|(k, v)| (SemVerKey(k.to_string()), v.to_string())).collect()
}

#[test]
fn text_order_matches_str_order() {
    assert!(text_lt("0.1.0", "0.2.0"));
    assert!(!text_lt("0.2.0", "0.1.0"));
    assert!(text_lt("abc", "abcd"));
    assert!(!text_lt("abc", "abc"));
    // text order, not version order
    assert!(text_lt("0.10.0", "0.9.0"));
}

#[test]
fn make_modes_follow_text_order() {
    let mut env = env_with(AnvilKern::AmbosoC);
    env.mintag_make = Some("1.0.0".to_string());
    env.mintag_automake = Some("2.0.0".to_string());
    env.support_automakemode = true;
    assert_eq!(choose_make_modes(&env, "0.9.0"), Ok((false, false)));
    assert_eq!(choose_make_modes(&env, "1.5.0"), Ok((true, false)));
    assert_eq!(choose_make_modes(&env, "2.0.0"), Ok((true, true)));
    env.support_makemode = false;
    assert_eq!(choose_make_modes(&env, "1.5.0"), Err("Missing makemode support".to_string()));
    env.support_makemode = true;
    env.support_automakemode = false;
    assert_eq!(choose_make_modes(&env, "2.1.0"), Err("Missing automakemode support".to_string()));
    let py = env_with(AnvilKern::AnvilPy);
    assert_eq!(choose_make_modes(&py, "9.9.9"), Ok((false, false)));
    // versions compare as versions, not as text
    env.support_automakemode = true;
    env.mintag_make = Some("0.9.0".to_string());
    env.mintag_automake = Some("9.0.0".to_string());
    assert_eq!(choose_make_modes(&env, "0.10.0"), Ok((true, false)));
}

#[test]
fn build_paths_by_mode() {
    let (d, s, b) = build_paths("bin", "0.1.0", "main.c", "hello", true);
    assert_eq!(d, "./bin/v0.1.0/");
    assert_eq!(s, "./bin/v0.1.0/main.c");
    assert_eq!(b, "./bin/v0.1.0/hello");
    let (d, _, b) = build_paths("bin", "0.1.0", "main.c", "hello", false);
    assert_eq!(d, "bin/v0.1.0/");
    assert_eq!(b, "bin/v0.1.0/hello");
}

#[test]
fn cflags_and_compiler_choice() {
    assert_eq!(cflags_choice("-O2", Some("-g".to_string()), true), "-O2");
    assert_eq!(cflags_choice("", Some("-g".to_string()), true), "-g");
    assert_eq!(cflags_choice("", Some("-g".to_string()), false), "");
    assert_eq!(cflags_choice("", None, true), "");
    assert_eq!(cc_choice(None), "gcc");
    assert_eq!(cc_choice(Some("clang".to_string())), "clang");
    assert_eq!(
        single_file_command("gcc".to_string(), "".to_string(), "a.c".to_string(), "a".to_string()),
        vec!["gcc", "", "a.c", "-o", "a", "-lm"]
    );
}

#[test]
fn detached_head_check_from_2_0_11() {
    assert!(!checks_detached_head("2.0.10"));
    assert!(checks_detached_head("2.0.11"));
    assert!(checks_detached_head("2.1.0"));
}

#[test]
fn step_exits() {
    assert_eq!(step_exit(Some(0), "f", "k"), Ok(()));
    assert_eq!(step_exit(Some(2), "f", "k"), Err("f".to_string()));
    assert_eq!(step_exit(None, "f", "k"), Err("k".to_string()));
    match build_step_exit("make", Some(0), false) {
        StepNext::Done(r) => assert_eq!(r, Ok("{make} succeded".to_string())),
        StepNext::Postbuild => panic!("expected done"),
    }
    assert!(matches!(build_step_exit("make", Some(0), true), StepNext::Postbuild));
    match build_step_exit("make", Some(1), true) {
        StepNext::Done(r) => assert_eq!(r, Err("{make} failed".to_string())),
        StepNext::Postbuild => panic!("expected done"),
    }
    match build_step_exit("make", None, true) {
        StepNext::Done(r) => assert_eq!(r, Err("{make} command failed".to_string())),
        StepNext::Postbuild => panic!("expected done"),
    }
    assert_eq!(build_failed_message("0.1.0", "boom"), "Build failed for {0.1.0}. Err: boom");
}

#[test]
fn switchback_and_postbuild() {
    assert_eq!(switchback_command(false), vec!["git", "switch", "-"]);
    assert_eq!(switchback_command(true), vec!["git", "switch", "-", "--detach"]);
    assert_eq!(switchback_done("0.1.0"), "Done build step for {0.1.0}");
    match postbuild_plan(AnvilKern::AmbosoC, true, "hello", "bin/v0.1.0/hello", false) {
        PostbuildPlan::Move(argv) => assert_eq!(argv, vec!["mv", "hello", "bin/v0.1.0/hello"]),
        _ => panic!("expected a move"),
    }
    assert!(matches!(postbuild_plan(AnvilKern::Custom, true, "b", "p", true), PostbuildPlan::Switchback));
    match postbuild_plan(AnvilKern::Custom, false, "b", "p", true) {
        PostbuildPlan::Fail(e) => assert_eq!(e, "Unexpected mode in postbuild step"),
        _ => panic!("expected a failure"),
    }
    let (p, src, srcp, dir, whl) = anvilpy_dist_names("my-proj", "0.1.0");
    assert_eq!(p, "my_proj");
    assert_eq!(src, "my_proj-0.1.0.tar.gz");
    assert_eq!(srcp, "./dist/my_proj-0.1.0.tar.gz");
    assert_eq!(dir, "my_proj-0.1.0");
    assert_eq!(whl, "./dist/my_proj-0.1.0-py3-none-any.whl");
}

#[test]
fn verdicts_on_probes() {
    assert_eq!(build_target_verdict(false, PathProbe::Missing, false), Some(Err("No dir found".to_string())));
    assert_eq!(
        build_target_verdict(true, PathProbe::File { executable: true }, false),
        Some(Ok("File was ready".to_string()))
    );
    assert_eq!(build_target_verdict(true, PathProbe::File { executable: true }, true), None);
    assert_eq!(build_target_verdict(true, PathProbe::NotFile, true), Some(Err("Not a file".to_string())));
    assert_eq!(existing_bin_verdict(true, PathProbe::Missing), Some("File not found".to_string()));
    assert_eq!(existing_bin_verdict(true, PathProbe::File { executable: false }), None);
    assert_eq!(info_verdict(true, PathProbe::File { executable: true }), Ok("Is executable".to_string()));
    assert_eq!(info_verdict(true, PathProbe::File { executable: false }), Ok("Is not executable".to_string()));
    assert_eq!(info_verdict(true, PathProbe::Missing), Err("No file found".to_string()));
    assert_eq!(test_probe_verdict(PathProbe::File { executable: true }), None);
    assert_eq!(status_outcome(Some(3), "Run done", "Run command failed"), Ok("Run done".to_string()));
    assert_eq!(status_outcome(None, "Run done", "Run command failed"), Err("Run command failed".to_string()));
    assert_eq!(tag_dir_path("bin", "0.1.0"), "bin/v0.1.0");
    assert_eq!(bin_command_path_of("bin", "0.1.0", "hello"), "./bin/v0.1.0/hello");
}

#[test]
fn interpreter_tags() {
    assert!(is_interpreter_tag("./stego.lock"));
    assert!(is_interpreter_tag("stego-lock"));
    assert!(!is_interpreter_tag("0.1.0"));
}

#[test]
fn macro_verdicts() {
    assert_eq!(macro_verdict(&vec![MacroStep::Ran(true), MacroStep::Ran(true)]), Ok("Done test macro run".to_string()));
    assert_eq!(
        macro_verdict(&vec![MacroStep::Ran(false), MacroStep::Ran(true)]),
        Err("Test macro had some failures".to_string())
    );
    assert_eq!(
        macro_verdict(&vec![MacroStep::Ran(false), MacroStep::Unrunnable(PathProbe::Missing)]),
        Err("No file found".to_string())
    );
    assert_eq!(
        macro_verdict(&vec![MacroStep::Unrunnable(PathProbe::File { executable: false })]),
        Ok("Is not executable".to_string())
    );
    // an earlier failure still fails the run
    assert_eq!(
        macro_verdict(&vec![MacroStep::Ran(false), MacroStep::Unrunnable(PathProbe::File { executable: false })]),
        Err("Test macro had some failures".to_string())
    );
    assert_eq!(macro_verdict(&vec![]), Ok("Done test macro run".to_string()));
}

#[test]
fn test_tables_keep_name_order() {
    let mut t: Vec<(String, String)> = Vec::new();
    insert_named(&mut t, "b".to_string(), "pb".to_string());
    insert_named(&mut t, "a".to_string(), "pa".to_string());
    insert_named(&mut t, "c".to_string(), "pc".to_string());
    insert_named(&mut t, "b".to_string(), "pb2".to_string());
    let names: Vec<&str> = t.iter().map(|e| e.0.as_str()).collect();
    assert_eq!(names, vec!["a", "b", "c"]);
    assert_eq!(find_test(&t, "b"), Some("pb2".to_string()));
    assert_eq!(find_test(&t, "z"), None);
}

#[test]
fn merged_tests_prefer_error_tests() {
    let bone = vec![("a".to_string(), "ok/a".to_string()), ("b".to_string(), "ok/b".to_string())];
    let kulpo = vec![("b".to_string(), "err/b".to_string()), ("c".to_string(), "err/c".to_string())];
    let m = merge_tests(&bone, &kulpo);
    assert_eq!(
        m,
        vec![
            ("a".to_string(), "ok/a".to_string()),
            ("b".to_string(), "err/b".to_string()),
            ("c".to_string(), "err/c".to_string()),
        ]
    );
}

#[test]
fn records_compare_bytes() {
    assert!(output_matches_exec(&b"hi\n".to_vec(), &b"hi\n".to_vec()));
    assert!(!output_matches_exec(&b"hi\n".to_vec(), &b"hi".to_vec()));
    assert!(!output_matches_exec(&b"ho".to_vec(), &b"hi".to_vec()));
    assert!(matches!(record_step(true, &RecordFile::Absent, &vec![], false), RecordStep::Keep));
    match record_step(true, &RecordFile::Unreadable, &vec![], false) {
        RecordStep::Fail(e) => assert_eq!(e, "Failed reading stdout record"),
        _ => panic!("expected a failure"),
    }
    match record_step(false, &RecordFile::Text(b"a".to_vec()), &b"b".to_vec(), false) {
        RecordStep::Fail(e) => assert_eq!(e, "Stderr mismatch"),
        _ => panic!("expected a failure"),
    }
    match record_step(true, &RecordFile::Text(b"a".to_vec()), &vec![0xff, 0xfe], false) {
        RecordStep::Fail(e) => assert_eq!(e, "Failed parsing output.stdout"),
        _ => panic!("expected a failure"),
    }
    assert!(matches!(record_step(true, &RecordFile::Text(b"a".to_vec()), &b"b".to_vec(), true), RecordStep::Rewrite));
    assert!(matches!(record_step(true, &RecordFile::Text(b"a".to_vec()), &b"a".to_vec(), false), RecordStep::Keep));
    assert_eq!(record_write_error(false), "Failed recording stderr");
}

#[test]
fn repository_cleanliness() {
    assert!(repo_is_clean(&vec![128, 0]));
    assert!(!repo_is_clean(&vec![128, 256]));
    // a file both staged and changed makes the repository dirty
    assert!(!repo_is_clean(&vec![256 | 2]));
    assert!(!repo_is_clean(&vec![128 | 1]));
    assert_eq!(repo_clean_verdict(&RepoLookup::NotFound, false), Ok(true));
    assert_eq!(repo_clean_verdict(&RepoLookup::NotFound, true), Err("Failed repo discovery".to_string()));
    assert_eq!(repo_clean_verdict(&RepoLookup::StatusesFailed, false), Err("Failed repo.statuses()".to_string()));
    assert_eq!(repo_clean_verdict(&RepoLookup::Found(vec![1]), false), Ok(false));
}

#[test]
fn stego_locations_by_version() {
    assert_eq!(stego_location("1.7.0", "bin", Some("x")), ("bin/stego.lock".to_string(), StegoFormat::Legacy));
    assert_eq!(stego_location("2.0.0", "bin", Some("x")), ("bin/stego.lock".to_string(), StegoFormat::Toml));
    assert_eq!(stego_location("2.0.3", "bin", Some("x")), ("x/stego.lock".to_string(), StegoFormat::Toml));
    assert_eq!(stego_location("2.1.0", "bin", None), ("bin/stego.lock".to_string(), StegoFormat::Toml));
    assert!(retries_in_amboso_dir("2.0.3", true));
    assert!(!retries_in_amboso_dir("2.0.4", true));
    assert!(!retries_in_amboso_dir("2.0.3", false));
    assert_eq!(missing_amboso_dir("bin", true), Some("Can't find bin. Quitting.".to_string()));
    assert_eq!(missing_amboso_dir("bin", false), None);
    assert_eq!(stego_dir_of("./stego.lock"), Some(".".to_string()));
    assert_eq!(stego_dir_of("stego.lock"), Some(".".to_string()));
    assert_eq!(stego_dir_of("proj/stego.lock"), Some("proj".to_string()));
    assert_eq!(stego_dir_of("/"), None);
}

#[test]
fn test_directories_of_a_stego_lock() {
    let mut env = env_with(AnvilKern::AmbosoC);
    assert_eq!(test_dirs_check(&env), Err("Missing bonetests_dir value".to_string()));
    env.bonetests_dir = Some("ok".to_string());
    assert_eq!(test_dirs_check(&env), Err("Missing kulpotests_dir value".to_string()));
    env.kulpotests_dir = Some("errors".to_string());
    assert_eq!(test_dirs_check(&env), Err("Missing tests_dir value".to_string()));
    env.tests_dir = Some("./tests".to_string());
    assert_eq!(test_dirs_check(&env), Ok(()));
    assert_eq!(test_dir_paths(&env), ("./tests/ok".to_string(), "./tests/errors".to_string()));
    let mut t: Vec<(String, String)> = Vec::new();
    add_tests(
        &mut t,
        vec![
            DirEntry { name: "t1".to_string(), path: "ok/t1".to_string(), executable: true },
            DirEntry { name: "t1.stdout".to_string(), path: "ok/t1.stdout".to_string(), executable: false },
            DirEntry { name: ".stdout".to_string(), path: "ok/.stdout".to_string(), executable: true },
            DirEntry { name: "a0".to_string(), path: "ok/a0".to_string(), executable: true },
        ],
    );
    assert_eq!(t, vec![("a0".to_string(), "ok/a0".to_string()), ("t1".to_string(), "ok/t1".to_string())]);
}

#[test]
fn c_header_for_a_tag() {
    assert_eq!(tag_reference("0.1.0"), "refs/tags/0.1.0");
    assert_eq!(header_paths("out", "hello"), ("out/anvil__hello.h".to_string(), "out/anvil__hello.c".to_string()));
    assert_eq!(header_commit_source(TagLookup::Tag, "0.1.0"), Ok(false));
    assert_eq!(header_commit_source(TagLookup::Missing, "0.1.0"), Ok(true));
    assert_eq!(header_commit_source(TagLookup::Missing, ""), Err("Invalid empty tag request".to_string()));
    assert_eq!(
        header_commit_source(TagLookup::NotTag, "x"),
        Err("Requested tag is not a reference: x".to_string())
    );
    let h = c_header("0.2.21", "hello", "0.1.0", "abc", "100", "me", "200", "linux", "msg");
    assert!(h.starts_with("//Generated by invil v0.2.21\n\n//Repo at https://github.com/jgabaut/invil\n\n#ifndef ANVIL__hello__\n"));
    assert!(h.contains("static const char ANVIL__hello__VERSION_STRING[] = \"0.1.0\";"));
    assert!(h.contains("static const char INVIL__OS__STRING[] = \"linux\";"));
    assert!(h.ends_with("#endif // INVIL__hello__HEADER__\n#endif\n"));
    let c = c_impl("0.2.21", "hello");
    assert!(c.starts_with("//Generated by invil v0.2.21\n\n#include \"anvil__hello.h\"\n\n"));
    assert!(c.contains("const char *get_ANVIL__VERSION__(void)\n{\n    return ANVIL__hello__VERSION_STRING;\n}\n"));
}

#[test]
fn init_decisions() {
    assert_eq!(init_kern("amboso-C"), Some(AnvilKern::AmbosoC));
    assert_eq!(init_kern("anvilPy"), Some(AnvilKern::AnvilPy));
    assert_eq!(init_kern("rust"), None);
    assert_eq!(init_start("rust", true, false), InitStart::UnknownKern);
    assert_eq!(init_start("custom", false, false), InitStart::MissingInitDir);
    assert_eq!(init_start("custom", true, true), InitStart::FindTemplate);
    assert_eq!(init_start("amboso-C", false, false), InitStart::MissingInitDir);
    assert_eq!(init_start("anvilPy", true, false), InitStart::Create(AnvilKern::AnvilPy));
    assert!(template_found(&vec!["a".to_string(), "tpl".to_string()], "tpl"));
    assert!(!template_found(&vec!["a".to_string()], "tpl"));
    assert_eq!(project_names_of(true, "my-proj"), ("hello_world".to_string(), "HW_".to_string()));
    assert_eq!(project_names_of(false, "my-proj"), ("my_proj".to_string(), "MY_PROJ".to_string()));
    let l = init_layout("proj", false, "proj");
    assert_eq!(l.src, "proj/src");
    assert_eq!(l.stub_version, "proj/bin/v0.1.0");
    assert_eq!(l.bone_tests, "proj/tests/ok");
    assert_eq!(l.kulpo_tests, "proj/tests/errors");
    assert_eq!(l.stego, "proj/stego.lock");
    assert_eq!(l.main, "proj/src/main.c");
    let p = init_layout("proj", true, "proj");
    assert_eq!(p.src, "proj/proj");
    assert_eq!(p.main, "proj/proj/main.py");
}

#[test]
fn new_project_stego_lock_reads_back() {
    let text = stego_c("hello");
    let env = parse_stego_tomlvalue(&text, "bin", ".", "bin").expect("the new stego.lock should read");
    assert_eq!(env.source, Some("main.c".to_string()));
    assert_eq!(env.bin, Some("hello".to_string()));
    assert_eq!(env.mintag_make, Some("0.1.0".to_string()));
    assert_eq!(env.mintag_automake, Some("0.1.0".to_string()));
    assert_eq!(env.gitmode_versions_table.len(), 1);
    assert_eq!(env.gitmode_versions_table[0].0 .0, "0.1.0");
    assert_eq!(env.gitmode_versions_table[0].1, "hello");
    assert!(env.basemode_versions_table.is_empty());
    assert!(env.support_testmode);
    assert_eq!(env.tests_dir, Some("./tests".to_string()));
}

#[test]
fn lint_decisions() {
    assert_eq!(lint_mode(false, false, false, false), AmbosoLintMode::FullCheck);
    assert_eq!(lint_mode(false, true, false, false), AmbosoLintMode::Lex);
    assert_eq!(lint_mode(true, true, false, false), AmbosoLintMode::LintOnly);
    assert_eq!(lint_mode(true, true, true, false), AmbosoLintMode::NajloDebug);
    assert_eq!(lint_mode(false, false, true, true), AmbosoLintMode::NajloQuiet);
    assert_eq!(lint_mode(false, false, true, false), AmbosoLintMode::NajloFull);
    assert_eq!(try_parse_stego("[build]\nbin = \"x\"\n"), Ok("Lint success".to_string()));
    assert_eq!(try_parse_stego("[build\n"), Err("Lint failed".to_string()));
    let lines = lex_stego("[build]\nbin = \"x\"\nn = 3\n[z]\n").expect("lexes");
    assert_eq!(
        lines,
        vec![
            "Scope: build",
            "Variable: build_bin, Value: \"x\"",
            "----------------------------",
            "Scope: z",
            "----------------------------",
        ]
    );
    assert_eq!(lex_stego("= 1"), Err("Failed lexing TOML".to_string()));
}

#[test]
fn log_levels() {
    assert_eq!(log_level(true, false, 5), LogLevel::Error);
    assert_eq!(log_level(false, false, 5), LogLevel::Trace);
    assert_eq!(log_level(false, true, 5), LogLevel::Debug);
    assert_eq!(log_level(false, false, 3), LogLevel::Info);
    assert_eq!(log_level(false, false, 2), LogLevel::Warn);
    assert_eq!(log_level(false, false, 1), LogLevel::Error);
    assert_eq!(log_level(false, false, 9), LogLevel::Debug);
}

#[test]
fn session_helpers() {
    assert_eq!(make_route(true, true, true), MakeRoute::Make);
    assert_eq!(make_route(false, true, true), MakeRoute::Autotools);
    assert_eq!(make_route(false, true, false), MakeRoute::Missing);
    assert_eq!(make_exit_status(Some(2)), 2);
    assert_eq!(make_exit_status(None), 1);
    let t = table(&[("0.1.0", "first"), ("0.2.0", "second")]);
    assert_eq!(listing(&t), vec!["Tag: {0.1.0}, Desc: {first}", "Tag: {0.2.0}, Desc: {second}"]);
    let mut env = env_with(AnvilKern::AmbosoC);
    env.run_mode = Some(AmbosoMode::GitMode);
    env.gitmode_versions_table = t;
    assert_eq!(latest_tag(&env), Some("0.2.0".to_string()));
    env.run_mode = Some(AmbosoMode::BaseMode);
    assert_eq!(latest_tag(&env), None);
    let s = splash("invil", "0.2.21", "anvil");
    assert!(s.starts_with("invil, version 0.2.21\nCopyright (C) 2023-2025  jgabaut\n"));
    assert!(s.contains("type `anvil -W`."));
}

#[test]
fn build_routes() {
    let mut env = env_with(AnvilKern::AmbosoC);
    env.run_mode = Some(AmbosoMode::BaseMode);
    env.source = Some("main.c".to_string());
    env.bin = Some("hello".to_string());
    env.mintag_make = Some("1.0.0".to_string());
    env.mintag_automake = Some("2.0.0".to_string());
    let file = PathProbe::File { executable: true };
    assert!(build_route_ready(&env, "0.5.0", true, PathProbe::Missing, false));
    match build_route(&env, "0.5.0", true, PathProbe::Missing, false, Some("-g".to_string()), None) {
        BuildRoute::SingleFile(argv) => {
            assert_eq!(argv, vec!["gcc", "-g", "./bin/v0.5.0/main.c", "-o", "./bin/v0.5.0/hello", "-lm"])
        }
        _ => panic!("expected a single-file build"),
    }
    match build_route(&env, "1.5.0", true, file, true, None, None) {
        BuildRoute::BaseStep { build_path, bin_path, cflags } => {
            assert_eq!(build_path, "./bin/v1.5.0/");
            assert_eq!(bin_path, "./bin/v1.5.0/hello");
            assert_eq!(cflags, "");
        }
        _ => panic!("expected a build step"),
    }
    match build_route(&env, "1.5.0", true, file, false, None, None) {
        BuildRoute::Done(r) => assert_eq!(r, Ok("File was ready".to_string())),
        _ => panic!("expected a ready file"),
    }
    // automake outside git mode is not prepared
    env.support_automakemode = true;
    assert!(!build_route_ready(&env, "2.5.0", true, PathProbe::Missing, false));
    env.run_mode = Some(AmbosoMode::GitMode);
    env.cflags_arg = "-O2".to_string();
    assert!(build_route_ready(&env, "2.5.0", true, PathProbe::Missing, false));
    match build_route(&env, "2.5.0", true, PathProbe::Missing, false, Some("-g".to_string()), None) {
        BuildRoute::GitStep { automake, build_path, bin_path, cflags } => {
            assert!(automake);
            assert_eq!(build_path, "bin/v2.5.0/");
            assert_eq!(bin_path, "bin/v2.5.0/hello");
            assert_eq!(cflags, "-O2");
        }
        _ => panic!("expected a git build"),
    }
}
