//! Reading a stego.lock in the legacy line format: fixed lines for the build
//! settings, a kazoj.lock beside the tests for the test directories, and one
//! version per line after the header, with its description as a comment.

use vstd::prelude::*;
use crate::chars::{after_char, before_char, cut_line_at_char, decimal_text, opt_text, path_join, path_push, to_chars, usize_text, CutDirection};
use crate::env::AmbosoEnv;
use crate::semver::SemVerKey;
use crate::stego::{split_versions, split_versions_exec};
use crate::vtable::{table_view, upsert_version, upsert_version_exec};

verus! {

/// What the lines read so far have set.
#[verifier::ext_equal]
pub struct LegacyModel {
    pub source: Option<Seq<char>>,
    pub bin: Option<Seq<char>>,
    pub make: Option<Seq<char>>,
    pub automake: Option<Seq<char>>,
    pub tests_dir: Option<Seq<char>>,
    pub bone: Option<Seq<char>>,
    pub kulpo: Option<Seq<char>>,
    pub versions: Seq<(Seq<char>, Seq<char>)>,
}

pub open spec fn empty_legacy() -> LegacyModel {
    LegacyModel {
        source: None,
        bin: None,
        make: None,
        automake: None,
        tests_dir: None,
        bone: None,
        kulpo: None,
        versions: Seq::empty(),
    }
}

/// The test directories that the kazoj.lock lines from `k` on name: line 1 names the
/// tests that must pass, line 3 those that must fail; lines 0 and 2 are headers.
pub open spec fn kazoj_scan(
    kl: Seq<Seq<char>>,
    k: nat,
    bone: Option<Seq<char>>,
    kulpo: Option<Seq<char>>,
) -> Result<(Option<Seq<char>>, Option<Seq<char>>), Seq<char>>
    decreases kl.len() - k,
{
    if k >= kl.len() {
        Ok((bone, kulpo))
    } else {
        let s = before_char(kl[k as int], '#');
        if k == 1 {
            if s.len() == 0 {
                Err("Invalid ANVIL_BONEDIR definition"@)
            } else {
                kazoj_scan(kl, k + 1, Some(s), kulpo)
            }
        } else if k == 3 {
            if s.len() == 0 {
                Err("Invalid ANVIL_KULPODIR definition"@)
            } else {
                kazoj_scan(kl, k + 1, bone, Some(s))
            }
        } else {
            kazoj_scan(kl, k + 1, bone, kulpo)
        }
    }
}

/// The test directories from the kazoj.lock at `kpath`: `kazoj` holds the lines that
/// could be read, and whether they are all of them; none when the file could not be opened.
pub open spec fn kazoj_outcome(kazoj: Option<(Seq<Seq<char>>, bool)>, kpath: Seq<char>) -> Result<
    (Option<Seq<char>>, Option<Seq<char>>),
    Seq<char>,
> {
    match kazoj {
        None => Err("Can't find kazoj.lock at {"@ + kpath + "}"@),
        Some((kl, complete)) => match kazoj_scan(kl, 0, None, None) {
            Err(e) => Err(e),
            Ok(p) => if complete {
                Ok(p)
            } else {
                Err("Can't read line {"@ + decimal_text(kl.len()) + "} from {"@ + kpath + "}."@)
            },
        },
    }
}

/// Reads the stego.lock lines from `i` on: line 1 the source, 2 the binary, 3 the first
/// make version, 4 the tests directory (whose kazoj.lock is then read), 5 the first
/// automake version; lines 0 and 6 are headers; each later line sets a version, with the
/// comment after `#` as its description.
pub open spec fn legacy_scan(
    lines: Seq<Seq<char>>,
    i: nat,
    m: LegacyModel,
    kazoj: Option<(Seq<Seq<char>>, bool)>,
) -> Result<LegacyModel, Seq<char>>
    decreases lines.len() - i,
{
    if i >= lines.len() {
        Ok(m)
    } else {
        let s = before_char(lines[i as int], '#');
        let c = after_char(lines[i as int], '#');
        if i == 0 || i == 6 {
            legacy_scan(lines, i + 1, m, kazoj)
        } else if i == 1 {
            if s.len() == 0 {
                Err("Invalid ANVIL_SOURCE definition"@)
            } else {
                legacy_scan(lines, i + 1, LegacyModel { source: Some(s), ..m }, kazoj)
            }
        } else if i == 2 {
            if s.len() == 0 {
                Err("Invalid ANVIL_BIN definition"@)
            } else {
                legacy_scan(lines, i + 1, LegacyModel { bin: Some(s), ..m }, kazoj)
            }
        } else if i == 3 {
            if s.len() == 0 {
                Err("Invalid ANVIL_MAKEVERS definition"@)
            } else {
                legacy_scan(lines, i + 1, LegacyModel { make: Some(s), ..m }, kazoj)
            }
        } else if i == 4 {
            if s.len() == 0 {
                Err("Invalid ANVIL_TESTDIR definition"@)
            } else {
                match kazoj_outcome(kazoj, path_join(s, "kazoj.lock"@)) {
                    Err(e) => Err(e),
                    Ok((b, k)) => legacy_scan(
                        lines,
                        i + 1,
                        LegacyModel { tests_dir: Some(s), bone: b, kulpo: k, ..m },
                        kazoj,
                    ),
                }
            }
        } else if i == 5 {
            if s.len() == 0 {
                Err("Invalid ANVIL_AUTOMAKEVERS definition"@)
            } else {
                legacy_scan(lines, i + 1, LegacyModel { automake: Some(s), ..m }, kazoj)
            }
        } else {
            legacy_scan(lines, i + 1, LegacyModel { versions: upsert_version(m.versions, s, c), ..m }, kazoj)
        }
    }
}

/// The outcome of reading a legacy stego.lock: the lines that could be read and whether
/// they are all, the kazoj.lock lines, and the file's name for messages. Versions marked
/// with a leading `?` go to base mode.
pub open spec fn legacy_outcome(
    lines: Seq<Seq<char>>,
    complete: bool,
    kazoj: Option<(Seq<Seq<char>>, bool)>,
    stego_path: Seq<char>,
) -> Result<(LegacyModel, Seq<(Seq<char>, Seq<char>)>, Seq<(Seq<char>, Seq<char>)>), Seq<char>> {
    match legacy_scan(lines, 0, empty_legacy(), kazoj) {
        Err(e) => Err(e),
        Ok(m) => if !complete {
            Err("Error while reading {"@ + stego_path + "}"@)
        } else {
            match split_versions(m.versions, '?', 0, Seq::empty(), Seq::empty()) {
                Err(e) => Err(e),
                Ok((b, g)) => Ok((m, b, g)),
            }
        },
    }
}

/// The environment fields that the legacy reader sets, as a model.
pub open spec fn legacy_view(e: AmbosoEnv) -> LegacyModel {
    LegacyModel {
        source: opt_text(e.source),
        bin: opt_text(e.bin),
        make: opt_text(e.mintag_make),
        automake: opt_text(e.mintag_automake),
        tests_dir: opt_text(e.tests_dir),
        bone: opt_text(e.bonetests_dir),
        kulpo: opt_text(e.kulpotests_dir),
        versions: table_view(e.versions_table@),
    }
}

pub open spec fn lines_of(v: Seq<String>) -> Seq<Seq<char>> {
    v.map_values(|s: String| s@)
}

/// The settings the legacy reader leaves as a fresh environment has them.
pub open spec fn legacy_defaults(e: AmbosoEnv) -> bool {
    &&& e.anvil_kern == crate::env::AnvilKern::AmbosoC
    &&& !e.do_build && !e.do_run && !e.do_delete && !e.do_init && !e.do_purge
    &&& e.bonetests_table@.len() == 0
    &&& e.kulpotests_table@.len() == 0
    &&& e.configure_arg@.len() == 0
    &&& e.cflags_arg@.len() == 0
    &&& e.anvilpy_env is None
    &&& e.anvilcustom_env is None
}

/// The kazoj.lock lines as the reader sees them.
pub open spec fn kazoj_view(kazoj: Option<Vec<String>>, complete: bool) -> Option<(Seq<Seq<char>>, bool)> {
    match kazoj {
        Some(v) => Some((lines_of(v@), complete)),
        None => None,
    }
}

fn kazoj_exec(kazoj: &Option<Vec<String>>, complete: bool, kpath: &str) -> (r: Result<
    (Option<String>, Option<String>),
    String,
>)
    ensures
        match (r, kazoj_outcome(kazoj_view(*kazoj, complete), kpath@)) {
            (Ok(a), Ok(b)) => opt_text(a.0) == b.0 && opt_text(a.1) == b.1,
            (Err(e), Err(f)) => e@ == f,
            _ => false,
        },
{
    let kl = match kazoj {
        None => {
            let mut e = String::from_str("Can't find kazoj.lock at {");
            e.append(kpath);
            e.append("}");
            return Err(e);
        },
        Some(kl) => kl,
    };
    let ghost klv = lines_of(kl@);
    let mut bone: Option<String> = None;
    let mut kulpo: Option<String> = None;
    let n = kl.len();
    let mut k: usize = 0;
    while k < n
        invariant
            n == kl@.len(),
            k <= n,
            klv == lines_of(kl@),
            kazoj_view(*kazoj, complete) == Some((klv, complete)),
            kazoj_scan(klv, 0, None, None) == kazoj_scan(klv, k as nat, opt_text(bone), opt_text(kulpo)),
        decreases n - k,
    {
        let s = cut_line_at_char(kl[k].as_str(), '#', CutDirection::Before);
        let sc = to_chars(s);
        assert(klv[k as int] == kl@[k as int]@);
        if k == 1 {
            if sc.len() == 0 {
                return Err(String::from_str("Invalid ANVIL_BONEDIR definition"));
            }
            bone = Some(String::from_str(s));
        } else if k == 3 {
            if sc.len() == 0 {
                return Err(String::from_str("Invalid ANVIL_KULPODIR definition"));
            }
            kulpo = Some(String::from_str(s));
        }
        k = k + 1;
    }
    if !complete {
        let mut e = String::from_str("Can't read line {");
        e.append(usize_text(n).as_str());
        e.append("} from {");
        e.append(kpath);
        e.append("}.");
        return Err(e);
    }
    Ok((bone, kulpo))
}

/// The kazoj.lock that a legacy stego.lock points to: beside the tests directory of its
/// line 4, when there is such a line.
pub fn legacy_kazoj_path(lines: &Vec<String>) -> (r: Option<String>)
    ensures
        lines@.len() > 4 ==> opt_text(r) == Some(path_join(before_char(lines@[4]@, '#'), "kazoj.lock"@)),
        lines@.len() <= 4 ==> r is None,
{
    if lines.len() > 4 {
        let s = cut_line_at_char(lines[4].as_str(), '#', CutDirection::Before);
        Some(path_push(s, "kazoj.lock"))
    } else {
        None
    }
}

/// Reads a legacy stego.lock from its lines (`complete` says whether they are all of the
/// file) and the lines of its kazoj.lock (`kazoj_complete` likewise; none when it could not
/// be opened); `stego_dir` is the directory the file is in, `stego_path` its name.
pub fn parse_legacy_stego_lines(
    lines: &Vec<String>,
    complete: bool,
    kazoj: &Option<Vec<String>>,
    kazoj_complete: bool,
    stego_dir: &str,
    stego_path: &str,
) -> (r: Result<AmbosoEnv, String>)
    ensures
        match (r, legacy_outcome(lines_of(lines@), complete, kazoj_view(*kazoj, kazoj_complete), stego_path@)) {
            (Ok(e), Ok((m, b, g))) => {
                &&& legacy_view(e) == m
                &&& table_view(e.basemode_versions_table@) == b
                &&& table_view(e.gitmode_versions_table@) == g
                &&& opt_text(e.amboso_dir) == Some(stego_dir@)
                &&& e.stego_dir is None
                &&& e.builds_dir is None
                &&& e.anvil_version@ == "2.1.0"@
                &&& e.enable_extensions
                &&& e.run_mode is None
                &&& e.support_testmode
                &&& e.support_makemode
                &&& !e.support_automakemode
                &&& legacy_defaults(e)
            },
            (Err(e), Err(f)) => e@ == f,
            _ => false,
        },
{
    let ghost lv = lines_of(lines@);
    let ghost kv = kazoj_view(*kazoj, kazoj_complete);
    let mut env = AmbosoEnv::new(Some(String::from_str(stego_dir)), None, None);
    assert(legacy_view(env) =~= empty_legacy()) by {
        assert(table_view(env.versions_table@) =~= Seq::<(Seq<char>, Seq<char>)>::empty());
    }
    let n = lines.len();
    let mut i: usize = 0;
    while i < n
        invariant
            n == lines@.len(),
            i <= n,
            lv == lines_of(lines@),
            kv == kazoj_view(*kazoj, kazoj_complete),
            legacy_scan(lv, 0, empty_legacy(), kv) == legacy_scan(lv, i as nat, legacy_view(env), kv),
            opt_text(env.amboso_dir) == Some(stego_dir@),
            env.stego_dir is None,
            env.builds_dir is None,
            env.anvil_version@ == "2.1.0"@,
            env.enable_extensions,
            env.run_mode is None,
            env.support_testmode,
            env.support_makemode,
            !env.support_automakemode,
            legacy_defaults(env),
            env.basemode_versions_table@.len() == 0,
            env.gitmode_versions_table@.len() == 0,
        decreases n - i,
    {
        let line = lines[i].as_str();
        assert(lv[i as int] == line@);
        let s = cut_line_at_char(line, '#', CutDirection::Before);
        let c = cut_line_at_char(line, '#', CutDirection::After);
        let sc = to_chars(s);
        let ghost before = legacy_view(env);
        if i == 0 || i == 6 {
        } else if i == 1 {
            if sc.len() == 0 {
                return Err(String::from_str("Invalid ANVIL_SOURCE definition"));
            }
            env.source = Some(String::from_str(s));
            assert(legacy_view(env) =~= LegacyModel { source: Some(s@), ..before });
        } else if i == 2 {
            if sc.len() == 0 {
                return Err(String::from_str("Invalid ANVIL_BIN definition"));
            }
            env.bin = Some(String::from_str(s));
            assert(legacy_view(env) =~= LegacyModel { bin: Some(s@), ..before });
        } else if i == 3 {
            if sc.len() == 0 {
                return Err(String::from_str("Invalid ANVIL_MAKEVERS definition"));
            }
            env.mintag_make = Some(String::from_str(s));
            assert(legacy_view(env) =~= LegacyModel { make: Some(s@), ..before });
        } else if i == 4 {
            if sc.len() == 0 {
                return Err(String::from_str("Invalid ANVIL_TESTDIR definition"));
            }
            let kpath = path_push(s, "kazoj.lock");
            match kazoj_exec(kazoj, kazoj_complete, kpath.as_str()) {
                Err(e) => {
                    return Err(e);
                },
                Ok((b, k)) => {
                    env.tests_dir = Some(String::from_str(s));
                    env.bonetests_dir = b;
                    env.kulpotests_dir = k;
                    assert(legacy_view(env) =~= LegacyModel {
                        tests_dir: Some(s@),
                        bone: opt_text(env.bonetests_dir),
                        kulpo: opt_text(env.kulpotests_dir),
                        ..before
                    });
                },
            }
        } else if i == 5 {
            if sc.len() == 0 {
                return Err(String::from_str("Invalid ANVIL_AUTOMAKEVERS definition"));
            }
            env.mintag_automake = Some(String::from_str(s));
            assert(legacy_view(env) =~= LegacyModel { automake: Some(s@), ..before });
        } else {
            upsert_version_exec(&mut env.versions_table, SemVerKey(String::from_str(s)), String::from_str(c));
            assert(legacy_view(env) =~= LegacyModel { versions: upsert_version(before.versions, s@, c@), ..before });
        }
        i = i + 1;
    }
    if !complete {
        let mut e = String::from_str("Error while reading {");
        e.append(stego_path);
        e.append("}");
        return Err(e);
    }
    match split_versions_exec(&env.versions_table, '?') {
        Err(e) => Err(e),
        Ok((b, g)) => {
            env.basemode_versions_table = b;
            env.gitmode_versions_table = g;
            Ok(env)
        },
    }
}

} // verus!
