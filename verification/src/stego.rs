//! Reading a stego.lock written in TOML: the anvil header (version and kind of
//! project), the build and tests settings, and the tables of versions.

use vstd::prelude::*;
use crate::chars::{decimal_text, has_prefix, opt_text, path_join, path_push, same_text, starts_with_text, trim_start, trim_start_char};
use crate::env::{AmbosoEnv, AnvilKern};
use crate::semver::{is_semver, is_strict_semver, semver_order, semver_order_code, SemVerKey};
use crate::toml_doc::{absent_or_text, is_absent_or_text, lookup, sub_table, text_at, text_field, text_of, TomlTable};
use crate::trusted::{parse_toml_document, toml_document};
use crate::vtable::{entry_view, insert_new_version, insert_version, sort_by_version, sort_versions, table_view};

verus! {

/// The versions after 2.0.0 of the 2.0 line that a stego.lock may name.
pub open spec fn later_2_0(s: Seq<char>) -> bool {
    ||| s == "2.0.1"@
    ||| s == "2.0.2"@
    ||| s == "2.0.3"@
    ||| s == "2.0.4"@
    ||| s == "2.0.5"@
    ||| s == "2.0.6"@
    ||| s == "2.0.7"@
    ||| s == "2.0.8"@
    ||| s == "2.0.9"@
    ||| s == "2.0.10"@
    ||| s == "2.0.11"@
    ||| s == "2.0.12"@
}

/// Whether `s` is one of the versions after 2.0.0 of the 2.0 line.
pub fn is_later_2_0(s: &str) -> (r: bool)
    ensures
        r == later_2_0(s@),
{
    same_text(s, "2.0.1") || same_text(s, "2.0.2") || same_text(s, "2.0.3") || same_text(s, "2.0.4")
        || same_text(s, "2.0.5") || same_text(s, "2.0.6") || same_text(s, "2.0.7") || same_text(
        s,
        "2.0.8",
    ) || same_text(s, "2.0.9") || same_text(s, "2.0.10") || same_text(s, "2.0.11") || same_text(
        s,
        "2.0.12",
    )
}

/// `2.0.<p>`: the version of the 2.0 line with patch number `p`, written in decimal.
pub open spec fn patch_2_0(p: nat) -> Seq<char> {
    "2.0."@ + decimal_text(p)
}

/// The 2.0 versions written out: 2.0.1 through 2.0.12 are the texts they are named by.
pub proof fn lemma_patch_2_0_texts()
    ensures
        patch_2_0(1) == "2.0.1"@,
        patch_2_0(2) == "2.0.2"@,
        patch_2_0(3) == "2.0.3"@,
        patch_2_0(4) == "2.0.4"@,
        patch_2_0(5) == "2.0.5"@,
        patch_2_0(6) == "2.0.6"@,
        patch_2_0(7) == "2.0.7"@,
        patch_2_0(8) == "2.0.8"@,
        patch_2_0(9) == "2.0.9"@,
        patch_2_0(10) == "2.0.10"@,
        patch_2_0(11) == "2.0.11"@,
        patch_2_0(12) == "2.0.12"@,
{
    reveal_strlit("2.0.");
    reveal_strlit("2.0.1");
    reveal_strlit("2.0.2");
    reveal_strlit("2.0.3");
    reveal_strlit("2.0.4");
    reveal_strlit("2.0.5");
    reveal_strlit("2.0.6");
    reveal_strlit("2.0.7");
    reveal_strlit("2.0.8");
    reveal_strlit("2.0.9");
    reveal_strlit("2.0.10");
    reveal_strlit("2.0.11");
    reveal_strlit("2.0.12");
    reveal_with_fuel(decimal_text, 2);
    assert(patch_2_0(1) =~= "2.0.1"@);
    assert(patch_2_0(2) =~= "2.0.2"@);
    assert(patch_2_0(3) =~= "2.0.3"@);
    assert(patch_2_0(4) =~= "2.0.4"@);
    assert(patch_2_0(5) =~= "2.0.5"@);
    assert(patch_2_0(6) =~= "2.0.6"@);
    assert(patch_2_0(7) =~= "2.0.7"@);
    assert(patch_2_0(8) =~= "2.0.8"@);
    assert(patch_2_0(9) =~= "2.0.9"@);
    assert(decimal_text(10) =~= seq!['1', '0']);
    assert(decimal_text(11) =~= seq!['1', '1']);
    assert(decimal_text(12) =~= seq!['1', '2']);
    assert(patch_2_0(10) =~= "2.0.10"@);
    assert(patch_2_0(11) =~= "2.0.11"@);
    assert(patch_2_0(12) =~= "2.0.12"@);
}

/// Past 2.0.0, the versions of the 2.0 line that a stego.lock may name are exactly those
/// whose patch number runs from 1 to 12.
pub proof fn lemma_later_2_0_patches(s: Seq<char>)
    ensures
        later_2_0(s) <==> exists|p: nat| 1 <= p <= 12 && s == #[trigger] patch_2_0(p),
{
    lemma_patch_2_0_texts();
    if later_2_0(s) {
        if s == "2.0.1"@ { assert(s == patch_2_0(1)); }
        else if s == "2.0.2"@ { assert(s == patch_2_0(2)); }
        else if s == "2.0.3"@ { assert(s == patch_2_0(3)); }
        else if s == "2.0.4"@ { assert(s == patch_2_0(4)); }
        else if s == "2.0.5"@ { assert(s == patch_2_0(5)); }
        else if s == "2.0.6"@ { assert(s == patch_2_0(6)); }
        else if s == "2.0.7"@ { assert(s == patch_2_0(7)); }
        else if s == "2.0.8"@ { assert(s == patch_2_0(8)); }
        else if s == "2.0.9"@ { assert(s == patch_2_0(9)); }
        else if s == "2.0.10"@ { assert(s == patch_2_0(10)); }
        else if s == "2.0.11"@ { assert(s == patch_2_0(11)); }
        else { assert(s == patch_2_0(12)); }
    }
}

/// A stego.lock that names a strict version 2.0.p, p from 1 to 12, has it accepted as
/// its anvil version, with the extensions left on.
pub proof fn lemma_anvil_version_2_0_patch_accepted(p: nat)
    requires
        1 <= p <= 12,
        is_strict_semver(patch_2_0(p)),
    ensures
        checked_anvil_version(patch_2_0(p)) == Ok::<(Seq<char>, bool), Seq<char>>((patch_2_0(p), true)),
{
    lemma_later_2_0_patches(patch_2_0(p));
    lemma_patch_2_0_texts();
    reveal_strlit("2.0");
    reveal_strlit("2.0.");
    reveal_strlit("2.0.0");
    assert(patch_2_0(p).take(3) =~= "2.0"@);
    assert(patch_2_0(p) != "2.0.0"@) by {
        if p < 10 {
            assert(patch_2_0(p)[4] != "2.0.0"@[4]);
        } else {
            assert(patch_2_0(p).len() != "2.0.0"@.len());
        }
    }
}

/// The anvil version that a configuration names, checked: a strict version of the 2.0
/// line up to 2.0.12, or 2.1.0. The flag is false for 2.0.0, which turns off extensions.
pub open spec fn checked_anvil_version(s: Seq<char>) -> Result<(Seq<char>, bool), Seq<char>> {
    if !is_strict_semver(s) {
        Err("Invalid anvil_version"@)
    } else if has_prefix(s, "2.0"@) {
        if s == "2.0.0"@ {
            Ok((s, false))
        } else if later_2_0(s) {
            Ok((s, true))
        } else {
            Err("Invalid anvil_version"@)
        }
    } else if has_prefix(s, "2.1"@) {
        if s == "2.1.0"@ {
            Ok((s, true))
        } else {
            Err("Invalid anvil_version"@)
        }
    } else {
        Err("Invalid anvil_version"@)
    }
}

/// The version of the anvil section, with whether extensions stay on; 2.1.0 when it names none.
pub open spec fn anvil_version_stage(anvil: TomlTable) -> Result<(Seq<char>, bool), Seq<char>> {
    match text_at(anvil, "version"@) {
        None => Ok(("2.1.0"@, true)),
        Some(s) => checked_anvil_version(s),
    }
}

/// The kind of project of a stego.lock's anvil section, for version `v`: named kinds
/// are read from 2.0.2 on, and anvilPy and custom need 2.1.0 and extensions.
pub open spec fn stego_kern_stage(anvil: TomlTable, v: Seq<char>, ext: bool) -> Result<AnvilKern, Seq<char>> {
    if semver_order(v, "2.0.2"@) < 0 {
        Ok(AnvilKern::AmbosoC)
    } else {
        match text_at(anvil, "kern"@) {
            None => Ok(AnvilKern::AmbosoC),
            Some(k) => if k == "amboso-C"@ {
                Ok(AnvilKern::AmbosoC)
            } else if k == "anvilPy"@ || k == "custom"@ {
                if semver_order(v, "2.1.0"@) < 0 || !ext {
                    Err("Unsupported anvil_kern"@)
                } else if k == "anvilPy"@ {
                    Ok(AnvilKern::AnvilPy)
                } else {
                    Ok(AnvilKern::Custom)
                }
            } else {
                Err("Invalid anvil_kern"@)
            },
        }
    }
}

/// The anvil header of a stego.lock: version, extensions flag and kind of project.
pub open spec fn stego_header(doc: TomlTable) -> Result<(Seq<char>, bool, AnvilKern), Seq<char>> {
    match sub_table(doc, "anvil"@) {
        None => Ok(("2.1.0"@, true, AnvilKern::AmbosoC)),
        Some(a) => match anvil_version_stage(a) {
            Err(e) => Err(e),
            Ok((v, x)) => match stego_kern_stage(a, v, x) {
                Err(e) => Err(e),
                Ok(k) => Ok((v, x, k)),
            },
        },
    }
}

/// The text under `key` in section `section`.
pub open spec fn section_text(doc: TomlTable, section: Seq<char>, key: Seq<char>) -> Option<Seq<char>> {
    match sub_table(doc, section) {
        Some(t) => text_at(t, key),
        None => None,
    }
}

/// The directory under `key` in section `section`, taken relative to `.`.
pub open spec fn section_path(doc: TomlTable, section: Seq<char>, key: Seq<char>) -> Option<Seq<char>> {
    match section_text(doc, section, key) {
        Some(l) => Some(path_join("."@, l)),
        None => None,
    }
}

/// The entries of a versions section, as (version, description) texts.
pub open spec fn version_pairs(e: Seq<(String, crate::toml_doc::TomlItem)>) -> Seq<(Seq<char>, Seq<char>)> {
    e.map_values(
        |x: (String, crate::toml_doc::TomlItem)|
            (
                x.0@,
                match text_of(x.1) {
                    Some(t) => t,
                    None => Seq::empty(),
                },
            ),
    )
}

/// Sorts the versions of `all` from `i` on into the base-mode table (versions written
/// with a leading `mark`, which is dropped) and the git-mode table. Each version must be
/// strict and must not equal one already in its table.
pub open spec fn split_versions(
    all: Seq<(Seq<char>, Seq<char>)>,
    mark: char,
    i: nat,
    base: Seq<(Seq<char>, Seq<char>)>,
    git: Seq<(Seq<char>, Seq<char>)>,
) -> Result<(Seq<(Seq<char>, Seq<char>)>, Seq<(Seq<char>, Seq<char>)>), Seq<char>>
    decreases all.len() - i,
{
    if i >= all.len() {
        Ok((base, git))
    } else {
        let k = all[i as int].0;
        let v = all[i as int].1;
        if k.len() > 0 && k[0] == mark {
            let tk = trim_start(k, mark);
            if !is_strict_semver(tk) {
                Err("Invalid semver key"@)
            } else {
                match insert_new_version(base, tk, v) {
                    None => Err("Basemode version conflict"@),
                    Some(b2) => split_versions(all, mark, i + 1, b2, git),
                }
            }
        } else {
            if !is_strict_semver(k) {
                Err("Invalid semver key"@)
            } else {
                match insert_new_version(git, k, v) {
                    None => Err("Gitmode version conflict"@),
                    Some(g2) => split_versions(all, mark, i + 1, base, g2),
                }
            }
        }
    }
}

/// The three version tables of a stego.lock: all versions in version order, then the
/// base-mode and git-mode tables.
pub open spec fn stego_versions(doc: TomlTable) -> Result<
    (Seq<(Seq<char>, Seq<char>)>, Seq<(Seq<char>, Seq<char>)>, Seq<(Seq<char>, Seq<char>)>),
    Seq<char>,
> {
    match sub_table(doc, "versions"@) {
        None => Ok((Seq::empty(), Seq::empty(), Seq::empty())),
        Some(t) => {
            let all = sort_by_version(version_pairs(t.entries@));
            match split_versions(all, 'B', 0, Seq::empty(), Seq::empty()) {
                Err(e) => Err(e),
                Ok((b, g)) => Ok((all, b, g)),
            }
        },
    }
}

/// The error that reading a stego.lock document ends in, if any.
pub open spec fn stego_error(doc: TomlTable) -> Option<Seq<char>> {
    match stego_header(doc) {
        Err(e) => Some(e),
        Ok(_) => match stego_versions(doc) {
            Err(e) => Some(e),
            Ok(_) => None,
        },
    }
}

/// Every entry of `t` holds a string.
pub open spec fn all_text(t: TomlTable) -> bool {
    forall|i: int| 0 <= i < t.entries@.len() ==> (#[trigger] text_of(t.entries@[i].1)) is Some
}

/// The anvil section holds text where the version and the kind of project are read.
pub open spec fn header_readable(doc: TomlTable) -> bool {
    match sub_table(doc, "anvil"@) {
        None => true,
        Some(a) => absent_or_text(lookup(a, "version"@)) && match anvil_version_stage(a) {
            Err(_) => true,
            Ok((v, x)) => semver_order(v, "2.0.2"@) < 0 || absent_or_text(lookup(a, "kern"@)),
        },
    }
}

/// The settings that a stego.lock reader takes as text hold text wherever it reads them.
pub open spec fn stego_readable(doc: TomlTable) -> bool {
    &&& header_readable(doc)
    &&& stego_header(doc) is Ok ==> {
        &&& match sub_table(doc, "build"@) {
            None => true,
            Some(b) => {
                &&& absent_or_text(lookup(b, "source"@))
                &&& absent_or_text(lookup(b, "bin"@))
                &&& absent_or_text(lookup(b, "makevers"@))
                &&& absent_or_text(lookup(b, "automakevers"@))
                &&& absent_or_text(lookup(b, "dir"@))
                &&& absent_or_text(lookup(b, "tests"@))
            },
        }
        &&& match sub_table(doc, "tests"@) {
            None => true,
            Some(t) => absent_or_text(lookup(t, "testsdir"@)) && absent_or_text(lookup(t, "errortestsdir"@)),
        }
        &&& match sub_table(doc, "versions"@) {
            None => true,
            Some(t) => all_text(t),
        }
    }
}

/// Whether test mode stays available after reading `doc`: the build section names a
/// tests directory, and the tests section names both test directories.
pub open spec fn stego_supports_tests(doc: TomlTable) -> bool {
    &&& section_text(doc, "build"@, "tests"@) is Some
    &&& sub_table(doc, "tests"@) is Some
    &&& section_text(doc, "tests"@, "testsdir"@) is Some
    &&& section_text(doc, "tests"@, "errortestsdir"@) is Some
}

/// What an environment read from the stego.lock document `doc` holds.
pub open spec fn stego_env_read(
    e: AmbosoEnv,
    doc: TomlTable,
    amboso_dir: Seq<char>,
    stego_dir: Seq<char>,
    builds_dir: Seq<char>,
) -> bool {
    &&& stego_header(doc) matches Ok((v, x, k))
    &&& stego_versions(doc) matches Ok((all, base, git))
    &&& e.anvil_version@ == v
    &&& e.enable_extensions == x
    &&& e.anvil_kern == k
    &&& e.run_mode is None
    &&& opt_text(e.amboso_dir) == Some(amboso_dir)
    &&& opt_text(e.stego_dir) == Some(stego_dir)
    &&& opt_text(e.builds_dir) == Some(
        match section_text(doc, "build"@, "dir"@) {
            Some(d) => d,
            None => builds_dir,
        },
    )
    &&& opt_text(e.source) == section_text(doc, "build"@, "source"@)
    &&& opt_text(e.bin) == section_text(doc, "build"@, "bin"@)
    &&& opt_text(e.mintag_make) == section_text(doc, "build"@, "makevers"@)
    &&& opt_text(e.mintag_automake) == section_text(doc, "build"@, "automakevers"@)
    &&& opt_text(e.tests_dir) == section_path(doc, "build"@, "tests"@)
    &&& opt_text(e.bonetests_dir) == section_path(doc, "tests"@, "testsdir"@)
    &&& opt_text(e.kulpotests_dir) == section_path(doc, "tests"@, "errortestsdir"@)
    &&& e.support_testmode == stego_supports_tests(doc)
    &&& table_view(e.versions_table@) == all
    &&& table_view(e.basemode_versions_table@) == base
    &&& table_view(e.gitmode_versions_table@) == git
    &&& e.configure_arg@.len() == 0
    &&& e.cflags_arg@.len() == 0
    &&& e.bonetests_table@.len() == 0
    &&& e.kulpotests_table@.len() == 0
    &&& !e.do_build && !e.do_run && !e.do_delete && !e.do_init && !e.do_purge
    &&& e.support_makemode
    &&& !e.support_automakemode
    &&& e.anvilpy_env is None
    &&& e.anvilcustom_env is None
}

/// Checks an anvil version as a configuration names it.
pub fn check_anvil_version(s: &str) -> (r: Result<(String, bool), String>)
    ensures
        match (r, checked_anvil_version(s@)) {
            (Ok(a), Ok(b)) => a.0@ == b.0 && a.1 == b.1,
            (Err(e), Err(f)) => e@ == f,
            _ => false,
        },
{
    if !is_semver(s) {
        return Err(String::from_str("Invalid anvil_version"));
    }
    if starts_with_text(s, "2.0") {
        if same_text(s, "2.0.0") {
            Ok((String::from_str(s), false))
        } else if is_later_2_0(s) {
            Ok((String::from_str(s), true))
        } else {
            Err(String::from_str("Invalid anvil_version"))
        }
    } else if starts_with_text(s, "2.1") {
        if same_text(s, "2.1.0") {
            Ok((String::from_str(s), true))
        } else {
            Err(String::from_str("Invalid anvil_version"))
        }
    } else {
        Err(String::from_str("Invalid anvil_version"))
    }
}

fn anvil_version_exec(anvil: &TomlTable) -> (r: Result<(String, bool), String>)
    requires
        absent_or_text(lookup(*anvil, "version"@)),
    ensures
        match (r, anvil_version_stage(*anvil)) {
            (Ok(a), Ok(b)) => a.0@ == b.0 && a.1 == b.1,
            (Err(e), Err(f)) => e@ == f,
            _ => false,
        },
{
    match text_field(anvil, "version") {
        None => Ok((String::from_str("2.1.0"), true)),
        Some(s) => check_anvil_version(s.as_str()),
    }
}

fn stego_header_exec(doc: &TomlTable) -> (r: Result<(String, bool, AnvilKern), String>)
    requires
        header_readable(*doc),
    ensures
        match (r, stego_header(*doc)) {
            (Ok(a), Ok(b)) => a.0@ == b.0 && a.1 == b.1 && a.2 == b.2,
            (Err(e), Err(f)) => e@ == f,
            _ => false,
        },
{
    let anvil = match doc.get_table("anvil") {
        None => {
            return Ok((String::from_str("2.1.0"), true, AnvilKern::AmbosoC));
        },
        Some(a) => a,
    };
    let (v, x) = match anvil_version_exec(anvil) {
        Err(e) => {
            return Err(e);
        },
        Ok(p) => p,
    };
    if semver_order_code(v.as_str(), "2.0.2") < 0 {
        return Ok((v, x, AnvilKern::AmbosoC));
    }
    match text_field(anvil, "kern") {
        None => Ok((v, x, AnvilKern::AmbosoC)),
        Some(k) => {
            if same_text(k.as_str(), "amboso-C") {
                Ok((v, x, AnvilKern::AmbosoC))
            } else if same_text(k.as_str(), "anvilPy") || same_text(k.as_str(), "custom") {
                if semver_order_code(v.as_str(), "2.1.0") < 0 || !x {
                    Err(String::from_str("Unsupported anvil_kern"))
                } else if same_text(k.as_str(), "anvilPy") {
                    Ok((v, x, AnvilKern::AnvilPy))
                } else {
                    Ok((v, x, AnvilKern::Custom))
                }
            } else {
                Err(String::from_str("Invalid anvil_kern"))
            }
        },
    }
}

fn section_path_exec(t: &TomlTable, key: &str) -> (r: Option<String>)
    requires
        absent_or_text(lookup(*t, key@)),
    ensures
        opt_text(r) == (match text_at(*t, key@) {
            Some(l) => Some(path_join("."@, l)),
            None => None,
        }),
        r is Some <==> lookup(*t, key@) is Some,
{
    match text_field(t, key) {
        Some(l) => Some(path_push(".", l.as_str())),
        None => None,
    }
}

fn version_entries(t: &TomlTable) -> (r: Vec<(SemVerKey, String)>)
    requires
        all_text(*t),
    ensures
        table_view(r@) == version_pairs(t.entries@),
{
    let mut out: Vec<(SemVerKey, String)> = Vec::new();
    let n = t.entries.len();
    let mut i: usize = 0;
    while i < n
        invariant
            n == t.entries@.len(),
            i <= n,
            all_text(*t),
            table_view(out@) == version_pairs(t.entries@).take(i as int),
        decreases n - i,
    {
        let key = SemVerKey(t.entries[i].0.clone());
        let ghost item = t.entries@[i as int].1;
        assert(text_of(item) is Some);
        let value = match t.entries[i].1.as_str() {
            Some(s) => s.clone(),
            None => String::new(),
        };
        assert(value@ == text_of(item).unwrap());
        assert(version_pairs(t.entries@)[i as int] == (t.entries@[i as int].0@, text_of(item).unwrap()));
        let ghost before = out@;
        out.push((key, value));
        assert(version_pairs(t.entries@).len() == n);
        assert(table_view(before).len() == before.len());
        assert(before.len() == i);
        assert(out@.len() == i + 1);
        assert(out@[i as int].0.0@ == t.entries@[i as int].0@);
        assert(out@[i as int].1@ == value@);
        assert(table_view(out@)[i as int] == entry_view(out@[i as int]));
        assert(table_view(out@)[i as int] == version_pairs(t.entries@)[i as int]);
        assert(table_view(out@) =~= version_pairs(t.entries@).take(i + 1)) by {
            assert(table_view(before) =~= table_view(out@).take(i as int));
        }
        i = i + 1;
    }
    assert(version_pairs(t.entries@).take(n as int) =~= version_pairs(t.entries@));
    out
}

pub fn split_versions_exec(all: &Vec<(SemVerKey, String)>, mark: char) -> (r: Result<
    (Vec<(SemVerKey, String)>, Vec<(SemVerKey, String)>),
    String,
>)
    ensures
        match (r, split_versions(table_view(all@), mark, 0, Seq::empty(), Seq::empty())) {
            (Ok(a), Ok(b)) => table_view(a.0@) == b.0 && table_view(a.1@) == b.1,
            (Err(e), Err(f)) => e@ == f,
            _ => false,
        },
{
    let mut base: Vec<(SemVerKey, String)> = Vec::new();
    let mut git: Vec<(SemVerKey, String)> = Vec::new();
    let ghost av = table_view(all@);
    assert(table_view(base@) =~= Seq::<(Seq<char>, Seq<char>)>::empty());
    let n = all.len();
    let mut i: usize = 0;
    while i < n
        invariant
            n == all@.len(),
            i <= n,
            av == table_view(all@),
            split_versions(av, mark, 0, Seq::empty(), Seq::empty()) == split_versions(
                av,
                mark,
                i as nat,
                table_view(base@),
                table_view(git@),
            ),
        decreases n - i,
    {
        let k = &all[i].0.0;
        let v = all[i].1.clone();
        let kc = crate::chars::to_chars(k.as_str());
        assert(av[i as int].0 == k@);
        assert(av[i as int].1 == v@);
        if kc.len() > 0 && kc[0] == mark {
            let tk = trim_start_char(k.as_str(), mark);
            if !is_semver(tk.as_str()) {
                return Err(String::from_str("Invalid semver key"));
            }
            if !insert_version(&mut base, SemVerKey(tk), v) {
                return Err(String::from_str("Basemode version conflict"));
            }
        } else {
            if !is_semver(k.as_str()) {
                return Err(String::from_str("Invalid semver key"));
            }
            if !insert_version(&mut git, SemVerKey(k.clone()), v) {
                return Err(String::from_str("Gitmode version conflict"));
            }
        }
        i = i + 1;
    }
    Ok((base, git))
}

/// Reads the environment that a stego.lock document describes; `amboso_dir`, `stego_dir`
/// and `builds_dir` are where the run found it, and `builds_dir` holds unless the build
/// section names another.
pub fn stego_env_from_toml(doc: &TomlTable, amboso_dir: &str, stego_dir: &str, builds_dir: &str) -> (r:
    Result<AmbosoEnv, String>)
    requires
        stego_readable(*doc),
    ensures
        r is Err <==> stego_error(*doc) is Some,
        r matches Err(e) ==> Some(e@) == stego_error(*doc),
        r matches Ok(env) ==> stego_env_read(env, *doc, amboso_dir@, stego_dir@, builds_dir@),
{
    let (v, x, k) = match stego_header_exec(doc) {
        Err(e) => {
            return Err(e);
        },
        Ok(h) => h,
    };
    let mut env = AmbosoEnv::new(
        Some(String::from_str(amboso_dir)),
        Some(String::from_str(stego_dir)),
        Some(String::from_str(builds_dir)),
    );
    env.anvil_version = v;
    env.enable_extensions = x;
    env.anvil_kern = k;
    match doc.get_table("build") {
        Some(b) => {
            env.source = text_field(b, "source");
            env.bin = text_field(b, "bin");
            env.mintag_make = text_field(b, "makevers");
            env.mintag_automake = text_field(b, "automakevers");
            match text_field(b, "dir") {
                Some(d) => {
                    env.builds_dir = Some(d);
                },
                None => {},
            }
            env.tests_dir = section_path_exec(b, "tests");
            if env.tests_dir.is_none() {
                env.support_testmode = false;
            }
        },
        None => {
            env.support_testmode = false;
        },
    }
    match doc.get_table("tests") {
        Some(t) => {
            env.bonetests_dir = section_path_exec(t, "testsdir");
            if env.bonetests_dir.is_none() {
                env.support_testmode = false;
            }
            env.kulpotests_dir = section_path_exec(t, "errortestsdir");
            if env.kulpotests_dir.is_none() {
                env.support_testmode = false;
            }
        },
        None => {
            env.support_testmode = false;
        },
    }
    match doc.get_table("versions") {
        Some(t) => {
            let entries = version_entries(t);
            let all = sort_versions(entries);
            match split_versions_exec(&all, 'B') {
                Err(e) => {
                    return Err(e);
                },
                Ok((b, g)) => {
                    env.versions_table = all;
                    env.basemode_versions_table = b;
                    env.gitmode_versions_table = g;
                },
            }
        },
        None => {
            assert(table_view(env.versions_table@) =~= Seq::<(Seq<char>, Seq<char>)>::empty());
            assert(table_view(env.basemode_versions_table@) =~= Seq::<(Seq<char>, Seq<char>)>::empty());
            assert(table_view(env.gitmode_versions_table@) =~= Seq::<(Seq<char>, Seq<char>)>::empty());
        },
    }
    Ok(env)
}


fn all_text_exec(t: &TomlTable) -> (r: bool)
    ensures
        r == all_text(*t),
{
    let n = t.entries.len();
    let mut i: usize = 0;
    while i < n
        invariant
            n == t.entries@.len(),
            i <= n,
            forall|j: int| 0 <= j < i ==> (#[trigger] text_of(t.entries@[j].1)) is Some,
        decreases n - i,
    {
        if t.entries[i].1.as_str().is_none() {
            return false;
        }
        i = i + 1;
    }
    true
}

/// Whether a stego.lock document holds text wherever its reader takes text.
pub fn stego_is_readable(doc: &TomlTable) -> (r: bool)
    ensures
        r == stego_readable(*doc),
{
    match doc.get_table("anvil") {
        None => {},
        Some(a) => {
            if !is_absent_or_text(a, "version") {
                return false;
            }
            match anvil_version_exec(a) {
                Err(_) => {},
                Ok((v, _)) => {
                    if semver_order_code(v.as_str(), "2.0.2") >= 0 && !is_absent_or_text(a, "kern") {
                        return false;
                    }
                },
            }
        },
    }
    if stego_header_exec(doc).is_err() {
        return true;
    }
    match doc.get_table("build") {
        None => {},
        Some(b) => {
            if !(is_absent_or_text(b, "source") && is_absent_or_text(b, "bin") && is_absent_or_text(
                b,
                "makevers",
            ) && is_absent_or_text(b, "automakevers") && is_absent_or_text(b, "dir")
                && is_absent_or_text(b, "tests")) {
                return false;
            }
        },
    }
    match doc.get_table("tests") {
        None => {},
        Some(t) => {
            if !(is_absent_or_text(t, "testsdir") && is_absent_or_text(t, "errortestsdir")) {
                return false;
            }
        },
    }
    match doc.get_table("versions") {
        None => true,
        Some(t) => all_text_exec(t),
    }
}

/// Reads the environment that the stego.lock text `stego_str` describes. Text that TOML
/// refuses gives "Failed parsing TOML"; a setting that is read as text but is not text
/// gives "toml conversion failed"; otherwise as `stego_env_from_toml`.
pub fn parse_stego_tomlvalue(stego_str: &str, amboso_dir: &str, stego_dir: &str, builds_dir: &str) -> (r:
    Result<AmbosoEnv, String>)
    ensures
        toml_document(stego_str@) is None ==> (r matches Err(e) && e@ == "Failed parsing TOML"@),
        toml_document(stego_str@) matches Some(doc) ==> {
            &&& !stego_readable(doc) ==> (r matches Err(e) && e@ == "toml conversion failed"@)
            &&& stego_readable(doc) ==> {
                &&& r is Err <==> stego_error(doc) is Some
                &&& r matches Err(e) ==> Some(e@) == stego_error(doc)
                &&& r matches Ok(env) ==> stego_env_read(env, doc, amboso_dir@, stego_dir@, builds_dir@)
            }
        },
{
    match parse_toml_document(stego_str) {
        None => Err(String::from_str("Failed parsing TOML")),
        Some(doc) => {
            if !stego_is_readable(&doc) {
                return Err(String::from_str("toml conversion failed"));
            }
            stego_env_from_toml(&doc, amboso_dir, stego_dir, builds_dir)
        },
    }
}

} // verus!
