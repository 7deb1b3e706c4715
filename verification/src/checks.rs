//! The checks on the project before a run: whether its repository is clean, where its
//! stego.lock is and in which format, what the stego.lock must hold, and which tests it
//! brings.

use vstd::prelude::*;
use crate::chars::{path_join, path_push};
use crate::env::{AmbosoEnv, StegoFormat};
use crate::scaffold::{in_dir, in_dir_path};
use crate::trusted::{parent_path, path_parent};
use crate::order::{insert_named, named_value, named_view, names_sorted};
use crate::semver::{semver_order, semver_order_code};

verus! {

/// The status bit of a file new in the index (`git2::Status::INDEX_NEW`).
pub const STATUS_INDEX_NEW: u32 = 1;

/// The status bit of a file changed in the index (`git2::Status::INDEX_MODIFIED`).
pub const STATUS_INDEX_MODIFIED: u32 = 2;

/// The status bit of a file changed in the working tree (`git2::Status::WT_MODIFIED`).
pub const STATUS_WT_MODIFIED: u32 = 256;

/// The uncommitted changes that make a repository dirty: a file new or changed in the
/// index, or changed in the working tree.
pub const DIRTY_STATUSES: u32 = STATUS_INDEX_NEW | STATUS_INDEX_MODIFIED | STATUS_WT_MODIFIED;

/// Whether an entry's status holds one of the uncommitted changes that make the
/// repository dirty; untracked files alone do not count.
pub open spec fn dirty_status(bits: u32) -> bool {
    bits & DIRTY_STATUSES != 0
}

/// Whether the repository is clean: no entry has a dirtying status.
pub fn repo_is_clean(statuses: &Vec<u32>) -> (r: bool)
    ensures
        r == !exists|i: int| 0 <= i < statuses@.len() && dirty_status(#[trigger] statuses@[i]),
{
    let mut i: usize = 0;
    while i < statuses.len()
        invariant
            i <= statuses@.len(),
            forall|j: int| 0 <= j < i ==> !dirty_status(#[trigger] statuses@[j]),
        decreases statuses@.len() - i,
    {
        let b = statuses[i];
        if b & DIRTY_STATUSES != 0 {
            return false;
        }
        i = i + 1;
    }
    true
}

/// What opening the repository found.
pub enum RepoLookup {
    /// The repository, with the status bits of its entries.
    Found(Vec<u32>),
    /// The repository, whose statuses could not be read.
    StatusesFailed,
    /// No repository.
    NotFound,
    /// Another failure.
    Failed,
}

/// Whether the repository is clean; outside a repository a run that is not strict counts
/// as clean.
pub fn repo_clean_verdict(found: &RepoLookup, strict: bool) -> (r: Result<bool, String>)
    ensures
        match found {
            RepoLookup::Found(s) => r == Ok::<bool, String>(
                !exists|i: int| 0 <= i < s@.len() && dirty_status(#[trigger] s@[i]),
            ),
            RepoLookup::StatusesFailed => r matches Err(e) && e@ == "Failed repo.statuses()"@,
            RepoLookup::NotFound => if strict {
                r matches Err(e) && e@ == "Failed repo discovery"@
            } else {
                r == Ok::<bool, String>(true)
            },
            RepoLookup::Failed => r matches Err(e) && e@ == "Failed repo discovery"@,
        },
{
    match found {
        RepoLookup::Found(s) => Ok(repo_is_clean(s)),
        RepoLookup::StatusesFailed => Err(String::from_str("Failed repo.statuses()")),
        RepoLookup::NotFound => if strict {
            Err(String::from_str("Failed repo discovery"))
        } else {
            Ok(true)
        },
        RepoLookup::Failed => Err(String::from_str("Failed repo discovery")),
    }
}

/// Where the stego.lock is looked for first, and in which format it is read: below 2.0.3
/// in the amboso directory (in the legacy format below 1.8.0); from 2.0.3 on in the
/// stego directory given, else in the amboso directory.
pub open spec fn stego_first(version: Seq<char>, amboso_dir: Seq<char>, stego_dir: Option<Seq<char>>) -> (
    Seq<char>,
    StegoFormat,
) {
    if semver_order(version, "2.0.3"@) < 0 {
        (
            path_join(amboso_dir, "stego.lock"@),
            if semver_order(version, "1.8.0"@) < 0 {
                StegoFormat::Legacy
            } else {
                StegoFormat::Toml
            },
        )
    } else {
        match stego_dir {
            Some(d) => (path_join(d, "stego.lock"@), StegoFormat::Toml),
            None => (path_join(amboso_dir, "stego.lock"@), StegoFormat::Toml),
        }
    }
}

/// Where the stego.lock is looked for first, and in which format it is read.
pub fn stego_location(version: &str, amboso_dir: &str, stego_dir: Option<&str>) -> (r: (String, StegoFormat))
    ensures
        (r.0@, r.1) == stego_first(
            version@,
            amboso_dir@,
            match stego_dir {
                Some(d) => Some(d@),
                None => None,
            },
        ),
{
    if semver_order_code(version, "2.0.3") < 0 {
        let f = if semver_order_code(version, "1.8.0") < 0 {
            StegoFormat::Legacy
        } else {
            StegoFormat::Toml
        };
        (path_push(amboso_dir, "stego.lock"), f)
    } else {
        match stego_dir {
            Some(d) => (path_push(d, "stego.lock"), StegoFormat::Toml),
            None => (path_push(amboso_dir, "stego.lock"), StegoFormat::Toml),
        }
    }
}

/// Whether a stego.lock that failed in the stego directory given is looked for again in
/// the amboso directory: only below 2.0.4, and only when a stego directory was given.
pub fn retries_in_amboso_dir(version: &str, stego_dir_given: bool) -> (r: bool)
    ensures
        r == (stego_dir_given && semver_order(version@, "2.0.3"@) >= 0 && semver_order(
            version@,
            "2.0.4"@,
        ) < 0),
{
    stego_dir_given && semver_order_code(version, "2.0.3") >= 0 && semver_order_code(version, "2.0.4")
        < 0
}

/// What a missing amboso directory makes of the run: a strict run stops; another one
/// creates it (`None`).
pub fn missing_amboso_dir(dir: &str, strict: bool) -> (r: Option<String>)
    ensures
        strict ==> (r matches Some(e) && e@ == "Can't find "@ + dir@ + ". Quitting."@),
        !strict ==> r is None,
{
    if strict {
        let mut e = String::from_str("Can't find ");
        e.append(dir);
        e.append(". Quitting.");
        Some(e)
    } else {
        None
    }
}

/// The error for a stego.lock that is not there: `Can't find <path>.`.
pub fn missing_stego(path: &str) -> (r: String)
    ensures
        r@ == "Can't find "@ + path@ + "."@,
{
    let mut e = String::from_str("Can't find ");
    e.append(path);
    e.append(".");
    e
}

/// What a stego.lock that supports tests must name: the tests directory and its two
/// directories of tests; the first missing one, in the order tests, error tests, tests
/// directory, is an error.
pub fn test_dirs_check(env: &AmbosoEnv) -> (r: Result<(), String>)
    ensures
        !env.support_testmode ==> r is Ok,
        env.support_testmode ==> (if env.bonetests_dir is None {
            r matches Err(e) && e@ == "Missing bonetests_dir value"@
        } else if env.kulpotests_dir is None {
            r matches Err(e) && e@ == "Missing kulpotests_dir value"@
        } else if env.tests_dir is None {
            r matches Err(e) && e@ == "Missing tests_dir value"@
        } else {
            r is Ok
        }),
{
    if !env.support_testmode {
        return Ok(());
    }
    if env.bonetests_dir.is_none() {
        return Err(String::from_str("Missing bonetests_dir value"));
    }
    if env.kulpotests_dir.is_none() {
        return Err(String::from_str("Missing kulpotests_dir value"));
    }
    if env.tests_dir.is_none() {
        return Err(String::from_str("Missing tests_dir value"));
    }
    Ok(())
}

/// The directories of the tests and of the error tests, in that order, each under the
/// tests directory.
pub fn test_dir_paths(env: &AmbosoEnv) -> (r: (String, String))
    requires
        env.tests_dir is Some,
        env.bonetests_dir is Some,
        env.kulpotests_dir is Some,
    ensures
        r.0@ == in_dir(env.tests_dir->0@, env.bonetests_dir->0@),
        r.1@ == in_dir(env.tests_dir->0@, env.kulpotests_dir->0@),
{
    let t = match &env.tests_dir {
        Some(t) => t.as_str(),
        None => "",
    };
    let b = match &env.bonetests_dir {
        Some(b) => b.as_str(),
        None => "",
    };
    let k = match &env.kulpotests_dir {
        Some(k) => k.as_str(),
        None => "",
    };
    (in_dir_path(t, b), in_dir_path(t, k))
}

/// What was found in a directory of tests.
pub struct DirEntry {
    /// The file's name.
    pub name: String,
    /// Its path.
    pub path: String,
    /// Whether it is executable.
    pub executable: bool,
}

/// Whether a directory entry is a test: it is executable, and its path does not end
/// with a component named `.stdout` or `.stderr`.
pub open spec fn is_test_entry(name: Seq<char>, executable: bool) -> bool {
    name != ".stderr"@ && name != ".stdout"@ && executable
}

/// The table of tests of a directory, from its entries in the order they were read: each
/// test under its name, a later entry of the same name taking the place of an earlier
/// one.
pub open spec fn tests_of(entries: Seq<DirEntry>, k: Seq<char>) -> Option<Seq<char>>
    decreases entries.len(),
{
    if entries.len() == 0 {
        None
    } else {
        let e = entries.last();
        if is_test_entry(e.name@, e.executable) && e.name@ == k {
            Some(e.path@)
        } else {
            tests_of(entries.drop_last(), k)
        }
    }
}

/// Adds the tests among a directory's entries to a table of tests.
pub fn add_tests(table: &mut Vec<(String, String)>, entries: Vec<DirEntry>)
    requires
        names_sorted(named_view(old(table)@)),
    ensures
        names_sorted(named_view(final(table)@)),
        forall|k: Seq<char>|
            #![trigger named_value(named_view(final(table)@), k)]
            named_value(named_view(final(table)@), k) == match tests_of(entries@, k) {
                Some(p) => Some(p),
                None => named_value(named_view(old(table)@), k),
            },
{
    let ghost start = named_view(table@);
    let mut i: usize = 0;
    while i < entries.len()
        invariant
            i <= entries@.len(),
            names_sorted(named_view(table@)),
            forall|k: Seq<char>|
                #![trigger named_value(named_view(table@), k)]
                named_value(named_view(table@), k) == match tests_of(entries@.take(i as int), k) {
                    Some(p) => Some(p),
                    None => named_value(start, k),
                },
        decreases entries@.len() - i,
    {
        let e = &entries[i];
        let is_test = !crate::chars::same_text(e.name.as_str(), ".stderr") && !crate::chars::same_text(
            e.name.as_str(),
            ".stdout",
        ) && e.executable;
        let ghost before = named_view(table@);
        proof {
            assert(entries@.take(i + 1).drop_last() =~= entries@.take(i as int));
            assert(entries@.take(i + 1).last() == entries@[i as int]);
        }
        if is_test {
            insert_named(table, e.name.clone(), e.path.clone());
        }
        i = i + 1;
    }
    proof {
        assert(entries@.take(entries@.len() as int) =~= entries@);
    }
}

/// A stego.lock that was read must also name a builds directory.
pub fn builds_dir_check(env: &AmbosoEnv) -> (r: Result<(), String>)
    ensures
        env.builds_dir is Some ==> r is Ok,
        env.builds_dir is None ==> (r matches Err(e) && e@ == "Missing builds_dir value"@),
{
    match &env.builds_dir {
        Some(_) => Ok(()),
        None => Err(String::from_str("Missing builds_dir value")),
    }
}

/// The directory of the stego.lock from its path: the path without its last component,
/// `.` when nothing is left; none for a path without a parent (`PathBuf::pop` fails).
pub fn stego_dir_of(stego_path: &str) -> (r: Option<String>)
    ensures
        r is None <==> path_parent(stego_path@) is None,
        r matches Some(d) ==> d@ == (match path_parent(stego_path@) {
            Some(p) => if p.len() == 0 {
                "."@
            } else {
                p
            },
            None => Seq::empty(),
        }),
{
    match parent_path(stego_path) {
        None => None,
        Some(p) => {
            if p.unicode_len() == 0 {
                Some(String::from_str("."))
            } else {
                Some(p)
            }
        },
    }
}

} // verus!
