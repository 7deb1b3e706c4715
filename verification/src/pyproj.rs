//! The anvilPy kern: a Python project's settings, read from its pyproject.toml.

use vstd::prelude::*;
use crate::chars::opt_text;
use crate::toml_doc::{absent_or_text, is_absent_or_text, lookup, sub_table, text_at, text_field, text_of, TomlItem, TomlTable, TomlValue};
use crate::trusted::{parse_toml_document, parse_url, toml_document, url_parsed};

verus! {

pub struct Author {
    /// Author name
    pub name: String,
    /// Author email
    pub email: Option<String>,
}

pub struct UrlEntry {
    /// Url name
    pub name: String,
    /// Url anchor, as the `url` crate writes it out
    pub link: String,
}

pub struct ScriptEntry {
    /// Script name
    pub name: String,
    /// Script entrypoint path
    pub entrypoint: String,
}

pub struct BuildSystem {
    /// Requirements
    pub reqs: Vec<String>,
    /// Backend
    pub backend: String,
}

pub struct AnvilPyEnv {
    /// Project name
    pub proj_name: String,
    /// Project version
    pub version: String,
    /// Authors
    pub authors: Vec<Author>,
    /// Short description
    pub description: String,
    /// Readme file name
    pub readme_path: String,
    /// Python version requirement
    pub python_version_req: String,
    /// Classifier strings
    pub classifiers: Vec<String>,
    /// Entrypoints
    pub scripts: Vec<ScriptEntry>,
    /// Project links
    pub urls: Vec<UrlEntry>,
    /// Build system
    pub build_sys: BuildSystem,
}

pub open spec fn texts_view(s: Seq<String>) -> Seq<Seq<char>> {
    s.map_values(|x: String| x@)
}

pub open spec fn authors_view(s: Seq<Author>) -> Seq<(Seq<char>, Option<Seq<char>>)> {
    s.map_values(|a: Author| (a.name@, opt_text(a.email)))
}

pub open spec fn scripts_view(s: Seq<ScriptEntry>) -> Seq<(Seq<char>, Seq<char>)> {
    s.map_values(|e: ScriptEntry| (e.name@, e.entrypoint@))
}

pub open spec fn urls_view(s: Seq<UrlEntry>) -> Seq<(Seq<char>, Seq<char>)> {
    s.map_values(|e: UrlEntry| (e.name@, e.link@))
}

/// The text under `key`, or empty text.
pub open spec fn text_or_empty(t: TomlTable, key: Seq<char>) -> Seq<char> {
    match text_at(t, key) {
        Some(s) => s,
        None => Seq::empty(),
    }
}

/// The authors that the array elements from `i` on name, after `acc`: each table gives
/// its name and email; other elements are passed over.
pub open spec fn authors_from(arr: Seq<TomlItem>, i: nat, acc: Seq<(Seq<char>, Option<Seq<char>>)>) -> Seq<
    (Seq<char>, Option<Seq<char>>),
>
    decreases arr.len() - i,
{
    if i >= arr.len() {
        acc
    } else {
        match arr[i as int].value {
            TomlValue::Table(t) => authors_from(
                arr,
                i + 1,
                acc.push((text_or_empty(t, "name"@), Some(text_or_empty(t, "email"@)))),
            ),
            _ => authors_from(arr, i + 1, acc),
        }
    }
}

/// Every table among the elements names its author and email as text.
pub open spec fn authors_readable(arr: Seq<TomlItem>) -> bool {
    forall|i: int|
        0 <= i < arr.len() ==> match (#[trigger] arr[i]).value {
            TomlValue::Table(t) => text_at(t, "name"@) is Some && text_at(t, "email"@) is Some,
            _ => true,
        }
}

/// Every element is text.
pub open spec fn items_text(arr: Seq<TomlItem>) -> bool {
    forall|i: int| 0 <= i < arr.len() ==> (#[trigger] text_of(arr[i])) is Some
}

/// The texts of the elements.
pub open spec fn items_texts(arr: Seq<TomlItem>) -> Seq<Seq<char>> {
    arr.map_values(|x: TomlItem| match text_of(x) {
        Some(s) => s,
        None => Seq::empty(),
    })
}

/// The links that the entries from `i` on name, after `acc`: a text that the `url` crate
/// refuses is tried again with `https://` before it; text that is still refused ends it.
/// Entries that are not text are passed over.
pub open spec fn urls_from(e: Seq<(String, TomlItem)>, i: nat, acc: Seq<(Seq<char>, Seq<char>)>) -> Result<
    Seq<(Seq<char>, Seq<char>)>,
    Seq<char>,
>
    decreases e.len() - i,
{
    if i >= e.len() {
        Ok(acc)
    } else {
        match text_of(e[i as int].1) {
            None => urls_from(e, i + 1, acc),
            Some(u) => {
                let w = if url_parsed(u) is Some {
                    u
                } else {
                    "https://"@ + u
                };
                match url_parsed(w) {
                    None => Err("Failed parsing url"@),
                    Some(l) => urls_from(e, i + 1, acc.push((e[i as int].0@, l))),
                }
            },
        }
    }
}

/// The scripts that the text entries name, in order.
pub open spec fn scripts_from(e: Seq<(String, TomlItem)>, i: nat, acc: Seq<(Seq<char>, Seq<char>)>) -> Seq<
    (Seq<char>, Seq<char>),
>
    decreases e.len() - i,
{
    if i >= e.len() {
        acc
    } else {
        match text_of(e[i as int].1) {
            None => scripts_from(e, i + 1, acc),
            Some(p) => scripts_from(e, i + 1, acc.push((e[i as int].0@, p))),
        }
    }
}

/// The requirements that the elements from `i` on name, after `acc`; an element that is
/// not text ends it.
pub open spec fn reqs_from(arr: Seq<TomlItem>, i: nat, acc: Seq<Seq<char>>) -> Result<Seq<Seq<char>>, Seq<char>>
    decreases arr.len() - i,
{
    if i >= arr.len() {
        Ok(acc)
    } else {
        match text_of(arr[i as int]) {
            None => Err("Unexpected item in reqs array"@),
            Some(s) => reqs_from(arr, i + 1, acc.push(s)),
        }
    }
}

/// The links of the project section.
pub open spec fn py_urls(p: TomlTable) -> Result<Seq<(Seq<char>, Seq<char>)>, Seq<char>> {
    match lookup(p, "urls"@) {
        None => Ok(Seq::empty()),
        Some(u) => match u.value {
            TomlValue::Table(t) => urls_from(t.entries@, 0, Seq::empty()),
            _ => Err("Urls is not an table"@),
        },
    }
}

/// The requirements of the build-system section.
pub open spec fn py_reqs(b: TomlTable) -> Result<Seq<Seq<char>>, Seq<char>> {
    match lookup(b, "requires"@) {
        None => Ok(Seq::empty()),
        Some(r) => match r.value {
            TomlValue::Array(arr) => reqs_from(arr@, 0, Seq::empty()),
            _ => Err("Reqs is not an array"@),
        },
    }
}

/// The error, if any, of the project section, in the order in which it is read.
pub open spec fn py_project_error(p: TomlTable) -> Option<Seq<char>> {
    if lookup(p, "authors"@) matches Some(a) && !(a.value is Array) {
        Some("Authors is not an array"@)
    } else if lookup(p, "classifiers"@) matches Some(c) && !(c.value is Array) {
        Some("Classifiers is not an array"@)
    } else if py_urls(p) is Err {
        Some(py_urls(p)->Err_0)
    } else if lookup(p, "scripts"@) matches Some(s) && !(s.value is Table) {
        Some("Scripts is not an table"@)
    } else {
        None
    }
}

/// The error, if any, that reading the pyproject document `doc` ends in.
pub open spec fn py_error(doc: TomlTable, path: Seq<char>) -> Option<Seq<char>> {
    match sub_table(doc, "project"@) {
        None => Some("Missing project section in {"@ + path + "}"@),
        Some(p) => match py_project_error(p) {
            Some(e) => Some(e),
            None => match sub_table(doc, "build-system"@) {
                None => Some("Missing build-backend section in {"@ + path + "}"@),
                Some(b) => match py_reqs(b) {
                    Err(e) => Some(e),
                    Ok(_) => None,
                },
            },
        },
    }
}

/// Wherever the reader takes text, up to the point where it stops, the document holds text.
pub open spec fn py_readable(doc: TomlTable) -> bool {
    match sub_table(doc, "project"@) {
        None => true,
        Some(p) => {
            &&& absent_or_text(lookup(p, "version"@))
            &&& absent_or_text(lookup(p, "name"@))
            &&& absent_or_text(lookup(p, "description"@))
            &&& absent_or_text(lookup(p, "readme"@))
            &&& absent_or_text(lookup(p, "requires-python"@))
            &&& match lookup(p, "authors"@) {
                Some(a) => match a.value {
                    TomlValue::Array(arr) => authors_readable(arr@),
                    _ => true,
                },
                None => true,
            }
            &&& (lookup(p, "authors"@) matches Some(a) && !(a.value is Array)) || match lookup(
                p,
                "classifiers"@,
            ) {
                Some(c) => match c.value {
                    TomlValue::Array(arr) => items_text(arr@),
                    _ => true,
                },
                None => true,
            }
            &&& py_error(doc, Seq::empty()) is None ==> (sub_table(doc, "build-system"@) matches Some(
                b,
            ) && absent_or_text(lookup(b, "build-backend"@)))
        },
    }
}

/// The settings read from the pyproject document `doc`, which ends in no error.
pub open spec fn py_env_read(e: AnvilPyEnv, doc: TomlTable) -> bool {
    &&& sub_table(doc, "project"@) matches Some(p)
    &&& sub_table(doc, "build-system"@) matches Some(b)
    &&& e.version@ == text_or_empty(p, "version"@)
    &&& e.proj_name@ == text_or_empty(p, "name"@)
    &&& e.description@ == text_or_empty(p, "description"@)
    &&& e.readme_path@ == text_or_empty(p, "readme"@)
    &&& e.python_version_req@ == text_or_empty(p, "requires-python"@)
    &&& authors_view(e.authors@) == match lookup(p, "authors"@) {
        Some(a) => match a.value {
            TomlValue::Array(arr) => authors_from(arr@, 0, Seq::empty()),
            _ => Seq::empty(),
        },
        None => Seq::empty(),
    }
    &&& texts_view(e.classifiers@) == match lookup(p, "classifiers"@) {
        Some(c) => match c.value {
            TomlValue::Array(arr) => items_texts(arr@),
            _ => Seq::empty(),
        },
        None => Seq::empty(),
    }
    &&& py_urls(p) == Ok::<Seq<(Seq<char>, Seq<char>)>, Seq<char>>(urls_view(e.urls@))
    &&& scripts_view(e.scripts@) == match lookup(p, "scripts"@) {
        Some(s) => match s.value {
            TomlValue::Table(t) => scripts_from(t.entries@, 0, Seq::empty()),
            _ => Seq::empty(),
        },
        None => Seq::empty(),
    }
    &&& py_reqs(b) == Ok::<Seq<Seq<char>>, Seq<char>>(texts_view(e.build_sys.reqs@))
    &&& e.build_sys.backend@ == text_or_empty(b, "build-backend"@)
}

fn text_or_empty_exec(t: &TomlTable, key: &str) -> (r: String)
    requires
        absent_or_text(lookup(*t, key@)),
    ensures
        r@ == text_or_empty(*t, key@),
{
    match text_field(t, key) {
        Some(s) => s,
        None => String::new(),
    }
}

fn braced(prefix: &str, path: &str) -> (r: String)
    ensures
        r@ == prefix@ + path@ + "}"@,
{
    let mut e = String::from_str(prefix);
    e.append(path);
    e.append("}");
    e
}

fn authors_exec(arr: &Vec<TomlItem>) -> (r: Vec<Author>)
    requires
        authors_readable(arr@),
    ensures
        authors_view(r@) == authors_from(arr@, 0, Seq::empty()),
{
    let mut out: Vec<Author> = Vec::new();
    let n = arr.len();
    let mut i: usize = 0;
    assert(authors_view(out@) =~= Seq::<(Seq<char>, Option<Seq<char>>)>::empty());
    while i < n
        invariant
            n == arr@.len(),
            i <= n,
            authors_readable(arr@),
            authors_from(arr@, 0, Seq::empty()) == authors_from(arr@, i as nat, authors_view(out@)),
        decreases n - i,
    {
        match arr[i].as_table() {
            Some(t) => {
                assert(text_at(*t, "name"@) is Some && text_at(*t, "email"@) is Some) by {
                    assert(match arr@[i as int].value {
                        TomlValue::Table(t) => text_at(t, "name"@) is Some && text_at(t, "email"@) is Some,
                        _ => true,
                    });
                }
                let name = text_or_empty_exec(t, "name");
                let email = text_or_empty_exec(t, "email");
                let ghost before = out@;
                out.push(Author { name, email: Some(email) });
                assert(authors_view(out@) =~= authors_view(before).push(
                    (text_or_empty(*t, "name"@), Some(text_or_empty(*t, "email"@))),
                ));
            },
            None => {},
        }
        i = i + 1;
    }
    out
}

fn texts_exec(arr: &Vec<TomlItem>) -> (r: Vec<String>)
    requires
        items_text(arr@),
    ensures
        texts_view(r@) == items_texts(arr@),
{
    let mut out: Vec<String> = Vec::new();
    let n = arr.len();
    let mut i: usize = 0;
    while i < n
        invariant
            n == arr@.len(),
            i <= n,
            items_text(arr@),
            texts_view(out@) == items_texts(arr@).take(i as int),
        decreases n - i,
    {
        assert(text_of(arr@[i as int]) is Some);
        let s = match arr[i].as_str() {
            Some(s) => s.clone(),
            None => String::new(),
        };
        let ghost before = out@;
        out.push(s);
        assert(items_texts(arr@).len() == n);
        assert(texts_view(before).len() == before.len());
        assert(before.len() == i);
        assert(items_texts(arr@)[i as int] == s@);
        assert(texts_view(out@)[i as int] == s@);
        assert(texts_view(out@) =~= items_texts(arr@).take(i + 1));
        i = i + 1;
    }
    assert(items_texts(arr@).take(n as int) =~= items_texts(arr@));
    out
}

fn urls_exec(t: &TomlTable) -> (r: Result<Vec<UrlEntry>, String>)
    ensures
        match (r, urls_from(t.entries@, 0, Seq::empty())) {
            (Ok(a), Ok(b)) => urls_view(a@) == b,
            (Err(e), Err(f)) => e@ == f,
            _ => false,
        },
{
    let mut out: Vec<UrlEntry> = Vec::new();
    let n = t.entries.len();
    let mut i: usize = 0;
    assert(urls_view(out@) =~= Seq::<(Seq<char>, Seq<char>)>::empty());
    while i < n
        invariant
            n == t.entries@.len(),
            i <= n,
            urls_from(t.entries@, 0, Seq::empty()) == urls_from(t.entries@, i as nat, urls_view(out@)),
        decreases n - i,
    {
        match t.entries[i].1.as_str() {
            None => {},
            Some(u) => {
                let w = match parse_url(u.as_str()) {
                    Some(_) => u.clone(),
                    None => {
                        let mut w = String::from_str("https://");
                        w.append(u.as_str());
                        w
                    },
                };
                match parse_url(w.as_str()) {
                    None => {
                        return Err(String::from_str("Failed parsing url"));
                    },
                    Some(l) => {
                        let ghost before = out@;
                        out.push(UrlEntry { name: t.entries[i].0.clone(), link: l });
                        assert(urls_view(out@) =~= urls_view(before).push((t.entries@[i as int].0@, l@)));
                    },
                }
            },
        }
        i = i + 1;
    }
    Ok(out)
}

fn scripts_exec(t: &TomlTable) -> (r: Vec<ScriptEntry>)
    ensures
        scripts_view(r@) == scripts_from(t.entries@, 0, Seq::empty()),
{
    let mut out: Vec<ScriptEntry> = Vec::new();
    let n = t.entries.len();
    let mut i: usize = 0;
    assert(scripts_view(out@) =~= Seq::<(Seq<char>, Seq<char>)>::empty());
    while i < n
        invariant
            n == t.entries@.len(),
            i <= n,
            scripts_from(t.entries@, 0, Seq::empty()) == scripts_from(t.entries@, i as nat, scripts_view(out@)),
        decreases n - i,
    {
        match t.entries[i].1.as_str() {
            None => {},
            Some(p) => {
                let ghost before = out@;
                out.push(ScriptEntry { name: t.entries[i].0.clone(), entrypoint: p.clone() });
                assert(scripts_view(out@) =~= scripts_view(before).push((t.entries@[i as int].0@, p@)));
            },
        }
        i = i + 1;
    }
    out
}

fn reqs_exec(arr: &Vec<TomlItem>) -> (r: Result<Vec<String>, String>)
    ensures
        match (r, reqs_from(arr@, 0, Seq::empty())) {
            (Ok(a), Ok(b)) => texts_view(a@) == b,
            (Err(e), Err(f)) => e@ == f,
            _ => false,
        },
{
    let mut out: Vec<String> = Vec::new();
    let n = arr.len();
    let mut i: usize = 0;
    assert(texts_view(out@) =~= Seq::<Seq<char>>::empty());
    while i < n
        invariant
            n == arr@.len(),
            i <= n,
            reqs_from(arr@, 0, Seq::empty()) == reqs_from(arr@, i as nat, texts_view(out@)),
        decreases n - i,
    {
        match arr[i].as_str() {
            None => {
                return Err(String::from_str("Unexpected item in reqs array"));
            },
            Some(s) => {
                let ghost before = out@;
                out.push(s.clone());
                assert(texts_view(out@) =~= texts_view(before).push(s@));
            },
        }
        i = i + 1;
    }
    Ok(out)
}

/// Reads a Python project's settings from its pyproject document; `pyproj_path` names
/// the file in error messages.
pub fn anvilpy_env_from_toml(doc: &TomlTable, pyproj_path: &str) -> (r: Result<AnvilPyEnv, String>)
    requires
        py_readable(*doc),
    ensures
        match (r, py_error(*doc, pyproj_path@)) {
            (Ok(e), None) => py_env_read(e, *doc),
            (Err(e), Some(f)) => e@ == f,
            _ => false,
        },
{
    let p = match doc.get_table("project") {
        Some(p) => p,
        None => {
            return Err(braced("Missing project section in {", pyproj_path));
        },
    };
    let version = text_or_empty_exec(p, "version");
    let proj_name = text_or_empty_exec(p, "name");
    let description = text_or_empty_exec(p, "description");
    let readme_path = text_or_empty_exec(p, "readme");
    let python_version_req = text_or_empty_exec(p, "requires-python");
    let authors = match p.get("authors") {
        Some(a) => match a.as_array() {
            Some(arr) => authors_exec(arr),
            None => {
                return Err(String::from_str("Authors is not an array"));
            },
        },
        None => Vec::new(),
    };
    let classifiers = match p.get("classifiers") {
        Some(c) => match c.as_array() {
            Some(arr) => texts_exec(arr),
            None => {
                return Err(String::from_str("Classifiers is not an array"));
            },
        },
        None => Vec::new(),
    };
    let urls = match p.get("urls") {
        Some(u) => match u.as_table() {
            Some(t) => match urls_exec(t) {
                Ok(v) => v,
                Err(e) => {
                    return Err(e);
                },
            },
            None => {
                return Err(String::from_str("Urls is not an table"));
            },
        },
        None => Vec::new(),
    };
    let scripts = match p.get("scripts") {
        Some(s) => match s.as_table() {
            Some(t) => scripts_exec(t),
            None => {
                return Err(String::from_str("Scripts is not an table"));
            },
        },
        None => Vec::new(),
    };
    let b = match doc.get_table("build-system") {
        Some(b) => b,
        None => {
            return Err(braced("Missing build-backend section in {", pyproj_path));
        },
    };
    let reqs = match b.get("requires") {
        Some(r) => match r.as_array() {
            Some(arr) => match reqs_exec(arr) {
                Ok(v) => v,
                Err(e) => {
                    return Err(e);
                },
            },
            None => {
                return Err(String::from_str("Reqs is not an array"));
            },
        },
        None => Vec::new(),
    };
    assert(py_error(*doc, Seq::empty()) is None);
    let backend = text_or_empty_exec(b, "build-backend");
    let env = AnvilPyEnv {
        proj_name,
        version,
        authors,
        description,
        readme_path,
        python_version_req,
        classifiers,
        scripts,
        urls,
        build_sys: BuildSystem { reqs, backend },
    };
    assert(texts_view(env.classifiers@) =~= match lookup(*p, "classifiers"@) {
        Some(c) => match c.value {
            TomlValue::Array(arr) => items_texts(arr@),
            _ => Seq::empty(),
        },
        None => Seq::empty(),
    });
    assert(authors_view(env.authors@) =~= match lookup(*p, "authors"@) {
        Some(a) => match a.value {
            TomlValue::Array(arr) => authors_from(arr@, 0, Seq::empty()),
            _ => Seq::empty(),
        },
        None => Seq::empty(),
    });
    assert(scripts_view(env.scripts@) =~= match lookup(*p, "scripts"@) {
        Some(s) => match s.value {
            TomlValue::Table(t) => scripts_from(t.entries@, 0, Seq::empty()),
            _ => Seq::empty(),
        },
        None => Seq::empty(),
    });
    assert(urls_view(env.urls@) =~= match py_urls(*p) {
        Ok(x) => x,
        Err(_) => Seq::empty(),
    });
    assert(texts_view(env.build_sys.reqs@) =~= match py_reqs(*b) {
        Ok(x) => x,
        Err(_) => Seq::empty(),
    });
    Ok(env)
}


fn authors_readable_exec(arr: &Vec<TomlItem>) -> (r: bool)
    ensures
        r == authors_readable(arr@),
{
    let n = arr.len();
    let mut i: usize = 0;
    while i < n
        invariant
            n == arr@.len(),
            i <= n,
            forall|j: int|
                0 <= j < i ==> match (#[trigger] arr@[j]).value {
                    TomlValue::Table(t) => text_at(t, "name"@) is Some && text_at(t, "email"@) is Some,
                    _ => true,
                },
        decreases n - i,
    {
        match arr[i].as_table() {
            Some(t) => {
                let name_ok = match t.get("name") {
                    Some(x) => x.as_str().is_some(),
                    None => false,
                };
                let email_ok = match t.get("email") {
                    Some(x) => x.as_str().is_some(),
                    None => false,
                };
                if !(name_ok && email_ok) {
                    return false;
                }
            },
            None => {},
        }
        i = i + 1;
    }
    true
}

fn items_text_exec(arr: &Vec<TomlItem>) -> (r: bool)
    ensures
        r == items_text(arr@),
{
    let n = arr.len();
    let mut i: usize = 0;
    while i < n
        invariant
            n == arr@.len(),
            i <= n,
            forall|j: int| 0 <= j < i ==> (#[trigger] text_of(arr@[j])) is Some,
        decreases n - i,
    {
        if arr[i].as_str().is_none() {
            return false;
        }
        i = i + 1;
    }
    true
}

fn py_settles(doc: &TomlTable) -> (r: bool)
    ensures
        r == (py_error(*doc, Seq::empty()) is None),
{
    let p = match doc.get_table("project") {
        Some(p) => p,
        None => {
            return false;
        },
    };
    match p.get("authors") {
        Some(a) => if a.as_array().is_none() {
            return false;
        },
        None => {},
    }
    match p.get("classifiers") {
        Some(c) => if c.as_array().is_none() {
            return false;
        },
        None => {},
    }
    match p.get("urls") {
        Some(u) => match u.as_table() {
            Some(t) => if urls_exec(t).is_err() {
                return false;
            },
            None => {
                return false;
            },
        },
        None => {},
    }
    match p.get("scripts") {
        Some(s) => if s.as_table().is_none() {
            return false;
        },
        None => {},
    }
    let b = match doc.get_table("build-system") {
        Some(b) => b,
        None => {
            return false;
        },
    };
    match b.get("requires") {
        Some(r) => match r.as_array() {
            Some(arr) => reqs_exec(arr).is_ok(),
            None => false,
        },
        None => true,
    }
}

/// Whether a pyproject document holds text wherever its reader takes text.
pub fn py_is_readable(doc: &TomlTable) -> (r: bool)
    ensures
        r == py_readable(*doc),
{
    let p = match doc.get_table("project") {
        Some(p) => p,
        None => {
            return true;
        },
    };
    if !(is_absent_or_text(p, "version") && is_absent_or_text(p, "name") && is_absent_or_text(
        p,
        "description",
    ) && is_absent_or_text(p, "readme") && is_absent_or_text(p, "requires-python")) {
        return false;
    }
    let mut authors_shape_ok = true;
    match p.get("authors") {
        Some(a) => match a.as_array() {
            Some(arr) => if !authors_readable_exec(arr) {
                return false;
            },
            None => {
                authors_shape_ok = false;
            },
        },
        None => {},
    }
    if authors_shape_ok {
        match p.get("classifiers") {
            Some(c) => match c.as_array() {
                Some(arr) => if !items_text_exec(arr) {
                    return false;
                },
                None => {},
            },
            None => {},
        }
    }
    if py_settles(doc) {
        match doc.get_table("build-system") {
            Some(b) => is_absent_or_text(b, "build-backend"),
            None => false,
        }
    } else {
        true
    }
}

/// Reads a Python project's settings from the pyproject text `pyproj_str`. Text that
/// TOML refuses gives "Failed parsing TOML"; a setting read as text that is not text
/// gives "toml conversion failed".
pub fn parse_pyproject_tomlvalue(pyproj_str: &str, pyproj_path: &str) -> (r: Result<AnvilPyEnv, String>)
    ensures
        toml_document(pyproj_str@) is None ==> (r matches Err(e) && e@ == "Failed parsing TOML"@),
        toml_document(pyproj_str@) matches Some(doc) ==> {
            &&& !py_readable(doc) ==> (r matches Err(e) && e@ == "toml conversion failed"@)
            &&& py_readable(doc) ==> match (r, py_error(doc, pyproj_path@)) {
                (Ok(e), None) => py_env_read(e, doc),
                (Err(e), Some(f)) => e@ == f,
                _ => false,
            }
        },
{
    match parse_toml_document(pyproj_str) {
        None => Err(String::from_str("Failed parsing TOML")),
        Some(doc) => {
            if !py_is_readable(&doc) {
                return Err(String::from_str("toml conversion failed"));
            }
            anvilpy_env_from_toml(&doc, pyproj_path)
        },
    }
}

} // verus!
