//! The custom kern: a builder command and build recipes read from stego.lock.

use vstd::prelude::*;
use std::cmp::Ordering;
use crate::chars::{decimal_text, opt_text, trim_both, trim_char, usize_text};
use crate::semver::{ordering_of, semver_compare, semver_order, semver_order_code, SemVerKey};
use crate::toml_doc::{absent_or_text, is_absent_or_text, lookup, sub_table, text_at, text_field, TomlItem, TomlTable, TomlValue};
use crate::trusted::{parse_toml_document, regex_compiles, regex_finds, regex_is_match, toml_document};
use crate::vtable::{lemma_stable_slot_bounds, sort_by_version, stable_slot};

verus! {

/// How to build the versions from `vers` on.
pub struct AnvilRecipe {
    pub vers: SemVerKey,
    pub conf: Option<String>,
    pub build: String,
}

/// The settings of a custom-kern project.
pub struct AnvilCustomEnv {
    /// Custom builder command string
    pub custom_builder: String,
    pub recipes: Vec<AnvilRecipe>,
}

/// A recipe as text: its version, then its configuration and build commands.
pub open spec fn recipe_view(r: AnvilRecipe) -> (Seq<char>, (Option<Seq<char>>, Seq<char>)) {
    (r.vers.0@, (opt_text(r.conf), r.build@))
}

pub open spec fn recipes_view(s: Seq<AnvilRecipe>) -> Seq<(Seq<char>, (Option<Seq<char>>, Seq<char>))> {
    s.map_values(|r: AnvilRecipe| recipe_view(r))
}

impl AnvilRecipe {
    /// Compares two recipes by version.
    pub fn compare(&self, other: &AnvilRecipe) -> (r: Ordering)
        ensures
            r == ordering_of(semver_order(self.vers.0@, other.vers.0@)),
    {
        semver_compare(self.vers.0.as_str(), other.vers.0.as_str())
    }

    /// A copy of the recipe.
    pub fn duplicate(&self) -> (r: AnvilRecipe)
        ensures
            recipe_view(r) == recipe_view(*self),
    {
        let conf = match &self.conf {
            Some(c) => Some(c.clone()),
            None => None,
        };
        AnvilRecipe { vers: self.vers.duplicate(), conf, build: self.build.clone() }
    }
}

/// The characters that a custom builder command may not hold: shell metacharacters.
pub const RESERVED_CHARS_PATTERN: &'static str = r#"[\$\`\";\|\&><\*\(\)\#\{\}\[\]]"#;

/// Whether `s` holds a character that `RESERVED_CHARS_PATTERN` refuses.
pub open spec fn holds_reserved_char(s: Seq<char>) -> bool {
    regex_compiles(RESERVED_CHARS_PATTERN@) && regex_finds(RESERVED_CHARS_PATTERN@, s)
}

/// Whether `input` holds a shell metacharacter.
pub fn has_reserved_char(input: &str) -> (r: bool)
    ensures
        r == holds_reserved_char(input@),
{
    match regex_is_match(RESERVED_CHARS_PATTERN, input) {
        Some(b) => b,
        None => false,
    }
}

/// The recipe that the `i`-th element of the recipe array describes: a table whose
/// `build` and `vers` (and, if there, `conf`) are taken as TOML prints them, without
/// surrounding double quotes.
pub open spec fn recipe_of(item: TomlItem, i: nat, path: Seq<char>) -> Result<
    (Seq<char>, (Option<Seq<char>>, Seq<char>)),
    Seq<char>,
> {
    match item.value {
        TomlValue::Table(t) => {
            let conf = match lookup(t, "conf"@) {
                Some(c) => Some(trim_both(c.shown@, '"')),
                None => None,
            };
            match lookup(t, "build"@) {
                None => Err("Missing anvil_recipe["@ + decimal_text(i) + "]_build definition"@),
                Some(b) => match lookup(t, "vers"@) {
                    None => Err("Missing anvil_recipe["@ + decimal_text(i) + "]_vers definition"@),
                    Some(v) => Ok((trim_both(v.shown@, '"'), (conf, trim_both(b.shown@, '"')))),
                },
            }
        },
        _ => Err("Wrong definition for anvil_recipe["@ + decimal_text(i) + "] in {"@ + path + "}"@),
    }
}

/// The recipes of the array `arr` from `i` on, after those already in `acc`; the first
/// element that does not describe a recipe ends it with its error.
pub open spec fn recipes_from(
    arr: Seq<TomlItem>,
    i: nat,
    acc: Seq<(Seq<char>, (Option<Seq<char>>, Seq<char>))>,
    path: Seq<char>,
) -> Result<Seq<(Seq<char>, (Option<Seq<char>>, Seq<char>))>, Seq<char>>
    decreases arr.len() - i,
{
    if i >= arr.len() {
        Ok(acc)
    } else {
        match recipe_of(arr[i as int], i, path) {
            Err(e) => Err(e),
            Ok(r) => recipes_from(arr, i + 1, acc.push(r), path),
        }
    }
}

/// What the custom kern reads from a stego.lock document for `anvil_version`: from 2.1.0
/// on the recipes (and an empty builder), before it the builder command.
pub open spec fn custom_outcome(doc: TomlTable, anvil_version: Seq<char>, path: Seq<char>) -> Result<
    (Seq<char>, Seq<(Seq<char>, (Option<Seq<char>>, Seq<char>))>),
    Seq<char>,
> {
    match sub_table(doc, "anvil"@) {
        None => Err("Missing anvil section in {"@ + path + "}"@),
        Some(a) => if semver_order(anvil_version, "2.1.0"@) >= 0 {
            match lookup(a, "recipe"@) {
                None => Err("Missing anvil_recipe in {"@ + path + "}"@),
                Some(it) => match it.value {
                    TomlValue::Array(arr) => match recipes_from(arr@, 0, Seq::empty(), path) {
                        Err(e) => Err(e),
                        Ok(rs) => Ok((Seq::empty(), rs)),
                    },
                    _ => Err("Wrong anvil_recipe definition in {"@ + path + "}"@),
                },
            }
        } else {
            match text_at(a, "custombuilder"@) {
                None => Err("Missing anvil_custombuilder in {"@ + path + "}"@),
                Some(b) => if holds_reserved_char(b) {
                    Err("Invalid custombuilder arg"@)
                } else {
                    Ok((b, Seq::empty()))
                },
            }
        },
    }
}

/// The builder command is text wherever it is read.
pub open spec fn custom_readable(doc: TomlTable, anvil_version: Seq<char>) -> bool {
    match sub_table(doc, "anvil"@) {
        None => true,
        Some(a) => semver_order(anvil_version, "2.1.0"@) >= 0 || absent_or_text(lookup(a, "custombuilder"@)),
    }
}

fn braced(prefix: &str, path: &str) -> (r: String)
    ensures
        r@ == prefix@ + path@ + "}"@,
{
    let mut e = String::from_str(prefix);
    e.append(path);
    e.append("}");
    e
}

fn recipe_exec(item: &TomlItem, i: usize, path: &str) -> (r: Result<AnvilRecipe, String>)
    ensures
        match (r, recipe_of(*item, i as nat, path@)) {
            (Ok(a), Ok(b)) => recipe_view(a) == b,
            (Err(e), Err(f)) => e@ == f,
            _ => false,
        },
{
    let t = match item.as_table() {
        Some(t) => t,
        None => {
            let mut e = String::from_str("Wrong definition for anvil_recipe[");
            e.append(usize_text(i).as_str());
            e.append("] in {");
            e.append(path);
            e.append("}");
            return Err(e);
        },
    };
    let conf = match t.get("conf") {
        Some(c) => Some(trim_char(c.shown.as_str(), '"')),
        None => None,
    };
    let build = match t.get("build") {
        Some(b) => trim_char(b.shown.as_str(), '"'),
        None => {
            let mut e = String::from_str("Missing anvil_recipe[");
            e.append(usize_text(i).as_str());
            e.append("]_build definition");
            return Err(e);
        },
    };
    let vers = match t.get("vers") {
        Some(v) => trim_char(v.shown.as_str(), '"'),
        None => {
            let mut e = String::from_str("Missing anvil_recipe[");
            e.append(usize_text(i).as_str());
            e.append("]_vers definition");
            return Err(e);
        },
    };
    Ok(AnvilRecipe { vers: SemVerKey(vers), conf, build })
}

/// Reads the custom-kern settings from a stego.lock document, for a run as `anvil_version`;
/// `stego_path` names the file in error messages.
pub fn anvilcustom_env_from_toml(doc: &TomlTable, stego_path: &str, anvil_version: &str) -> (r: Result<
    AnvilCustomEnv,
    String,
>)
    requires
        custom_readable(*doc, anvil_version@),
    ensures
        match (r, custom_outcome(*doc, anvil_version@, stego_path@)) {
            (Ok(a), Ok(b)) => a.custom_builder@ == b.0 && recipes_view(a.recipes@) == b.1,
            (Err(e), Err(f)) => e@ == f,
            _ => false,
        },
{
    let a = match doc.get_table("anvil") {
        Some(a) => a,
        None => {
            return Err(braced("Missing anvil section in {", stego_path));
        },
    };
    if semver_order_code(anvil_version, "2.1.0") >= 0 {
        let it = match a.get("recipe") {
            Some(it) => it,
            None => {
                return Err(braced("Missing anvil_recipe in {", stego_path));
            },
        };
        let arr = match it.as_array() {
            Some(arr) => arr,
            None => {
                return Err(braced("Wrong anvil_recipe definition in {", stego_path));
            },
        };
        let mut recipes: Vec<AnvilRecipe> = Vec::new();
        let n = arr.len();
        let mut i: usize = 0;
        assert(recipes_view(recipes@) =~= Seq::<(Seq<char>, (Option<Seq<char>>, Seq<char>))>::empty());
        while i < n
            invariant
                n == arr@.len(),
                i <= n,
                sub_table(*doc, "anvil"@) == Some(*a),
                lookup(*a, "recipe"@) == Some(*it),
                it.value == TomlValue::Array(*arr),
                semver_order(anvil_version@, "2.1.0"@) >= 0,
                recipes_from(arr@, 0, Seq::empty(), stego_path@) == recipes_from(
                    arr@,
                    i as nat,
                    recipes_view(recipes@),
                    stego_path@,
                ),
            decreases n - i,
        {
            match recipe_exec(&arr[i], i, stego_path) {
                Err(e) => {
                    return Err(e);
                },
                Ok(rc) => {
                    let ghost before = recipes@;
                    recipes.push(rc);
                    assert(recipes_view(recipes@) =~= recipes_view(before).push(recipe_view(rc)));
                },
            }
            i = i + 1;
        }
        Ok(AnvilCustomEnv { custom_builder: String::new(), recipes })
    } else {
        match text_field(a, "custombuilder") {
            None => Err(braced("Missing anvil_custombuilder in {", stego_path)),
            Some(b) => {
                if has_reserved_char(b.as_str()) {
                    Err(String::from_str("Invalid custombuilder arg"))
                } else {
                    let recipes: Vec<AnvilRecipe> = Vec::new();
                    assert(recipes_view(recipes@) =~= Seq::<
                        (Seq<char>, (Option<Seq<char>>, Seq<char>)),
                    >::empty());
                    Ok(AnvilCustomEnv { custom_builder: b, recipes })
                }
            },
        }
    }
}

/// Reads the custom-kern settings from the stego.lock text `stego_str`. Text that TOML
/// refuses gives "Failed parsing TOML"; a builder that is not text gives
/// "toml conversion failed".
pub fn parse_anvilcustom_tomlvalue(stego_str: &str, stego_path: &str, anvil_version: &str) -> (r: Result<
    AnvilCustomEnv,
    String,
>)
    ensures
        toml_document(stego_str@) is None ==> (r matches Err(e) && e@ == "Failed parsing TOML"@),
        toml_document(stego_str@) matches Some(doc) ==> {
            &&& !custom_readable(doc, anvil_version@) ==> (r matches Err(e) && e@
                == "toml conversion failed"@)
            &&& custom_readable(doc, anvil_version@) ==> match (r, custom_outcome(doc, anvil_version@, stego_path@)) {
                (Ok(a), Ok(b)) => a.custom_builder@ == b.0 && recipes_view(a.recipes@) == b.1,
                (Err(e), Err(f)) => e@ == f,
                _ => false,
            }
        },
{
    match parse_toml_document(stego_str) {
        None => Err(String::from_str("Failed parsing TOML")),
        Some(doc) => {
            let readable = match doc.get_table("anvil") {
                None => true,
                Some(a) => semver_order_code(anvil_version, "2.1.0") >= 0 || is_absent_or_text(a, "custombuilder"),
            };
            if !readable {
                return Err(String::from_str("toml conversion failed"));
            }
            anvilcustom_env_from_toml(&doc, stego_path, anvil_version)
        },
    }
}

/// Sorts the recipes by version; recipes with equal versions keep their order.
pub fn sort_anvilcustom_env(env: &mut AnvilCustomEnv)
    ensures
        final(env).custom_builder == old(env).custom_builder,
        recipes_view(final(env).recipes@) == sort_by_version(recipes_view(old(env).recipes@)),
{
    let ghost all = recipes_view(env.recipes@);
    let n = env.recipes.len();
    let mut out: Vec<AnvilRecipe> = Vec::new();
    let mut i: usize = 0;
    while i < n
        invariant
            n == env.recipes@.len(),
            i <= n,
            all == recipes_view(env.recipes@),
            recipes_view(out@) == sort_by_version(all.take(i as int)),
        decreases n - i,
    {
        let rc = env.recipes[i].duplicate();
        let mut p = out.len();
        assert(recipes_view(out@).take(out@.len() as int) =~= recipes_view(out@));
        while p > 0 && semver_order_code(out[p - 1].vers.0.as_str(), rc.vers.0.as_str()) > 0
            invariant
                p <= out@.len(),
                stable_slot(recipes_view(out@), rc.vers.0@) == stable_slot(
                    recipes_view(out@).take(p as int),
                    rc.vers.0@,
                ),
            decreases p,
        {
            assert(recipes_view(out@).take(p as int).drop_last() =~= recipes_view(out@).take(p - 1));
            p = p - 1;
        }
        proof {
            assert(all.take(i + 1).drop_last() =~= all.take(i as int));
            assert(all.take(i + 1).last() == all[i as int]);
            lemma_stable_slot_bounds(recipes_view(out@), rc.vers.0@);
            assert(recipes_view(out@.insert(p as int, rc)) =~= recipes_view(out@).insert(
                p as int,
                recipe_view(rc),
            ));
        }
        out.insert(p, rc);
        i = i + 1;
    }
    assert(all.take(n as int) =~= all);
    env.recipes = out;
}

/// The index of the first recipe from `i` on whose version is not older than `query`.
pub open spec fn first_not_older(
    s: Seq<(Seq<char>, (Option<Seq<char>>, Seq<char>))>,
    query: Seq<char>,
    i: nat,
) -> Option<nat>
    decreases s.len() - i,
{
    if i >= s.len() {
        None
    } else if semver_order(s[i as int].0, query) >= 0 {
        Some(i)
    } else {
        first_not_older(s, query, i + 1)
    }
}

/// The first recipe, in the order of `env.recipes`, whose version is not older than `query`.
pub fn find_anvilcustom_recipe(env: &AnvilCustomEnv, query: &str) -> (r: Option<AnvilRecipe>)
    ensures
        r is None <==> first_not_older(recipes_view(env.recipes@), query@, 0) is None,
        r matches Some(x) ==> first_not_older(recipes_view(env.recipes@), query@, 0) matches Some(k)
            && recipe_view(x) == recipes_view(env.recipes@)[k as int],
{
    let n = env.recipes.len();
    let mut i: usize = 0;
    while i < n
        invariant
            n == env.recipes@.len(),
            i <= n,
            first_not_older(recipes_view(env.recipes@), query@, 0) == first_not_older(
                recipes_view(env.recipes@),
                query@,
                i as nat,
            ),
        decreases n - i,
    {
        if semver_order_code(env.recipes[i].vers.0.as_str(), query) >= 0 {
            return Some(env.recipes[i].duplicate());
        }
        i = i + 1;
    }
    None
}

} // verus!
