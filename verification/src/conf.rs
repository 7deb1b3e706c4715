//! Reading the user's global configuration, `$HOME/.anvil/anvil.toml`.

use vstd::prelude::*;
use crate::chars::same_text;
use crate::env::{AmbosoConf, AnvilKern};
use crate::semver::{semver_order, semver_order_code};
use crate::stego::{anvil_version_stage, check_anvil_version, header_readable};
use crate::toml_doc::{is_absent_or_text, text_at, text_field, TomlTable};
use crate::trusted::{parse_toml_document, toml_document};

verus! {

/// The kind of project that the global configuration names, for version `v`: named
/// kinds are read from 2.0.2 on; anvilPy needs 2.1.0 and at least 2.0.5, custom needs
/// 2.1.0 and at least 2.0.9.
pub open spec fn conf_kern_stage(anvil: TomlTable, v: Seq<char>) -> Result<AnvilKern, Seq<char>> {
    if semver_order(v, "2.0.2"@) < 0 {
        Ok(AnvilKern::AmbosoC)
    } else {
        match text_at(anvil, "kern"@) {
            None => Ok(AnvilKern::AmbosoC),
            Some(k) => if k == "amboso-C"@ {
                Ok(AnvilKern::AmbosoC)
            } else if k == "anvilPy"@ {
                if semver_order(v, "2.1.0"@) < 0 || semver_order(v, "2.0.5"@) < 0 {
                    Err("Unsupported anvil_kern"@)
                } else {
                    Ok(AnvilKern::AnvilPy)
                }
            } else if k == "custom"@ {
                if semver_order(v, "2.1.0"@) < 0 || semver_order(v, "2.0.9"@) < 0 {
                    Err("Unsupported anvil_kern"@)
                } else {
                    Ok(AnvilKern::Custom)
                }
            } else {
                Err("Invalid anvil_kern"@)
            },
        }
    }
}

/// The version and kind of project that the global configuration `doc` sets; version
/// 2.1.0 and the amboso-C kind where it sets none.
pub open spec fn conf_outcome(doc: TomlTable) -> Result<(Seq<char>, AnvilKern), Seq<char>> {
    match crate::toml_doc::sub_table(doc, "anvil"@) {
        None => Ok(("2.1.0"@, AnvilKern::AmbosoC)),
        Some(a) => match anvil_version_stage(a) {
            Err(e) => Err(e),
            Ok((v, _)) => match conf_kern_stage(a, v) {
                Err(e) => Err(e),
                Ok(k) => Ok((v, k)),
            },
        },
    }
}

/// Reads the global configuration document `doc`.
pub fn invil_conf_from_toml(doc: &TomlTable) -> (r: Result<AmbosoConf, String>)
    requires
        header_readable(*doc),
    ensures
        match (r, conf_outcome(*doc)) {
            (Ok(c), Ok(o)) => c.anvil_version@ == o.0 && c.anvil_kern == o.1,
            (Err(e), Err(f)) => e@ == f,
            _ => false,
        },
{
    let anvil = match doc.get_table("anvil") {
        None => {
            return Ok(AmbosoConf { anvil_kern: AnvilKern::AmbosoC, anvil_version: String::from_str("2.1.0") });
        },
        Some(a) => a,
    };
    let v = match text_field(anvil, "version") {
        None => String::from_str("2.1.0"),
        Some(s) => match check_anvil_version(s.as_str()) {
            Err(e) => {
                return Err(e);
            },
            Ok((v, _)) => v,
        },
    };
    if semver_order_code(v.as_str(), "2.0.2") < 0 {
        return Ok(AmbosoConf { anvil_kern: AnvilKern::AmbosoC, anvil_version: v });
    }
    let kern = match text_field(anvil, "kern") {
        None => AnvilKern::AmbosoC,
        Some(k) => {
            if same_text(k.as_str(), "amboso-C") {
                AnvilKern::AmbosoC
            } else if same_text(k.as_str(), "anvilPy") {
                if semver_order_code(v.as_str(), "2.1.0") < 0 || semver_order_code(v.as_str(), "2.0.5") < 0 {
                    return Err(String::from_str("Unsupported anvil_kern"));
                }
                AnvilKern::AnvilPy
            } else if same_text(k.as_str(), "custom") {
                if semver_order_code(v.as_str(), "2.1.0") < 0 || semver_order_code(v.as_str(), "2.0.9") < 0 {
                    return Err(String::from_str("Unsupported anvil_kern"));
                }
                AnvilKern::Custom
            } else {
                return Err(String::from_str("Invalid anvil_kern"));
            }
        },
    };
    Ok(AmbosoConf { anvil_kern: kern, anvil_version: v })
}

/// Whether the anvil section of a configuration holds text where it is read.
pub fn header_is_readable(doc: &TomlTable) -> (r: bool)
    ensures
        r == header_readable(*doc),
{
    match doc.get_table("anvil") {
        None => true,
        Some(a) => {
            if !is_absent_or_text(a, "version") {
                return false;
            }
            let stage = match text_field(a, "version") {
                None => Ok((String::from_str("2.1.0"), true)),
                Some(s) => check_anvil_version(s.as_str()),
            };
            match stage {
                Err(_) => true,
                Ok((v, _)) => semver_order_code(v.as_str(), "2.0.2") < 0 || is_absent_or_text(a, "kern"),
            }
        },
    }
}

/// Reads the global configuration text `invil_str`. Text that TOML refuses gives
/// "Failed parsing TOML"; a version or kind that is not text gives "toml conversion failed".
pub fn parse_invil_tomlvalue(invil_str: &str) -> (r: Result<AmbosoConf, String>)
    ensures
        toml_document(invil_str@) is None ==> (r matches Err(e) && e@ == "Failed parsing TOML"@),
        toml_document(invil_str@) matches Some(doc) ==> {
            &&& !header_readable(doc) ==> (r matches Err(e) && e@ == "toml conversion failed"@)
            &&& header_readable(doc) ==> match (r, conf_outcome(doc)) {
                (Ok(c), Ok(o)) => c.anvil_version@ == o.0 && c.anvil_kern == o.1,
                (Err(e), Err(f)) => e@ == f,
                _ => false,
            }
        },
{
    match parse_toml_document(invil_str) {
        None => Err(String::from_str("Failed parsing TOML")),
        Some(doc) => {
            if !header_is_readable(&doc) {
                return Err(String::from_str("toml conversion failed"));
            }
            invil_conf_from_toml(&doc)
        },
    }
}

} // verus!
