//! The state that a run works on: the project's settings as read from its
//! stego.lock and from the arguments, and the kinds of project and of run.

use vstd::prelude::*;
use crate::custom::AnvilCustomEnv;
use crate::pyproj::AnvilPyEnv;
use crate::semver::SemVerKey;

verus! {

/// How a run works: on git tags, on base versions, on one test, or on all tests.
#[derive(Debug, Clone, Copy, PartialEq, Eq, Structural)]
pub enum AmbosoMode {
    TestMode,
    TestMacro,
    GitMode,
    BaseMode,
}

/// What the linter does with the file it is given.
#[derive(Debug, Clone, Copy, PartialEq, Eq, Structural)]
pub enum AmbosoLintMode {
    FullCheck,
    LintOnly,
    Lex,
    NajloFull,
    NajloDebug,
    NajloQuiet,
}

/// The kind of project.
#[derive(Debug, Clone, Copy, PartialEq, Eq, Structural)]
pub enum AnvilKern {
    AmbosoC,
    AnvilPy,
    Custom,
}

/// The format of a stego.lock file.
#[derive(Debug, Clone, Copy, PartialEq, Eq, Structural)]
pub enum StegoFormat {
    Toml,
    Legacy,
}

/// The name that a project kind goes by.
pub open spec fn kern_name(k: AnvilKern) -> Seq<char> {
    match k {
        AnvilKern::AmbosoC => "amboso-C"@,
        AnvilKern::AnvilPy => "anvilPy"@,
        AnvilKern::Custom => "custom"@,
    }
}

impl AnvilKern {
    /// The name of the kind, as it is written in configuration files.
    pub fn as_text(&self) -> (r: &'static str)
        ensures
            r@ == kern_name(*self),
    {
        match self {
            AnvilKern::AmbosoC => "amboso-C",
            AnvilKern::AnvilPy => "anvilPy",
            AnvilKern::Custom => "custom",
        }
    }
}

/// The user's global configuration.
pub struct AmbosoConf {
    /// Anvil kern
    pub anvil_kern: AnvilKern,
    /// Anvil version we run as
    pub anvil_version: String,
}

/// Everything a run knows about the project.
pub struct AmbosoEnv {
    /// Anvil version we run as
    pub anvil_version: String,
    /// Enable extensions to amboso 2.0
    pub enable_extensions: bool,
    /// Runmode
    pub run_mode: Option<AmbosoMode>,
    /// Path to stego.lock dir
    pub stego_dir: Option<String>,
    /// Path to amboso dir from wd
    pub amboso_dir: Option<String>,
    /// Path to builds dir
    pub builds_dir: Option<String>,
    /// Path to tests dir from wd
    pub tests_dir: Option<String>,
    /// Path to success tests dir from wd
    pub bonetests_dir: Option<String>,
    /// Path to error tests dir from wd
    pub kulpotests_dir: Option<String>,
    /// Main source name for queried tag
    pub source: Option<String>,
    /// Bin name for queried tag
    pub bin: Option<String>,
    /// First tag supporting make for current project
    pub mintag_make: Option<String>,
    /// First tag supporting automake for current project
    pub mintag_automake: Option<String>,
    /// All supported versions with their description, in version order
    pub versions_table: Vec<(SemVerKey, String)>,
    /// Versions supported in base mode, in version order
    pub basemode_versions_table: Vec<(SemVerKey, String)>,
    /// Versions supported in git mode, in version order
    pub gitmode_versions_table: Vec<(SemVerKey, String)>,
    /// String used for configure command argument
    pub configure_arg: String,
    /// String used for CFLAGS
    pub cflags_arg: String,
    /// Allow test mode run
    pub support_testmode: bool,
    /// Supported tests, by name, with their path
    pub bonetests_table: Vec<(String, String)>,
    /// Supported error tests, by name, with their path
    pub kulpotests_table: Vec<(String, String)>,
    /// Do build op
    pub do_build: bool,
    /// Do run op
    pub do_run: bool,
    /// Do delete op
    pub do_delete: bool,
    /// Do init op
    pub do_init: bool,
    /// Do purge op
    pub do_purge: bool,
    /// Allow make builds
    pub support_makemode: bool,
    /// Allow automake builds
    pub support_automakemode: bool,
    /// Anvil kern
    pub anvil_kern: AnvilKern,
    /// Settings read from pyproject.toml, for the anvilPy kern
    pub anvilpy_env: Option<AnvilPyEnv>,
    /// Settings read from stego.lock, for the custom kern
    pub anvilcustom_env: Option<AnvilCustomEnv>,
}

/// The settings of a fresh environment, apart from its three directories.
pub open spec fn env_defaults(e: AmbosoEnv) -> bool {
    &&& e.anvil_version@ == "2.1.0"@
    &&& e.enable_extensions
    &&& e.run_mode is None
    &&& e.tests_dir is None
    &&& e.bonetests_dir is None
    &&& e.kulpotests_dir is None
    &&& e.source is None
    &&& e.bin is None
    &&& e.mintag_make is None
    &&& e.mintag_automake is None
    &&& e.versions_table@.len() == 0
    &&& e.basemode_versions_table@.len() == 0
    &&& e.gitmode_versions_table@.len() == 0
    &&& e.configure_arg@.len() == 0
    &&& e.cflags_arg@.len() == 0
    &&& e.support_testmode
    &&& e.bonetests_table@.len() == 0
    &&& e.kulpotests_table@.len() == 0
    &&& !e.do_build && !e.do_run && !e.do_delete && !e.do_init && !e.do_purge
    &&& e.support_makemode
    &&& !e.support_automakemode
    &&& e.anvil_kern == AnvilKern::AmbosoC
    &&& e.anvilpy_env is None
    &&& e.anvilcustom_env is None
}

impl AmbosoEnv {
    /// A fresh environment with the given directories.
    pub fn new(
        amboso_dir: Option<String>,
        stego_dir: Option<String>,
        builds_dir: Option<String>,
    ) -> (r: AmbosoEnv)
        ensures
            env_defaults(r),
            r.amboso_dir == amboso_dir,
            r.stego_dir == stego_dir,
            r.builds_dir == builds_dir,
    {
        let r = AmbosoEnv {
            anvil_version: String::from_str("2.1.0"),
            enable_extensions: true,
            run_mode: None,
            stego_dir,
            amboso_dir,
            builds_dir,
            tests_dir: None,
            bonetests_dir: None,
            kulpotests_dir: None,
            source: None,
            bin: None,
            mintag_make: None,
            mintag_automake: None,
            versions_table: Vec::new(),
            basemode_versions_table: Vec::new(),
            gitmode_versions_table: Vec::new(),
            configure_arg: String::new(),
            cflags_arg: String::new(),
            support_testmode: true,
            bonetests_table: Vec::new(),
            kulpotests_table: Vec::new(),
            do_build: false,
            do_run: false,
            do_delete: false,
            do_init: false,
            do_purge: false,
            support_makemode: true,
            support_automakemode: false,
            anvil_kern: AnvilKern::AmbosoC,
            anvilpy_env: None,
            anvilcustom_env: None,
        };
        r
    }
}

} // verus!
