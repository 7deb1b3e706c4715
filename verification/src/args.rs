//! The command line: the arguments a run is given, and the summaries of them
//! that a run reports.

use vstd::prelude::*;

verus! {

/// The subcommands.
#[derive(Clone)]
pub enum Commands {
    /// Run all tests or the passed TESTNAME
    Test { list: bool, build: bool, query: Option<String> },
    /// Tries building latest tag
    Build,
    /// Prepare a new anvil project
    Init { kern: Option<String>, init_dir: Option<String>, template_name: Option<String> },
    /// Prints invil version
    Version,
}

/// The arguments of a run; paths are held as text.
#[derive(Clone)]
pub struct Args {
    pub amboso_dir: Option<String>,
    pub stego_dir: Option<String>,
    pub builds_dir: Option<String>,
    pub kazoj_dir: Option<String>,
    pub source: Option<String>,
    pub execname: Option<String>,
    pub maketag: Option<String>,
    pub anvil_version: Option<String>,
    pub anvil_kern: Option<String>,
    pub gen_c_header: Option<String>,
    pub linter: Option<String>,
    pub test: bool,
    pub base: bool,
    pub git: bool,
    pub testmacro: bool,
    pub tag: Option<String>,
    pub init: bool,
    pub purge: bool,
    pub delete: bool,
    pub build: bool,
    pub run: bool,
    pub list: bool,
    pub list_all: bool,
    pub quiet: bool,
    pub silent: bool,
    pub verbose: u8,
    pub watch: bool,
    pub version: bool,
    pub warranty: bool,
    pub ignore_gitcheck: bool,
    pub logged: bool,
    pub no_color: bool,
    pub force: bool,
    pub no_rebuild: bool,
    pub config: Option<String>,
    pub cflags: Option<String>,
    pub strict: bool,
    pub command: Option<Commands>,
    pub extra_args: Vec<String>,
}

/// The letter `l` when `b` holds, nothing otherwise.
pub open spec fn flag(b: bool, l: Seq<char>) -> Seq<char> {
    if b {
        l
    } else {
        Seq::empty()
    }
}

/// The letters that `print_config_args` gives.
pub open spec fn config_flags(a: Args) -> Seq<char> {
    flag(a.amboso_dir is Some, "D"@) + flag(a.kazoj_dir is Some, "K"@) + flag(
            a.source is Some,
            "S"@,
        ) + flag(a.execname is Some, "E"@) + flag(a.maketag is Some, "M"@) + flag(
            a.anvil_version is Some,
            "a"@,
        ) + "k"@ + flag(a.ignore_gitcheck, "X"@)
}

/// The letters that `print_mode_args` gives.
pub open spec fn mode_flags(a: Args) -> Seq<char> {
    flag(a.git, "g"@) + flag(a.test, "t"@) + flag(a.base, "b"@) + flag(
            a.testmacro,
            "y"@,
        ) + flag(a.gen_c_header is Some, "G"@) + flag(a.linter is Some, "x"@)
}

/// The letters that `print_info_args` gives.
pub open spec fn info_flags(a: Args) -> Seq<char> {
    flag(a.version, "v"@) + flag(a.watch, "w"@) + flag(a.quiet, "q"@) + flag(
            a.silent,
            "s"@,
        ) + flag(a.list, "l"@) + flag(a.list_all, "L"@) + flag(a.warranty, "W"@)
}

/// The letters that `print_op_args` gives.
pub open spec fn op_flags(a: Args) -> Seq<char> {
    flag(a.build, "b"@) + flag(a.run, "r"@) + flag(a.delete, "d"@) + flag(
            a.init,
            "i"@,
        ) + flag(a.purge, "p"@)
}

/// The letters that `print_extension_args` gives.
pub open spec fn extension_flags(a: Args) -> Seq<char> {
    flag(a.no_rebuild, "R"@) + flag(a.force, "F"@) + flag(a.logged, "J"@) + flag(
            a.no_color,
            "P"@,
        )
}

/// The letters of the configuration flags that were given (`-D -K -S -E -M -a -k -X`).
pub fn print_config_args(args: &Args) -> (r: String)
    requires
        args.anvil_kern is Some,
    ensures
        r@ == config_flags(*args),
{
    let mut s = String::new();
    if args.amboso_dir.is_some() {
        s.append("D");
    }
    if args.kazoj_dir.is_some() {
        s.append("K");
    }
    if args.source.is_some() {
        s.append("S");
    }
    if args.execname.is_some() {
        s.append("E");
    }
    if args.maketag.is_some() {
        s.append("M");
    }
    if args.anvil_version.is_some() {
        s.append("a");
    }
    s.append("k");
    if args.ignore_gitcheck {
        s.append("X");
    }
    assert(s@ =~= config_flags(*args));
    s
}

/// The letters of the mode flags that were given (`-g -t -b -y -G -x`).
pub fn print_mode_args(args: &Args) -> (r: String)
    ensures
        r@ == mode_flags(*args),
{
    let mut s = String::new();
    if args.git {
        s.append("g");
    }
    if args.test {
        s.append("t");
    }
    if args.base {
        s.append("b");
    }
    if args.testmacro {
        s.append("y");
    }
    if args.gen_c_header.is_some() {
        s.append("G");
    }
    if args.linter.is_some() {
        s.append("x");
    }
    assert(s@ =~= mode_flags(*args));
    s
}

/// The letters of the information flags that were given (`-v -w -q -s -l -L -W`).
pub fn print_info_args(args: &Args) -> (r: String)
    ensures
        r@ == info_flags(*args),
{
    let mut s = String::new();
    if args.version {
        s.append("v");
    }
    if args.watch {
        s.append("w");
    }
    if args.quiet {
        s.append("q");
    }
    if args.silent {
        s.append("s");
    }
    if args.list {
        s.append("l");
    }
    if args.list_all {
        s.append("L");
    }
    if args.warranty {
        s.append("W");
    }
    assert(s@ =~= info_flags(*args));
    s
}

/// The letters of the operation flags that were given (`-b -r -d -i -p`).
pub fn print_op_args(args: &Args) -> (r: String)
    ensures
        r@ == op_flags(*args),
{
    let mut s = String::new();
    if args.build {
        s.append("b");
    }
    if args.run {
        s.append("r");
    }
    if args.delete {
        s.append("d");
    }
    if args.init {
        s.append("i");
    }
    if args.purge {
        s.append("p");
    }
    assert(s@ =~= op_flags(*args));
    s
}

/// The letters of the extension flags that were given (`-R -F -J -P`).
pub fn print_extension_args(args: &Args) -> (r: String)
    ensures
        r@ == extension_flags(*args),
{
    let mut s = String::new();
    if args.no_rebuild {
        s.append("R");
    }
    if args.force {
        s.append("F");
    }
    if args.logged {
        s.append("J");
    }
    if args.no_color {
        s.append("P");
    }
    assert(s@ =~= extension_flags(*args));
    s
}

/// What a run reports of its subcommand.
pub open spec fn subcommand_report(c: Option<Commands>) -> Seq<Seq<char>> {
    match c {
        Some(Commands::Test { list, build, query }) => if list {
            seq!["Printing testing lists..."@]
        } else {
            seq!["Not printing testing lists..."@]
        },
        Some(Commands::Build) => seq!["Doing quick build command"@],
        Some(Commands::Init { kern, init_dir, template_name }) => {
            let k = match kern {
                Some(x) => seq!["Passed kern: "@ + x@],
                None => Seq::empty(),
            };
            let d = match init_dir {
                Some(x) => seq!["Passed dir to init: "@ + x@],
                None => seq!["Missing init_dir arg for init command."@],
            };
            let t = match kern {
                Some(x) => if x@ == "custom"@ {
                    match template_name {
                        Some(n) => seq!["Passed template_name to init: "@ + n@],
                        None => seq!["Missing template_name arg for init command."@],
                    }
                } else {
                    Seq::empty()
                },
                None => Seq::empty(),
            };
            k + d + t
        },
        Some(Commands::Version) => seq!["Printing version"@],
        None => Seq::empty(),
    }
}

/// A list of lines, as text.
pub open spec fn lines_view(v: Seq<String>) -> Seq<Seq<char>> {
    v.map_values(|s: String| s@)
}

fn prefixed(prefix: &str, x: &str) -> (r: String)
    ensures
        r@ == prefix@ + x@,
{
    let mut s = String::from_str(prefix);
    s.append(x);
    s
}

/// What a run reports of its subcommand.
pub fn print_subcommand_args(args: &Args) -> (r: Vec<String>)
    ensures
        lines_view(r@) == subcommand_report(args.command),
{
    let mut out: Vec<String> = Vec::new();
    match &args.command {
        Some(Commands::Test { list, build: _, query: _ }) => {
            if *list {
                out.push(String::from_str("Printing testing lists..."));
            } else {
                out.push(String::from_str("Not printing testing lists..."));
            }
        },
        Some(Commands::Build) => {
            out.push(String::from_str("Doing quick build command"));
        },
        Some(Commands::Init { kern, init_dir, template_name }) => {
            match kern {
                Some(k) => {
                    out.push(prefixed("Passed kern: ", k.as_str()));
                },
                None => {},
            }
            match init_dir {
                Some(d) => {
                    out.push(prefixed("Passed dir to init: ", d.as_str()));
                },
                None => {
                    out.push(String::from_str("Missing init_dir arg for init command."));
                },
            }
            match kern {
                Some(k) => {
                    if crate::chars::same_text(k.as_str(), "custom") {
                        match template_name {
                            Some(t) => {
                                out.push(prefixed("Passed template_name to init: ", t.as_str()));
                            },
                            None => {
                                out.push(String::from_str("Missing template_name arg for init command."));
                            },
                        }
                    }
                },
                None => {},
            }
        },
        Some(Commands::Version) => {
            out.push(String::from_str("Printing version"));
        },
        None => {},
    }
    assert(lines_view(out@) =~= subcommand_report(args.command));
    out
}

/// What a run reports of strict mode.
pub fn print_strict_mode_notice(args: &Args) -> (r: &'static str)
    ensures
        r@ == (if args.strict {
            "Running in strict mode."@
        } else {
            "No --strict, running with extensions."@
        }),
{
    if args.strict {
        "Running in strict mode."
    } else {
        "No --strict, running with extensions."
    }
}

fn flags_line(prefix: &str, flags: &str) -> (r: String)
    ensures
        r@ == prefix@ + flags@ + "}"@,
{
    let mut s = String::from_str(prefix);
    s.append(flags);
    s.append("}");
    s
}

/// Everything a run reports of its arguments, line by line: the subcommand, then the
/// configuration, mode, information, operation and extension flags, then strict mode.
pub fn print_grouped_args(args: &Args) -> (r: Vec<String>)
    requires
        args.anvil_kern is Some,
    ensures
        r@.len() == subcommand_report(args.command).len() + 6,
        lines_view(r@).take(subcommand_report(args.command).len() as int) == subcommand_report(args.command),
        ({
            let n = subcommand_report(args.command).len() as int;
            &&& r@[n]@ == "Config flags: {-"@ + config_flags(*args) + "}"@
            &&& r@[n + 1]@ == "Mode flags: {-"@ + mode_flags(*args) + "}"@
            &&& r@[n + 2]@ == "Info flags: {-"@ + info_flags(*args) + "}"@
            &&& r@[n + 3]@ == "Op flags: {-"@ + op_flags(*args) + "}"@
            &&& r@[n + 4]@ == "Extension flags: {-"@ + extension_flags(*args) + "}"@
            &&& r@[n + 5]@ == (if args.strict {
                "Running in strict mode."@
            } else {
                "No --strict, running with extensions."@
            })
        }),
{
    let mut out = print_subcommand_args(args);
    let ghost sub = out@;
    let c = print_config_args(args);
    out.push(flags_line("Config flags: {-", c.as_str()));
    let m = print_mode_args(args);
    out.push(flags_line("Mode flags: {-", m.as_str()));
    let i = print_info_args(args);
    out.push(flags_line("Info flags: {-", i.as_str()));
    let o = print_op_args(args);
    out.push(flags_line("Op flags: {-", o.as_str()));
    let e = print_extension_args(args);
    out.push(flags_line("Extension flags: {-", e.as_str()));
    out.push(String::from_str(print_strict_mode_notice(args)));
    assert(lines_view(out@).take(sub.len() as int) =~= lines_view(sub));
    out
}

} // verus!
