//! A new project: the kind asked for, the names it takes from its directory, where its
//! files go and what they hold.

use vstd::prelude::*;
use crate::chars::{
    dashes_to_underscores, has_infix, has_prefix, has_suffix, lemma_infix_across, lemma_infix_across_named, lemma_infix_grows, lemma_infix_join, lemma_prefix_grows,
    path_join, path_push, replace_dashes,
};
use crate::env::AnvilKern;
use crate::trusted::{to_upper, upper_text};

verus! {

/// The kind of project named `kern`; none for an unknown name.
pub open spec fn init_kern_spec(kern: Seq<char>) -> Option<AnvilKern> {
    if kern == "amboso-C"@ {
        Some(AnvilKern::AmbosoC)
    } else if kern == "anvilPy"@ {
        Some(AnvilKern::AnvilPy)
    } else if kern == "custom"@ {
        Some(AnvilKern::Custom)
    } else {
        None
    }
}

/// The kind of project that `init` was asked for, by its name; none for an unknown name.
pub fn init_kern(kern: &str) -> (r: Option<AnvilKern>)
    ensures
        r == init_kern_spec(kern@),
        kern@ == "amboso-C"@ ==> r == Some(AnvilKern::AmbosoC),
        kern@ == "anvilPy"@ ==> r == Some(AnvilKern::AnvilPy),
        kern@ == "custom"@ ==> r == Some(AnvilKern::Custom),
        kern@ != "amboso-C"@ && kern@ != "anvilPy"@ && kern@ != "custom"@ ==> r is None,
{
    proof {
        reveal_strlit("amboso-C");
        reveal_strlit("anvilPy");
        reveal_strlit("custom");
        assert("amboso-C"@.len() == 8 && "anvilPy"@.len() == 7 && "custom"@.len() == 6);
    }
    if crate::chars::same_text(kern, "amboso-C") {
        Some(AnvilKern::AmbosoC)
    } else if crate::chars::same_text(kern, "anvilPy") {
        Some(AnvilKern::AnvilPy)
    } else if crate::chars::same_text(kern, "custom") {
        Some(AnvilKern::Custom)
    } else {
        None
    }
}

/// Whether one of the names found among the templates is the template asked for.
pub fn template_found(names: &Vec<String>, template: &str) -> (r: bool)
    ensures
        r == exists|i: int| 0 <= i < names@.len() && #[trigger] names@[i]@ == template@,
{
    let mut i: usize = 0;
    while i < names.len()
        invariant
            i <= names@.len(),
            forall|j: int| 0 <= j < i ==> #[trigger] names@[j]@ != template@,
        decreases names@.len() - i,
    {
        if crate::chars::same_text(names[i].as_str(), template) {
            return true;
        }
        i = i + 1;
    }
    false
}

/// The directory that holds the templates of custom projects, under the home directory.
pub fn templates_dir(home: &str) -> (r: String)
    ensures
        r@ == home@ + "/.anvil/templates/"@,
{
    let mut r = String::from_str(home);
    r.append("/.anvil/templates/");
    r
}

/// The directory of one template, under the home directory.
pub fn template_dir(home: &str, template: &str) -> (r: String)
    ensures
        r@ == home@ + "/.anvil/templates/"@ + template@ + "/"@,
{
    let mut r = templates_dir(home);
    r.append(template);
    r.append("/");
    r
}

/// The names of a new project: the binary's name and the prefix of its flags variables.
/// A strict run uses `hello_world` and `HW_`; otherwise the name is the directory's
/// name with `_` for `-`, and the prefix is that name in capitals.
pub open spec fn project_names(strict: bool, dir_name: Seq<char>) -> (Seq<char>, Seq<char>) {
    if strict {
        ("hello_world"@, "HW_"@)
    } else {
        let n = dashes_to_underscores(dir_name);
        (n, upper_text(n))
    }
}

/// The names of a new project.
pub fn project_names_of(strict: bool, dir_name: &str) -> (r: (String, String))
    ensures
        (r.0@, r.1@) == project_names(strict, dir_name@),
{
    if strict {
        (String::from_str("hello_world"), String::from_str("HW_"))
    } else {
        let n = replace_dashes(dir_name);
        let c = to_upper(n.as_str());
        (n, c)
    }
}

/// Where the files of a new project go.
pub struct InitLayout {
    pub src: String,
    pub bin: String,
    pub stub_version: String,
    pub tests: String,
    pub bone_tests: String,
    pub kulpo_tests: String,
    pub stego: String,
    pub main: String,
    pub gitignore: String,
    pub makefile_am: String,
    pub configure_ac: String,
    pub pyproject: String,
}

/// `<dir>/<file>`, as a path is written with `format!`.
pub open spec fn in_dir(dir: Seq<char>, file: Seq<char>) -> Seq<char> {
    dir + seq!['/'] + file
}

/// `<dir>/<file>`.
pub fn in_dir_path(dir: &str, file: &str) -> (r: String)
    ensures
        r@ == in_dir(dir@, file@),
{
    let mut r = String::from_str(dir);
    r.append("/");
    r.append(file);
    proof {
        reveal_strlit("/");
    }
    r
}

/// Where the files of a new amboso-C or anvilPy project in `target`, named `name`, go:
/// the sources under `src` (amboso-C) or under the name (anvilPy); `bin` with a stub
/// `v0.1.0`; `tests` with `ok` and `errors`; the stego.lock, .gitignore, Makefile.am,
/// configure.ac and pyproject.toml in `target`, and the main source among the sources.
pub fn init_layout(target: &str, python: bool, name: &str) -> (r: InitLayout)
    ensures
        r.src@ == path_join(target@, if python { name@ } else { "src"@ }),
        r.bin@ == path_join(target@, "bin"@),
        r.stub_version@ == path_join(r.bin@, "v0.1.0"@),
        r.tests@ == path_join(target@, "tests"@),
        r.bone_tests@ == path_join(r.tests@, "ok"@),
        r.kulpo_tests@ == path_join(r.tests@, "errors"@),
        r.stego@ == in_dir(target@, "stego.lock"@),
        r.main@ == in_dir(r.src@, if python { "main.py"@ } else { "main.c"@ }),
        r.gitignore@ == in_dir(target@, ".gitignore"@),
        r.makefile_am@ == in_dir(target@, "Makefile.am"@),
        r.configure_ac@ == in_dir(target@, "configure.ac"@),
        r.pyproject@ == in_dir(target@, "pyproject.toml"@),
{
    let src = if python {
        path_push(target, name)
    } else {
        path_push(target, "src")
    };
    let bin = path_push(target, "bin");
    let stub_version = path_push(bin.as_str(), "v0.1.0");
    let tests = path_push(target, "tests");
    let bone_tests = path_push(tests.as_str(), "ok");
    let kulpo_tests = path_push(tests.as_str(), "errors");
    let main = if python {
        in_dir_path(src.as_str(), "main.py")
    } else {
        in_dir_path(src.as_str(), "main.c")
    };
    InitLayout {
        src,
        bin,
        stub_version,
        tests,
        bone_tests,
        kulpo_tests,
        stego: in_dir_path(target, "stego.lock"),
        main,
        gitignore: in_dir_path(target, ".gitignore"),
        makefile_am: in_dir_path(target, "Makefile.am"),
        configure_ac: in_dir_path(target, "configure.ac"),
        pyproject: in_dir_path(target, "pyproject.toml"),
    }
}

/// The main source of a new amboso-C project, as written (its braces doubled).
pub const MAIN_C: &'static str = "#include <stdio.h>\nint main(void) {{\n    printf(\"Hello, World!\\n\");\n    return 0;\n}}\n";

/// The main source of a new anvilPy project.
pub const MAIN_PY: &'static str = "#!/bin/python3\ndef main():\n    print(\"Hello, World!\");\n";

/// The stego.lock of a new amboso-C project named `name`.
pub open spec fn stego_c_text(name: Seq<char>) -> Seq<char> {
    "[build]\n\n"@
        + "source = \"main.c\"\n\n"@
        + "bin = \""@
        + name
        + "\"\n\n"@
        + "makevers = \"0.1.0\"\n\n"@
        + "automakevers = \"0.1.0\"\n\n"@
        + "tests = \"tests\"\n\n"@
        + "[tests]\n\n"@
        + "testsdir = \"ok\"\n\n"@
        + "errortestsdir = \"errors\"\n\n"@
        + "[versions]\n\n"@
        + "\"0.1.0\" = \""@
        + name
        + "\"\n"@
}

/// The stego.lock of a new amboso-C project.
pub fn stego_c(name: &str) -> (r: String)
    ensures
        r@ == stego_c_text(name@),
{
    let mut r = String::from_str("[build]\n\n");
    r.append("source = \"main.c\"\n\n");
    r.append("bin = \"");
    r.append(name);
    r.append("\"\n\n");
    r.append("makevers = \"0.1.0\"\n\n");
    r.append("automakevers = \"0.1.0\"\n\n");
    r.append("tests = \"tests\"\n\n");
    r.append("[tests]\n\n");
    r.append("testsdir = \"ok\"\n\n");
    r.append("errortestsdir = \"errors\"\n\n");
    r.append("[versions]\n\n");
    r.append("\"0.1.0\" = \"");
    r.append(name);
    r.append("\"\n");
    r
}

/// The stego.lock of a new anvilPy project named `name`.
pub open spec fn stego_py_text(name: Seq<char>) -> Seq<char> {
    "[anvil]\n\n"@
        + "kern = \"anvilPy\"\n\n"@
        + "version = \"2.1.0\"\n\n"@
        + "[build]\n\n"@
        + "source = \"main.py\"\n\n"@
        + "bin = \""@
        + name
        + "\"\n\n"@
        + "makevers = \"0.1.0\"\n\n"@
        + "automakevers = \"0.1.0\"\n\n"@
        + "tests = \"tests\"\n\n"@
        + "[tests]\n\n"@
        + "testsdir = \"ok\"\n\n"@
        + "errortestsdir = \"errors\"\n\n"@
        + "[versions]\n\n"@
        + "\"0.1.0\" = \""@
        + name
        + "\"\n"@
}

/// The stego.lock of a new project names it: its binary is the project's name, and its
/// one version, 0.1.0, which ends the file, is described by that name. An anvilPy
/// project's begins with the anvil section, which gives the kind anvilPy and the version
/// 2.1.0; an amboso-C project's begins with the build section and names neither.
pub proof fn lemma_new_stego_lock_names_project(name: Seq<char>)
    ensures
        has_infix(stego_c_text(name), "bin = \""@ + name + "\""@),
        has_infix(stego_py_text(name), "bin = \""@ + name + "\""@),
        has_suffix(stego_c_text(name), "\"0.1.0\" = \""@ + name + "\"\n"@),
        has_suffix(stego_py_text(name), "\"0.1.0\" = \""@ + name + "\"\n"@),
        has_prefix(stego_c_text(name), "[build]\n\n"@),
        has_prefix(stego_py_text(name), "[anvil]\n\n"@ + "kern = \"anvilPy\"\n\n"@ + "version = \"2.1.0\"\n\n"@),
{
    reveal_strlit("bin = \"");
    reveal_strlit("\"\n\n");
    reveal_strlit("\"");
    let x = "bin = \""@;
    let z = "\"\n\n"@;
    assert(x.skip(0) =~= x);
    assert(z.take(1) =~= "\""@);
    lemma_infix_grows();
    lemma_infix_across(x, x, name, z, "\""@);
    let v = "\"0.1.0\" = \""@ + name + "\"\n"@;
    let c = stego_c_text(name);
    let p = stego_py_text(name);
    assert(c.skip(c.len() - v.len()) =~= v);
    assert(p.skip(p.len() - v.len()) =~= v);
    lemma_prefix_grows();
    let a = "[anvil]\n\n"@ + "kern = \"anvilPy\"\n\n"@ + "version = \"2.1.0\"\n\n"@;
    assert(a.take(a.len() as int) =~= a);
    assert("[build]\n\n"@.take("[build]\n\n"@.len() as int) =~= "[build]\n\n"@);
}

/// The stego.lock of a new anvilPy project.
pub fn stego_py(name: &str) -> (r: String)
    ensures
        r@ == stego_py_text(name@),
{
    let mut r = String::from_str("[anvil]\n\n");
    r.append("kern = \"anvilPy\"\n\n");
    r.append("version = \"2.1.0\"\n\n");
    r.append("[build]\n\n");
    r.append("source = \"main.py\"\n\n");
    r.append("bin = \"");
    r.append(name);
    r.append("\"\n\n");
    r.append("makevers = \"0.1.0\"\n\n");
    r.append("automakevers = \"0.1.0\"\n\n");
    r.append("tests = \"tests\"\n\n");
    r.append("[tests]\n\n");
    r.append("testsdir = \"ok\"\n\n");
    r.append("errortestsdir = \"errors\"\n\n");
    r.append("[versions]\n\n");
    r.append("\"0.1.0\" = \"");
    r.append(name);
    r.append("\"\n");
    r
}

/// The .gitignore of a new amboso-C project named `name`.
pub open spec fn gitignore_c_text(name: Seq<char>) -> Seq<char> {
    "# ignore object files\n*.o\n"@
        + "# also explicitly ignore our executable for good measure\n"@
        + name
        + "\n"@
        + "# also explicitly ignore our windows executable for good measure\n"@
        + name
        + ".exe\n"@
        + "# also explicitly ignore our debug executable for good measure\n"@
        + name
        + "_debug\n"@
        + "#We also want to ignore the dotfile dump if we ever use anvil with -c flag\n"@
        + "amboso_cfg.dot\n#We want to ignore anvil log file\nanvil.log\n"@
        + "#We want to ignore default anvil build dir\nbin\n"@
        + "# MacOS DS_Store ignoring\n.DS_Store\n"@
        + "# ignore debug log file\ndebug_log.txt\n"@
        + "# ignore files generated by Autotools\nautom4te.cache/\n"@
        + "compile\nconfig.guess\nconfig.log\nconfig.status\nconfig.sub\n"@
        + "configure\ninstall-sh\nmissing\naclocal.m4\nconfigure~\n"@
        + "Makefile\nMakefile.in\n"@
}

/// The .gitignore of a new amboso-C project.
pub fn gitignore_c(name: &str) -> (r: String)
    ensures
        r@ == gitignore_c_text(name@),
{
    let mut r = String::from_str("# ignore object files\n*.o\n");
    r.append("# also explicitly ignore our executable for good measure\n");
    r.append(name);
    r.append("\n");
    r.append("# also explicitly ignore our windows executable for good measure\n");
    r.append(name);
    r.append(".exe\n");
    r.append("# also explicitly ignore our debug executable for good measure\n");
    r.append(name);
    r.append("_debug\n");
    r.append("#We also want to ignore the dotfile dump if we ever use anvil with -c flag\n");
    r.append("amboso_cfg.dot\n#We want to ignore anvil log file\nanvil.log\n");
    r.append("#We want to ignore default anvil build dir\nbin\n");
    r.append("# MacOS DS_Store ignoring\n.DS_Store\n");
    r.append("# ignore debug log file\ndebug_log.txt\n");
    r.append("# ignore files generated by Autotools\nautom4te.cache/\n");
    r.append("compile\nconfig.guess\nconfig.log\nconfig.status\nconfig.sub\n");
    r.append("configure\ninstall-sh\nmissing\naclocal.m4\nconfigure~\n");
    r.append("Makefile\nMakefile.in\n");
    r
}

/// The .gitignore of a new anvilPy project named `name`.
pub open spec fn gitignore_py_text(name: Seq<char>) -> Seq<char> {
    "#Generated by amboso v2.1.0\n# ignore dist dir\ndist\n"@
        + "# ignore __pycache__\n__pycache__\n# ignore build dir\nbuild\n"@
        + "# ignore egg info dir\n"@
        + name
        + ".egg-info\n"@
}

/// The .gitignore of a new anvilPy project.
pub fn gitignore_py(name: &str) -> (r: String)
    ensures
        r@ == gitignore_py_text(name@),
{
    let mut r = String::from_str("#Generated by amboso v2.1.0\n# ignore dist dir\ndist\n");
    r.append("# ignore __pycache__\n__pycache__\n# ignore build dir\nbuild\n");
    r.append("# ignore egg info dir\n");
    r.append(name);
    r.append(".egg-info\n");
    r
}

/// The Makefile.am of a new amboso-C project named `name`, whose flags variables start with `caps`.
pub open spec fn makefile_am_text(name: Seq<char>, caps: Seq<char>) -> Seq<char> {
    "AUTOMAKE_OPTIONS = foreign\nCFLAGS = @CFLAGS@\n"@
        + "SHELL := /bin/bash\n.ONESHELL:\nMACHINE := $$(uname -m)\n"@
        + "PACK_NAME = $(TARGET)-$(VERSION)-$(OS)-$(MACHINE)\n"@
        + name
        + "_SOURCES = src/main.c\nLDADD = $("@
        + caps
        + "_LDFLAGS)\nAM_LDFLAGS = -O2\nAM_CFLAGS = $("@
        + caps
        + "_CFLAGS) -O2 -Werror -Wpedantic -Wall\nif DEBUG_BUILD\n"@
        + "AM_LDFLAGS += -ggdb -O0\nAM_CFLAGS += \nelse\n"@
        + "AM_LDFLAGS += -s\nendif\n%.o: %.c\n"@
        + "\t$(CCOMP) -c $(CFLAGS) $(AM_CFLAGS) $< -o $@\n$(TARGET): $("@
        + name
        + "_SOURCES:.c=.o)\n"@
        + "\t@echo -e \"    AM_CFLAGS: [ $(AM_CFLAGS) ]\"\n"@
        + "\t@echo -e \"    LDADD: [ $(LDADD) ]\"\n"@
        + "\t$(CCOMP) $(CFLAGS) $(AM_CFLAGS) $("@
        + name
        + "_SOURCES:.c=.o) -o $@ $(LDADD) $(AM_LDFLAGS)\nclean:\n"@
        + "\t@echo -en \"Cleaning build artifacts:  \"\n\t-rm $(TARGET)\n"@
        + "\t-rm src/*.o\n\t-rm static/*.o\n\t@echo -e \"Done.\"\ncleanob:\n"@
        + "\t@echo -en \"Cleaning object build artifacts:  \"\n"@
        + "\t-rm src/*.o\n\t-rm static/*.o\n\t@echo -e \"Done.\"\nanviltest:\n"@
        + "\t@echo -en \"Running anvil tests.\"\n\t./anvil -tX\n"@
        + "\t@echo -e \"Done.\"\nall: $(TARGET)\nrebuild: clean all\n"@
        + ".DEFAULT_GOAL := all\n"@
}

/// The Makefile.am of a new amboso-C project ends by defining `all` (the target), then
/// `rebuild` as a clean followed by `all` (the target the amboso-C build step runs, with
/// `make rebuild`), and last makes `all` the default goal.
pub proof fn lemma_makefile_am_defines_rebuild(name: Seq<char>, caps: Seq<char>)
    ensures
        has_suffix(makefile_am_text(name, caps), "all: $(TARGET)\nrebuild: clean all\n.DEFAULT_GOAL := all\n"@),
{
    reveal_strlit("\t@echo -e \"Done.\"\nall: $(TARGET)\nrebuild: clean all\n");
    reveal_strlit(".DEFAULT_GOAL := all\n");
    reveal_strlit("all: $(TARGET)\nrebuild: clean all\n.DEFAULT_GOAL := all\n");
    let t = makefile_am_text(name, caps);
    let e = "all: $(TARGET)\nrebuild: clean all\n.DEFAULT_GOAL := all\n"@;
    assert(t.skip(t.len() - e.len()) =~= e);
}

/// The Makefile.am of a new amboso-C project.
pub fn makefile_am(name: &str, caps: &str) -> (r: String)
    ensures
        r@ == makefile_am_text(name@, caps@),
{
    let mut r = String::from_str("AUTOMAKE_OPTIONS = foreign\nCFLAGS = @CFLAGS@\n");
    r.append("SHELL := /bin/bash\n.ONESHELL:\nMACHINE := $$(uname -m)\n");
    r.append("PACK_NAME = $(TARGET)-$(VERSION)-$(OS)-$(MACHINE)\n");
    r.append(name);
    r.append("_SOURCES = src/main.c\nLDADD = $(");
    r.append(caps);
    r.append("_LDFLAGS)\nAM_LDFLAGS = -O2\nAM_CFLAGS = $(");
    r.append(caps);
    r.append("_CFLAGS) -O2 -Werror -Wpedantic -Wall\nif DEBUG_BUILD\n");
    r.append("AM_LDFLAGS += -ggdb -O0\nAM_CFLAGS += \nelse\n");
    r.append("AM_LDFLAGS += -s\nendif\n%.o: %.c\n");
    r.append("\t$(CCOMP) -c $(CFLAGS) $(AM_CFLAGS) $< -o $@\n$(TARGET): $(");
    r.append(name);
    r.append("_SOURCES:.c=.o)\n");
    r.append("\t@echo -e \"    AM_CFLAGS: [ $(AM_CFLAGS) ]\"\n");
    r.append("\t@echo -e \"    LDADD: [ $(LDADD) ]\"\n");
    r.append("\t$(CCOMP) $(CFLAGS) $(AM_CFLAGS) $(");
    r.append(name);
    r.append("_SOURCES:.c=.o) -o $@ $(LDADD) $(AM_LDFLAGS)\nclean:\n");
    r.append("\t@echo -en \"Cleaning build artifacts:  \"\n\t-rm $(TARGET)\n");
    r.append("\t-rm src/*.o\n\t-rm static/*.o\n\t@echo -e \"Done.\"\ncleanob:\n");
    r.append("\t@echo -en \"Cleaning object build artifacts:  \"\n");
    r.append("\t-rm src/*.o\n\t-rm static/*.o\n\t@echo -e \"Done.\"\nanviltest:\n");
    r.append("\t@echo -en \"Running anvil tests.\"\n\t./anvil -tX\n");
    r.append("\t@echo -e \"Done.\"\nall: $(TARGET)\nrebuild: clean all\n");
    r.append(".DEFAULT_GOAL := all\n");
    r
}

/// The configure.ac of a new amboso-C project named `name`, whose flags variables start with `caps`, made by version `invil_version` of the tool.
pub open spec fn configure_ac_text(invil_version: Seq<char>, name: Seq<char>, caps: Seq<char>) -> Seq<char> {
    "# Generated by invil v"@
        + invil_version
        + "\nAC_INIT(["@
        + name
        + "], [0.1.0], [email@example.com])\n"@
        + "AM_INIT_AUTOMAKE([foreign -Wall])\nAC_CANONICAL_HOST\n"@
        + "build_linux=no\nbuild_windows=no\nbuild_mac=no\n"@
        + "echo \"Host os:  $host_os\"\n\n"@
        + "AC_ARG_ENABLE([debug],  [AS_HELP_STRING([--enable-debug], [Enable debug build])],  [enable_debug=$enableval],  [enable_debug=no])\n"@
        + "AM_CONDITIONAL([DEBUG_BUILD], [test \"$enable_debug\" = \"yes\"])\n"@
        + "case \"${host_os}\" in\n\tmingw*)\n"@
        + "\t\techo \"Building for mingw32: [$host_cpu-$host_vendor-$host_os]\"\n"@
        + "\t\tbuild_windows=yes\n\t\tAC_SUBST(["@
        + caps
        + "_CFLAGS], [\"-I/usr/x86_64-w64-mingw32/include -static -fstack-protector\"])\n"@
        + "\t\tAC_SUBST(["@
        + caps
        + "_LDFLAGS], [\"-L/usr/x86_64-w64-mingw32/lib\"])\n"@
        + "\t\tAC_SUBST([CCOMP], [\"/usr/bin/x86_64-w64-mingw32-gcc\"])\n"@
        + "\t\tAC_SUBST([OS], [\"w64-mingw32\"])\n\t\tAC_SUBST([TARGET], [\""@
        + name
        + ".exe\"])\n\t;;\n\tdarwin*)\n\t\tbuild_mac=yes\n"@
        + "\t\techo \"Building for macos: [$host_cpu-$host_vendor-$host_os]\"\n"@
        + "\t\tAC_SUBST(["@
        + caps
        + "_CFLAGS], [\"-I/opt/homebrew/opt/ncurses/include\"])\n"@
        + "\t\tAC_SUBST(["@
        + caps
        + "_LDFLAGS], [\"-L/opt/homebrew/opt/ncurses/lib\"])\n"@
        + "\t\tAC_SUBST([OS], [\"darwin\"])\n\t\tAC_SUBST([TARGET], [\""@
        + name
        + "\"])\n\t;;\n\tlinux*)\n"@
        + "\t\techo \"Building for Linux: [$host_cpu-$host_vendor-$host_os]\"\n"@
        + "\t\tbuild_linux=yes\n\t\tAC_SUBST(["@
        + caps
        + "_CFLAGS], [\"\"])\n\t\tAC_SUBST(["@
        + caps
        + "_LDFLAGS], [\"\"])\n\t\tAC_SUBST([OS], [\"Linux\"])\n"@
        + "\t\tAC_SUBST([TARGET], [\""@
        + name
        + "\"])\n\t;;\nesac\n\n"@
        + "AM_CONDITIONAL([DARWIN_BUILD], [test \"$build_mac\" = \"yes\"])\n"@
        + "AM_CONDITIONAL([WINDOWS_BUILD], [test \"$build_windows\" = \"yes\"])\n"@
        + "AM_CONDITIONAL([LINUX_BUILD], [test \"$build_linux\" = \"yes\"])\n"@
        + "\nAC_ARG_VAR([VERSION], [Version number])\n"@
        + "if test -z \"$VERSION\"; then\n  VERSION=\"0.1.0\"\nfi\n"@
        + "AC_DEFINE_UNQUOTED([VERSION], [\"$VERSION\"], [Version number])\n"@
        + "AC_CHECK_PROGS([CCOMP], [gcc clang])\n"@
        + "AC_CHECK_HEADERS([stdio.h])\n"@
        + "AC_CHECK_FUNCS([malloc calloc])\n"@
        + "AC_CONFIG_FILES([Makefile])\nAC_OUTPUT\n"@
}

/// The configure.ac of a new amboso-C project.
pub fn configure_ac(invil_version: &str, name: &str, caps: &str) -> (r: String)
    ensures
        r@ == configure_ac_text(invil_version@, name@, caps@),
{
    let mut r = String::from_str("# Generated by invil v");
    r.append(invil_version);
    r.append("\nAC_INIT([");
    r.append(name);
    r.append("], [0.1.0], [email@example.com])\n");
    r.append("AM_INIT_AUTOMAKE([foreign -Wall])\nAC_CANONICAL_HOST\n");
    r.append("build_linux=no\nbuild_windows=no\nbuild_mac=no\n");
    r.append("echo \"Host os:  $host_os\"\n\n");
    r.append("AC_ARG_ENABLE([debug],  [AS_HELP_STRING([--enable-debug], [Enable debug build])],  [enable_debug=$enableval],  [enable_debug=no])\n");
    r.append("AM_CONDITIONAL([DEBUG_BUILD], [test \"$enable_debug\" = \"yes\"])\n");
    r.append("case \"${host_os}\" in\n\tmingw*)\n");
    r.append("\t\techo \"Building for mingw32: [$host_cpu-$host_vendor-$host_os]\"\n");
    r.append("\t\tbuild_windows=yes\n\t\tAC_SUBST([");
    r.append(caps);
    r.append("_CFLAGS], [\"-I/usr/x86_64-w64-mingw32/include -static -fstack-protector\"])\n");
    r.append("\t\tAC_SUBST([");
    r.append(caps);
    r.append("_LDFLAGS], [\"-L/usr/x86_64-w64-mingw32/lib\"])\n");
    r.append("\t\tAC_SUBST([CCOMP], [\"/usr/bin/x86_64-w64-mingw32-gcc\"])\n");
    r.append("\t\tAC_SUBST([OS], [\"w64-mingw32\"])\n\t\tAC_SUBST([TARGET], [\"");
    r.append(name);
    r.append(".exe\"])\n\t;;\n\tdarwin*)\n\t\tbuild_mac=yes\n");
    r.append("\t\techo \"Building for macos: [$host_cpu-$host_vendor-$host_os]\"\n");
    r.append("\t\tAC_SUBST([");
    r.append(caps);
    r.append("_CFLAGS], [\"-I/opt/homebrew/opt/ncurses/include\"])\n");
    r.append("\t\tAC_SUBST([");
    r.append(caps);
    r.append("_LDFLAGS], [\"-L/opt/homebrew/opt/ncurses/lib\"])\n");
    r.append("\t\tAC_SUBST([OS], [\"darwin\"])\n\t\tAC_SUBST([TARGET], [\"");
    r.append(name);
    r.append("\"])\n\t;;\n\tlinux*)\n");
    r.append("\t\techo \"Building for Linux: [$host_cpu-$host_vendor-$host_os]\"\n");
    r.append("\t\tbuild_linux=yes\n\t\tAC_SUBST([");
    r.append(caps);
    r.append("_CFLAGS], [\"\"])\n\t\tAC_SUBST([");
    r.append(caps);
    r.append("_LDFLAGS], [\"\"])\n\t\tAC_SUBST([OS], [\"Linux\"])\n");
    r.append("\t\tAC_SUBST([TARGET], [\"");
    r.append(name);
    r.append("\"])\n\t;;\nesac\n\n");
    r.append("AM_CONDITIONAL([DARWIN_BUILD], [test \"$build_mac\" = \"yes\"])\n");
    r.append("AM_CONDITIONAL([WINDOWS_BUILD], [test \"$build_windows\" = \"yes\"])\n");
    r.append("AM_CONDITIONAL([LINUX_BUILD], [test \"$build_linux\" = \"yes\"])\n");
    r.append("\nAC_ARG_VAR([VERSION], [Version number])\n");
    r.append("if test -z \"$VERSION\"; then\n  VERSION=\"0.1.0\"\nfi\n");
    r.append("AC_DEFINE_UNQUOTED([VERSION], [\"$VERSION\"], [Version number])\n");
    r.append("AC_CHECK_PROGS([CCOMP], [gcc clang])\n");
    r.append("AC_CHECK_HEADERS([stdio.h])\n");
    r.append("AC_CHECK_FUNCS([malloc calloc])\n");
    r.append("AC_CONFIG_FILES([Makefile])\nAC_OUTPUT\n");
    r
}

/// The build files of a new amboso-C project agree with each other and with its layout:
/// the Makefile.am builds the program from `src/main.c` and links and compiles it with the
/// flags variables named by `caps`, which the configure.ac defines; the configure.ac
/// names the package after the project, at version 0.1.0, and makes the project's name
/// the target (with `.exe` on Windows).
pub proof fn lemma_new_c_build_files_agree(invil_version: Seq<char>, name: Seq<char>, caps: Seq<char>)
    ensures
        has_infix(makefile_am_text(name, caps), name + "_SOURCES = src/main.c"@),
        has_infix(makefile_am_text(name, caps), "LDADD = $("@ + caps + "_LDFLAGS)"@),
        has_infix(makefile_am_text(name, caps), "AM_CFLAGS = $("@ + caps + "_CFLAGS)"@),
        has_infix(configure_ac_text(invil_version, name, caps), "AC_SUBST(["@ + caps + "_LDFLAGS]"@),
        has_infix(configure_ac_text(invil_version, name, caps), "AC_SUBST(["@ + caps + "_CFLAGS]"@),
        has_infix(configure_ac_text(invil_version, name, caps), "AC_INIT(["@ + name + "], [0.1.0]"@),
        has_infix(configure_ac_text(invil_version, name, caps), "AC_SUBST([TARGET], [\""@ + name + "\"])"@),
        has_infix(configure_ac_text(invil_version, name, caps), "AC_SUBST([TARGET], [\""@ + name + ".exe\"])"@),
{
    lemma_infix_grows();
    // Makefile.am
    let z = "_SOURCES = src/main.c\nLDADD = $("@;
    reveal_strlit("_SOURCES = src/main.c\nLDADD = $(");
    reveal_strlit("_SOURCES = src/main.c");
    reveal_strlit("LDADD = $(");
    assert(name.skip(0) =~= name);
    assert(z.take("_SOURCES = src/main.c"@.len() as int) =~= "_SOURCES = src/main.c"@);
    lemma_infix_join(name, name, z, "_SOURCES = src/main.c"@);
    let x = z;
    let z = "_LDFLAGS)\nAM_LDFLAGS = -O2\nAM_CFLAGS = $("@;
    reveal_strlit("_LDFLAGS)\nAM_LDFLAGS = -O2\nAM_CFLAGS = $(");
    reveal_strlit("_LDFLAGS)");
    reveal_strlit("AM_CFLAGS = $(");
    assert(x.skip(x.len() - "LDADD = $("@.len()) =~= "LDADD = $("@);
    assert(z.take("_LDFLAGS)"@.len() as int) =~= "_LDFLAGS)"@);
    lemma_infix_across(x, "LDADD = $("@, caps, z, "_LDFLAGS)"@);
    let x = z;
    let z = "_CFLAGS) -O2 -Werror -Wpedantic -Wall\nif DEBUG_BUILD\n"@;
    reveal_strlit("_CFLAGS) -O2 -Werror -Wpedantic -Wall\nif DEBUG_BUILD\n");
    reveal_strlit("_CFLAGS)");
    assert(x.skip(x.len() - "AM_CFLAGS = $("@.len()) =~= "AM_CFLAGS = $("@);
    assert(z.take("_CFLAGS)"@.len() as int) =~= "_CFLAGS)"@);
    lemma_infix_across(x, "AM_CFLAGS = $("@, caps, z, "_CFLAGS)"@);
    // configure.ac: the flags variables, from the Windows case.
    let x = "\t\tbuild_windows=yes\n\t\tAC_SUBST(["@;
    let z = "_CFLAGS], [\"-I/usr/x86_64-w64-mingw32/include -static -fstack-protector\"])\n"@;
    reveal_strlit("\t\tbuild_windows=yes\n\t\tAC_SUBST([");
    reveal_strlit("AC_SUBST([");
    reveal_strlit("_CFLAGS], [\"-I/usr/x86_64-w64-mingw32/include -static -fstack-protector\"])\n");
    reveal_strlit("_CFLAGS]");
    assert(x.skip(x.len() - "AC_SUBST(["@.len()) =~= "AC_SUBST(["@);
    assert(z.take("_CFLAGS]"@.len() as int) =~= "_CFLAGS]"@);
    lemma_infix_across(x, "AC_SUBST(["@, caps, z, "_CFLAGS]"@);
    let x = "\t\tAC_SUBST(["@;
    let z = "_LDFLAGS], [\"-L/usr/x86_64-w64-mingw32/lib\"])\n"@;
    reveal_strlit("\t\tAC_SUBST([");
    reveal_strlit("_LDFLAGS], [\"-L/usr/x86_64-w64-mingw32/lib\"])\n");
    reveal_strlit("_LDFLAGS]");
    assert(x.skip(x.len() - "AC_SUBST(["@.len()) =~= "AC_SUBST(["@);
    assert(z.take("_LDFLAGS]"@.len() as int) =~= "_LDFLAGS]"@);
    lemma_infix_across(x, "AC_SUBST(["@, caps, z, "_LDFLAGS]"@);
    // configure.ac: the package and the targets.
    let x = "\nAC_INIT(["@;
    let z = "], [0.1.0], [email@example.com])\n"@;
    reveal_strlit("\nAC_INIT([");
    reveal_strlit("AC_INIT([");
    reveal_strlit("], [0.1.0], [email@example.com])\n");
    reveal_strlit("], [0.1.0]");
    assert(x.skip(x.len() - "AC_INIT(["@.len()) =~= "AC_INIT(["@);
    assert(z.take("], [0.1.0]"@.len() as int) =~= "], [0.1.0]"@);
    lemma_infix_across(x, "AC_INIT(["@, name, z, "], [0.1.0]"@);
    let x = "\t\tAC_SUBST([TARGET], [\""@;
    let z = "\"])\n\t;;\nesac\n\n"@;
    reveal_strlit("\t\tAC_SUBST([TARGET], [\"");
    reveal_strlit("AC_SUBST([TARGET], [\"");
    reveal_strlit("\"])\n\t;;\nesac\n\n");
    reveal_strlit("\"])");
    assert(x.skip(x.len() - "AC_SUBST([TARGET], [\""@.len()) =~= "AC_SUBST([TARGET], [\""@);
    assert(z.take("\"])"@.len() as int) =~= "\"])"@);
    lemma_infix_across(x, "AC_SUBST([TARGET], [\""@, name, z, "\"])"@);
    let x = "\t\tAC_SUBST([OS], [\"w64-mingw32\"])\n\t\tAC_SUBST([TARGET], [\""@;
    let z = ".exe\"])\n\t;;\n\tdarwin*)\n\t\tbuild_mac=yes\n"@;
    reveal_strlit("\t\tAC_SUBST([OS], [\"w64-mingw32\"])\n\t\tAC_SUBST([TARGET], [\"");
    reveal_strlit(".exe\"])\n\t;;\n\tdarwin*)\n\t\tbuild_mac=yes\n");
    reveal_strlit(".exe\"])");
    assert(x.skip(x.len() - "AC_SUBST([TARGET], [\""@.len()) =~= "AC_SUBST([TARGET], [\""@);
    assert(z.take(".exe\"])"@.len() as int) =~= ".exe\"])"@);
    lemma_infix_across(x, "AC_SUBST([TARGET], [\""@, name, z, ".exe\"])"@);
}

/// The pyproject.toml of a new anvilPy project named `name`.
pub open spec fn pyproject_text(name: Seq<char>) -> Seq<char> {
    "[project]\nname = \""@
        + name
        + "\"\nversion = \"0.1.0\"\n[project.scripts]\n"@
        + name
        + " = \""@
        + name
        + ".main:main\"\n[build-system]\nrequires = [\"setuptools>=61.0\"]\n"@
        + "build-backend = \"setuptools.build_meta\""@
}

/// The pyproject.toml of a new anvilPy project.
pub fn pyproject(name: &str) -> (r: String)
    ensures
        r@ == pyproject_text(name@),
{
    let mut r = String::from_str("[project]\nname = \"");
    r.append(name);
    r.append("\"\nversion = \"0.1.0\"\n[project.scripts]\n");
    r.append(name);
    r.append(" = \"");
    r.append(name);
    r.append(".main:main\"\n[build-system]\nrequires = [\"setuptools>=61.0\"]\n");
    r.append("build-backend = \"setuptools.build_meta\"");
    r
}

/// A new project's other files name it too: the amboso-C .gitignore ignores the program
/// built under the project's name, its Windows `.exe` and its `_debug` build; the anvilPy
/// .gitignore ignores the project's egg-info directory; and the pyproject.toml names the
/// package after the project, at version 0.1.0, with a script of that name that runs the
/// project's `main`.
pub proof fn lemma_new_project_files_name_it(name: Seq<char>)
    ensures
        has_infix(gitignore_c_text(name), "\n"@ + name + "\n"@),
        has_infix(gitignore_c_text(name), "\n"@ + name + ".exe\n"@),
        has_infix(gitignore_c_text(name), "\n"@ + name + "_debug\n"@),
        has_infix(gitignore_py_text(name), "\n"@ + name + ".egg-info\n"@),
        has_infix(pyproject_text(name), "name = \""@ + name + "\"\nversion = \"0.1.0\""@),
        has_infix(pyproject_text(name), "[project.scripts]\n"@ + name + " = \""@ + name + ".main:main\""@),
{
    lemma_infix_grows();
    reveal_strlit("\n");
    let x = "# also explicitly ignore our executable for good measure\n"@;
    reveal_strlit("# also explicitly ignore our executable for good measure\n");
    assert(x.skip(x.len() - 1) =~= "\n"@);
    assert("\n"@.take(1) =~= "\n"@);
    lemma_infix_across(x, "\n"@, name, "\n"@, "\n"@);
    let x = "# also explicitly ignore our windows executable for good measure\n"@;
    reveal_strlit("# also explicitly ignore our windows executable for good measure\n");
    reveal_strlit(".exe\n");
    assert(x.skip(x.len() - 1) =~= "\n"@);
    assert(".exe\n"@.take(".exe\n"@.len() as int) =~= ".exe\n"@);
    lemma_infix_across(x, "\n"@, name, ".exe\n"@, ".exe\n"@);
    let x = "# also explicitly ignore our debug executable for good measure\n"@;
    reveal_strlit("# also explicitly ignore our debug executable for good measure\n");
    reveal_strlit("_debug\n");
    assert(x.skip(x.len() - 1) =~= "\n"@);
    assert("_debug\n"@.take("_debug\n"@.len() as int) =~= "_debug\n"@);
    lemma_infix_across(x, "\n"@, name, "_debug\n"@, "_debug\n"@);
    let x = "# ignore egg info dir\n"@;
    reveal_strlit("# ignore egg info dir\n");
    reveal_strlit(".egg-info\n");
    assert(x.skip(x.len() - 1) =~= "\n"@);
    assert(".egg-info\n"@.take(".egg-info\n"@.len() as int) =~= ".egg-info\n"@);
    lemma_infix_across(x, "\n"@, name, ".egg-info\n"@, ".egg-info\n"@);
    // pyproject.toml: the package, at the very start.
    let x = "[project]\nname = \""@;
    let z = "\"\nversion = \"0.1.0\"\n[project.scripts]\n"@;
    let m = "name = \""@ + name + "\"\nversion = \"0.1.0\""@;
    reveal_strlit("[project]\nname = \"");
    reveal_strlit("name = \"");
    reveal_strlit("\"\nversion = \"0.1.0\"\n[project.scripts]\n");
    reveal_strlit("\"\nversion = \"0.1.0\"");
    let k = x.len() - "name = \""@.len();
    assert((x + name + z).subrange(k, k + m.len()) =~= m);
    assert(has_infix(x + name + z, m));
    // pyproject.toml: the script.
    reveal_strlit("[project.scripts]\n");
    reveal_strlit(" = \"");
    reveal_strlit(".main:main\"\n[build-system]\nrequires = [\"setuptools>=61.0\"]\n");
    reveal_strlit(".main:main\"");
    let w = ".main:main\"\n[build-system]\nrequires = [\"setuptools>=61.0\"]\n"@;
    assert(z.skip(z.len() - "[project.scripts]\n"@.len()) =~= "[project.scripts]\n"@);
    assert(w.take(".main:main\""@.len() as int) =~= ".main:main\""@);
    lemma_infix_across_named(z, "[project.scripts]\n"@, name, " = \""@, name, w, ".main:main\""@);
}

/// How `init` starts.
#[derive(Debug, Clone, Copy, PartialEq, Eq, Structural)]
pub enum InitStart {
    /// The kind asked for is unknown.
    UnknownKern,
    /// No directory to create the project in.
    MissingInitDir,
    /// A custom project: its template must be found first.
    FindTemplate,
    /// Create a project of this kind.
    Create(AnvilKern),
}

/// How `init` starts: an unknown kind fails; a custom project needs its template (and,
/// without one, fails when no directory was given either); any project needs a
/// directory.
pub fn init_start(kern: &str, init_dir_given: bool, template_given: bool) -> (r: InitStart)
    requires
        init_kern_spec(kern@) == Some(AnvilKern::Custom) && !template_given ==> !init_dir_given,
    ensures
        match init_kern_spec(kern@) {
            None => r == InitStart::UnknownKern,
            Some(AnvilKern::Custom) => if template_given {
                r == InitStart::FindTemplate
            } else {
                r == InitStart::MissingInitDir
            },
            Some(k) => if init_dir_given {
                r == InitStart::Create(k)
            } else {
                r == InitStart::MissingInitDir
            },
        },
{
    match init_kern(kern) {
        None => InitStart::UnknownKern,
        Some(AnvilKern::Custom) => if template_given {
            InitStart::FindTemplate
        } else {
            InitStart::MissingInitDir
        },
        Some(k) => if init_dir_given {
            InitStart::Create(k)
        } else {
            InitStart::MissingInitDir
        },
    }
}

} // verus!
