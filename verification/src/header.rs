//! The C header and source that give a program the version it was built from, the
//! commit behind it and the tool that wrote them.

use vstd::prelude::*;
use crate::chars::{
    has_infix, has_prefix, lemma_infix_across, lemma_infix_across_named, lemma_infix_across_two, lemma_infix_grows,
    lemma_infix_join,
};

verus! {

/// The generated C header: the version, its commit, the generation time and the tool that made it, each behind a `const` string and a getter declaration.
pub open spec fn c_header_text(invil_version: Seq<char>, bin_name: Seq<char>, tag: Seq<char>, id: Seq<char>, commit_time: Seq<char>, author: Seq<char>, gen_time: Seq<char>, os: Seq<char>, commit_message: Seq<char>) -> Seq<char> {
    "//Generated by invil v"@
        + invil_version
        + "\n\n"@
        + "//Repo at https://github.com/jgabaut/invil\n\n"@
        + "#ifndef ANVIL__"@
        + bin_name
        + "__\n\n"@
        + "#define ANVIL__"@
        + bin_name
        + "__\n\n"@
        + "static const char ANVIL__API_LEVEL__STRING[] = \"2.1.0\"; /**< Represents amboso version used for [anvil__"@
        + bin_name
        + ".h] generated header.*/\n\n"@
        + "static const char ANVIL__"@
        + bin_name
        + "__VERSION_STRING[] = \""@
        + tag
        + "\"; /**< Represents current version for [anvil__"@
        + bin_name
        + ".h] generated header.*/\n\n"@
        + "static const char ANVIL__"@
        + bin_name
        + "__VERSION_DESC[] = \""@
        + id
        + "\"; /**< Represents current version info for [anvil__"@
        + bin_name
        + ".h] generated header.*/\n\n"@
        + "static const char ANVIL__"@
        + bin_name
        + "__VERSION_DATE[] = \""@
        + commit_time
        + "\"; /**< Represents date for current version for [anvil__"@
        + bin_name
        + ".h] generated header.*/\n\n"@
        + "static const char ANVIL__"@
        + bin_name
        + "__VERSION_AUTHOR[] = \""@
        + author
        + "\"; /**< Represents author for current version for [anvil__"@
        + bin_name
        + ".h] generated header.*/\n\n"@
        + "static const char ANVIL__"@
        + bin_name
        + "__HEADER_GENTIME[] = \""@
        + gen_time
        + "\"; /**< Represents gen time for [anvil__"@
        + bin_name
        + ".h] generated header.*/\n\n"@
        + "const char *get_ANVIL__API__LEVEL__(void); /**< Returns a version string for amboso API of [anvil__"@
        + bin_name
        + ".h] generated header.*/\n\n"@
        + "const char *get_ANVIL__VERSION__(void); /**< Returns a version string for [anvil__"@
        + bin_name
        + ".h] generated header.*/\n\n"@
        + "const char *get_ANVIL__VERSION__DESC__(void); /**< Returns a version info string for [anvil__"@
        + bin_name
        + ".h] generated header.*/\n\n"@
        + "const char *get_ANVIL__VERSION__DATE__(void); /**< Returns a version date string for [anvil__"@
        + bin_name
        + ".h] generated header.*/\n\n"@
        + "const char *get_ANVIL__VERSION__AUTHOR__(void); /**< Returns a version author string for [anvil__"@
        + bin_name
        + ".h] generated header.*/\n\n"@
        + "const char *get_ANVIL__HEADER__GENTIME__(void); /**< Returns a string for time of gen for [anvil__"@
        + bin_name
        + ".h] generated header.*/\n\n"@
        + "#ifndef INVIL__"@
        + bin_name
        + "__HEADER__\n#define INVIL__"@
        + bin_name
        + "__HEADER__\nstatic const char INVIL__VERSION__STRING[] = \""@
        + invil_version
        + "\"; /**< Represents invil version used for [anvil__"@
        + bin_name
        + ".h] generated header.*/\n\n"@
        + "static const char INVIL__OS__STRING[] = \""@
        + os
        + "\"; /**< Represents build os used for [anvil__"@
        + bin_name
        + ".h] generated header.*/\n\n"@
        + "static const char INVIL__COMMIT__DESC__STRING[] = \""@
        + commit_message
        + "\"; /**< Represents message for HEAD commit used for [anvil__"@
        + bin_name
        + ".h] generated header.*/\n\n"@
        + "const char *get_INVIL__API__LEVEL__(void); /**< Returns a version string for invil version of [anvil__"@
        + bin_name
        + ".h] generated header.*/\n\n"@
        + "const char *get_INVIL__OS__(void); /**< Returns a version string for os used for [anvil__"@
        + bin_name
        + ".h] generated header.*/\n\n"@
        + "const char *get_INVIL__COMMIT__DESC__(void); /**< Returns a string for HEAD commit message used for [anvil__"@
        + bin_name
        + ".h] generated header.*/\n\n"@
        + "#endif // INVIL__"@
        + bin_name
        + "__HEADER__\n#endif\n"@
}

/// Each constant of the generated header holds the argument of its own meaning, right
/// between the quotes after its name: the version string the tag, the description the
/// commit id, the date the commit time, the author the author, the generation time the
/// generation time; and in the tool's block, the tool's version, the os and the commit
/// message.
pub proof fn lemma_c_header_fields(
    invil_version: Seq<char>,
    bin_name: Seq<char>,
    tag: Seq<char>,
    id: Seq<char>,
    commit_time: Seq<char>,
    author: Seq<char>,
    gen_time: Seq<char>,
    os: Seq<char>,
    commit_message: Seq<char>,
)
    ensures
        ({
            let h = c_header_text(invil_version, bin_name, tag, id, commit_time, author, gen_time, os, commit_message);
            &&& has_infix(h, "ANVIL__"@ + bin_name + "__VERSION_STRING[] = \""@ + tag + "\""@)
            &&& has_infix(h, "ANVIL__"@ + bin_name + "__VERSION_DESC[] = \""@ + id + "\""@)
            &&& has_infix(h, "ANVIL__"@ + bin_name + "__VERSION_DATE[] = \""@ + commit_time + "\""@)
            &&& has_infix(h, "ANVIL__"@ + bin_name + "__VERSION_AUTHOR[] = \""@ + author + "\""@)
            &&& has_infix(h, "ANVIL__"@ + bin_name + "__HEADER_GENTIME[] = \""@ + gen_time + "\""@)
            &&& has_infix(h, "INVIL__VERSION__STRING[] = \""@ + invil_version + "\""@)
            &&& has_infix(h, "INVIL__OS__STRING[] = \""@ + os + "\""@)
            &&& has_infix(h, "INVIL__COMMIT__DESC__STRING[] = \""@ + commit_message + "\""@)
        }),
{
    reveal_strlit("static const char ANVIL__");
    reveal_strlit("ANVIL__");
    reveal_strlit("\"");
    reveal_strlit("\"; /**< Represents current version for [anvil__");
    reveal_strlit("\"; /**< Represents current version info for [anvil__");
    reveal_strlit("\"; /**< Represents date for current version for [anvil__");
    reveal_strlit("\"; /**< Represents author for current version for [anvil__");
    reveal_strlit("\"; /**< Represents gen time for [anvil__");
    reveal_strlit("__HEADER__\nstatic const char INVIL__VERSION__STRING[] = \"");
    reveal_strlit("INVIL__VERSION__STRING[] = \"");
    reveal_strlit("\"; /**< Represents invil version used for [anvil__");
    reveal_strlit("static const char INVIL__OS__STRING[] = \"");
    reveal_strlit("INVIL__OS__STRING[] = \"");
    reveal_strlit("\"; /**< Represents build os used for [anvil__");
    reveal_strlit("static const char INVIL__COMMIT__DESC__STRING[] = \"");
    reveal_strlit("INVIL__COMMIT__DESC__STRING[] = \"");
    reveal_strlit("\"; /**< Represents message for HEAD commit used for [anvil__");
    let anvil = "static const char ANVIL__"@;
    assert(anvil.skip(anvil.len() - "ANVIL__"@.len()) =~= "ANVIL__"@);
    let closing = seq![
        "\"; /**< Represents current version for [anvil__"@,
        "\"; /**< Represents current version info for [anvil__"@,
        "\"; /**< Represents date for current version for [anvil__"@,
        "\"; /**< Represents author for current version for [anvil__"@,
        "\"; /**< Represents gen time for [anvil__"@,
        "\"; /**< Represents invil version used for [anvil__"@,
        "\"; /**< Represents build os used for [anvil__"@,
        "\"; /**< Represents message for HEAD commit used for [anvil__"@,
    ];
    assert forall|i: int| 0 <= i < closing.len() implies has_prefix(#[trigger] closing[i], "\""@) by {
        assert(closing[i].take(1) =~= "\""@);
    }
    lemma_infix_grows();
    lemma_infix_across_named(anvil, "ANVIL__"@, bin_name, "__VERSION_STRING[] = \""@, tag, closing[0], "\""@);
    lemma_infix_across_named(anvil, "ANVIL__"@, bin_name, "__VERSION_DESC[] = \""@, id, closing[1], "\""@);
    lemma_infix_across_named(anvil, "ANVIL__"@, bin_name, "__VERSION_DATE[] = \""@, commit_time, closing[2], "\""@);
    lemma_infix_across_named(anvil, "ANVIL__"@, bin_name, "__VERSION_AUTHOR[] = \""@, author, closing[3], "\""@);
    lemma_infix_across_named(anvil, "ANVIL__"@, bin_name, "__HEADER_GENTIME[] = \""@, gen_time, closing[4], "\""@);
    let x = "__HEADER__\nstatic const char INVIL__VERSION__STRING[] = \""@;
    let x1 = "INVIL__VERSION__STRING[] = \""@;
    assert(x.skip(x.len() - x1.len()) =~= x1);
    lemma_infix_across(x, x1, invil_version, closing[5], "\""@);
    let x = "static const char INVIL__OS__STRING[] = \""@;
    let x1 = "INVIL__OS__STRING[] = \""@;
    assert(x.skip(x.len() - x1.len()) =~= x1);
    lemma_infix_across(x, x1, os, closing[6], "\""@);
    let x = "static const char INVIL__COMMIT__DESC__STRING[] = \""@;
    let x1 = "INVIL__COMMIT__DESC__STRING[] = \""@;
    assert(x.skip(x.len() - x1.len()) =~= x1);
    lemma_infix_across(x, x1, commit_message, closing[7], "\""@);
}

/// The generated C header.
pub fn c_header(invil_version: &str, bin_name: &str, tag: &str, id: &str, commit_time: &str, author: &str, gen_time: &str, os: &str, commit_message: &str) -> (r: String)
    ensures
        r@ == c_header_text(invil_version@, bin_name@, tag@, id@, commit_time@, author@, gen_time@, os@, commit_message@),
{
    let mut r = String::from_str("//Generated by invil v");
    r.append(invil_version);
    r.append("\n\n");
    r.append("//Repo at https://github.com/jgabaut/invil\n\n");
    r.append("#ifndef ANVIL__");
    r.append(bin_name);
    r.append("__\n\n");
    r.append("#define ANVIL__");
    r.append(bin_name);
    r.append("__\n\n");
    r.append("static const char ANVIL__API_LEVEL__STRING[] = \"2.1.0\"; /**< Represents amboso version used for [anvil__");
    r.append(bin_name);
    r.append(".h] generated header.*/\n\n");
    r.append("static const char ANVIL__");
    r.append(bin_name);
    r.append("__VERSION_STRING[] = \"");
    r.append(tag);
    r.append("\"; /**< Represents current version for [anvil__");
    r.append(bin_name);
    r.append(".h] generated header.*/\n\n");
    r.append("static const char ANVIL__");
    r.append(bin_name);
    r.append("__VERSION_DESC[] = \"");
    r.append(id);
    r.append("\"; /**< Represents current version info for [anvil__");
    r.append(bin_name);
    r.append(".h] generated header.*/\n\n");
    r.append("static const char ANVIL__");
    r.append(bin_name);
    r.append("__VERSION_DATE[] = \"");
    r.append(commit_time);
    r.append("\"; /**< Represents date for current version for [anvil__");
    r.append(bin_name);
    r.append(".h] generated header.*/\n\n");
    r.append("static const char ANVIL__");
    r.append(bin_name);
    r.append("__VERSION_AUTHOR[] = \"");
    r.append(author);
    r.append("\"; /**< Represents author for current version for [anvil__");
    r.append(bin_name);
    r.append(".h] generated header.*/\n\n");
    r.append("static const char ANVIL__");
    r.append(bin_name);
    r.append("__HEADER_GENTIME[] = \"");
    r.append(gen_time);
    r.append("\"; /**< Represents gen time for [anvil__");
    r.append(bin_name);
    r.append(".h] generated header.*/\n\n");
    r.append("const char *get_ANVIL__API__LEVEL__(void); /**< Returns a version string for amboso API of [anvil__");
    r.append(bin_name);
    r.append(".h] generated header.*/\n\n");
    r.append("const char *get_ANVIL__VERSION__(void); /**< Returns a version string for [anvil__");
    r.append(bin_name);
    r.append(".h] generated header.*/\n\n");
    r.append("const char *get_ANVIL__VERSION__DESC__(void); /**< Returns a version info string for [anvil__");
    r.append(bin_name);
    r.append(".h] generated header.*/\n\n");
    r.append("const char *get_ANVIL__VERSION__DATE__(void); /**< Returns a version date string for [anvil__");
    r.append(bin_name);
    r.append(".h] generated header.*/\n\n");
    r.append("const char *get_ANVIL__VERSION__AUTHOR__(void); /**< Returns a version author string for [anvil__");
    r.append(bin_name);
    r.append(".h] generated header.*/\n\n");
    r.append("const char *get_ANVIL__HEADER__GENTIME__(void); /**< Returns a string for time of gen for [anvil__");
    r.append(bin_name);
    r.append(".h] generated header.*/\n\n");
    r.append("#ifndef INVIL__");
    r.append(bin_name);
    r.append("__HEADER__\n#define INVIL__");
    r.append(bin_name);
    r.append("__HEADER__\nstatic const char INVIL__VERSION__STRING[] = \"");
    r.append(invil_version);
    r.append("\"; /**< Represents invil version used for [anvil__");
    r.append(bin_name);
    r.append(".h] generated header.*/\n\n");
    r.append("static const char INVIL__OS__STRING[] = \"");
    r.append(os);
    r.append("\"; /**< Represents build os used for [anvil__");
    r.append(bin_name);
    r.append(".h] generated header.*/\n\n");
    r.append("static const char INVIL__COMMIT__DESC__STRING[] = \"");
    r.append(commit_message);
    r.append("\"; /**< Represents message for HEAD commit used for [anvil__");
    r.append(bin_name);
    r.append(".h] generated header.*/\n\n");
    r.append("const char *get_INVIL__API__LEVEL__(void); /**< Returns a version string for invil version of [anvil__");
    r.append(bin_name);
    r.append(".h] generated header.*/\n\n");
    r.append("const char *get_INVIL__OS__(void); /**< Returns a version string for os used for [anvil__");
    r.append(bin_name);
    r.append(".h] generated header.*/\n\n");
    r.append("const char *get_INVIL__COMMIT__DESC__(void); /**< Returns a string for HEAD commit message used for [anvil__");
    r.append(bin_name);
    r.append(".h] generated header.*/\n\n");
    r.append("#endif // INVIL__");
    r.append(bin_name);
    r.append("__HEADER__\n#endif\n");
    r
}

/// The generated C source: the getters declared by the generated header.
pub open spec fn c_impl_text(invil_version: Seq<char>, bin_name: Seq<char>) -> Seq<char> {
    "//Generated by invil v"@
        + invil_version
        + "\n\n"@
        + "#include \"anvil__"@
        + bin_name
        + ".h\"\n\n"@
        + "const char *get_ANVIL__VERSION__(void)\n{\n    return ANVIL__"@
        + bin_name
        + "__VERSION_STRING;\n}\n\n"@
        + "const char *get_ANVIL__API__LEVEL__(void)\n{\n"@
        + "    return ANVIL__API_LEVEL__STRING;\n}\n\n"@
        + "const char *get_ANVIL__VERSION__DESC__(void)\n{\n"@
        + "    return ANVIL__"@
        + bin_name
        + "__VERSION_DESC;\n}\n\n"@
        + "const char *get_ANVIL__VERSION__DATE__(void)\n{\n"@
        + "    return ANVIL__"@
        + bin_name
        + "__VERSION_DATE;\n}\n\n"@
        + "const char *get_ANVIL__VERSION__AUTHOR__(void)\n{\n"@
        + "    return ANVIL__"@
        + bin_name
        + "__VERSION_AUTHOR;\n}\n\n"@
        + "const char *get_ANVIL__HEADER__GENTIME__(void)\n{\n"@
        + "    return ANVIL__"@
        + bin_name
        + "__HEADER_GENTIME;\n}\n\n"@
        + "#ifdef INVIL__"@
        + bin_name
        + "__HEADER__\nconst char *get_INVIL__API__LEVEL__(void)\n{\n"@
        + "    return INVIL__VERSION__STRING;\n}\n\n"@
        + "const char *get_INVIL__COMMIT__DESC__(void)\n{\n"@
        + "    return INVIL__COMMIT__DESC__STRING;\n}\n\n"@
        + "const char *get_INVIL__OS__(void)\n{\n"@
        + "    return INVIL__OS__STRING;\n}\n#endif\n"@
}

/// Each getter of the generated source returns the constant of its own name: the version
/// getter the version string, the API level getter the API level, the description, date,
/// author and generation time getters their constants, and in the tool's block the API
/// level getter the tool's version, the commit getter the commit message and the os
/// getter the os.
pub proof fn lemma_c_impl_getters(invil_version: Seq<char>, bin_name: Seq<char>)
    ensures
        ({
            let c = c_impl_text(invil_version, bin_name);
            &&& has_infix(c, "get_ANVIL__VERSION__(void)\n{\n    return ANVIL__"@ + bin_name + "__VERSION_STRING;"@)
            &&& has_infix(c, "get_ANVIL__API__LEVEL__(void)\n{\n"@ + "    return ANVIL__API_LEVEL__STRING;"@)
            &&& has_infix(c, "get_ANVIL__VERSION__DESC__(void)\n{\n"@ + "    return ANVIL__"@ + bin_name + "__VERSION_DESC;"@)
            &&& has_infix(c, "get_ANVIL__VERSION__DATE__(void)\n{\n"@ + "    return ANVIL__"@ + bin_name + "__VERSION_DATE;"@)
            &&& has_infix(c, "get_ANVIL__VERSION__AUTHOR__(void)\n{\n"@ + "    return ANVIL__"@ + bin_name + "__VERSION_AUTHOR;"@)
            &&& has_infix(c, "get_ANVIL__HEADER__GENTIME__(void)\n{\n"@ + "    return ANVIL__"@ + bin_name + "__HEADER_GENTIME;"@)
            &&& has_infix(c, "get_INVIL__API__LEVEL__(void)\n{\n"@ + "    return INVIL__VERSION__STRING;"@)
            &&& has_infix(c, "get_INVIL__COMMIT__DESC__(void)\n{\n"@ + "    return INVIL__COMMIT__DESC__STRING;"@)
            &&& has_infix(c, "get_INVIL__OS__(void)\n{\n"@ + "    return INVIL__OS__STRING;"@)
        }),
{
    lemma_infix_grows();
    // The version getter: its head and return open one piece of text.
    let x = "const char *get_ANVIL__VERSION__(void)\n{\n    return ANVIL__"@;
    let x1 = "get_ANVIL__VERSION__(void)\n{\n    return ANVIL__"@;
    let z = "__VERSION_STRING;\n}\n\n"@;
    let z0 = "__VERSION_STRING;"@;
    reveal_strlit("const char *get_ANVIL__VERSION__(void)\n{\n    return ANVIL__");
    reveal_strlit("get_ANVIL__VERSION__(void)\n{\n    return ANVIL__");
    reveal_strlit("__VERSION_STRING;\n}\n\n");
    reveal_strlit("__VERSION_STRING;");
    assert(x.skip(x.len() - x1.len()) =~= x1);
    assert(z.take(z0.len() as int) =~= z0);
    lemma_infix_across(x, x1, bin_name, z, z0);
    // The getters of the project's own constants.
    let r = "    return ANVIL__"@;
    let x = "const char *get_ANVIL__VERSION__DESC__(void)\n{\n"@;
    let x1 = "get_ANVIL__VERSION__DESC__(void)\n{\n"@;
    let z = "__VERSION_DESC;\n}\n\n"@;
    let z0 = "__VERSION_DESC;"@;
    reveal_strlit("const char *get_ANVIL__VERSION__DESC__(void)\n{\n");
    reveal_strlit("get_ANVIL__VERSION__DESC__(void)\n{\n");
    reveal_strlit("__VERSION_DESC;\n}\n\n");
    reveal_strlit("__VERSION_DESC;");
    assert(x.skip(x.len() - x1.len()) =~= x1);
    assert(z.take(z0.len() as int) =~= z0);
    lemma_infix_across_two(x, x1, r, bin_name, z, z0);
    let x = "const char *get_ANVIL__VERSION__DATE__(void)\n{\n"@;
    let x1 = "get_ANVIL__VERSION__DATE__(void)\n{\n"@;
    let z = "__VERSION_DATE;\n}\n\n"@;
    let z0 = "__VERSION_DATE;"@;
    reveal_strlit("const char *get_ANVIL__VERSION__DATE__(void)\n{\n");
    reveal_strlit("get_ANVIL__VERSION__DATE__(void)\n{\n");
    reveal_strlit("__VERSION_DATE;\n}\n\n");
    reveal_strlit("__VERSION_DATE;");
    assert(x.skip(x.len() - x1.len()) =~= x1);
    assert(z.take(z0.len() as int) =~= z0);
    lemma_infix_across_two(x, x1, r, bin_name, z, z0);
    let x = "const char *get_ANVIL__VERSION__AUTHOR__(void)\n{\n"@;
    let x1 = "get_ANVIL__VERSION__AUTHOR__(void)\n{\n"@;
    let z = "__VERSION_AUTHOR;\n}\n\n"@;
    let z0 = "__VERSION_AUTHOR;"@;
    reveal_strlit("const char *get_ANVIL__VERSION__AUTHOR__(void)\n{\n");
    reveal_strlit("get_ANVIL__VERSION__AUTHOR__(void)\n{\n");
    reveal_strlit("__VERSION_AUTHOR;\n}\n\n");
    reveal_strlit("__VERSION_AUTHOR;");
    assert(x.skip(x.len() - x1.len()) =~= x1);
    assert(z.take(z0.len() as int) =~= z0);
    lemma_infix_across_two(x, x1, r, bin_name, z, z0);
    let x = "const char *get_ANVIL__HEADER__GENTIME__(void)\n{\n"@;
    let x1 = "get_ANVIL__HEADER__GENTIME__(void)\n{\n"@;
    let z = "__HEADER_GENTIME;\n}\n\n"@;
    let z0 = "__HEADER_GENTIME;"@;
    reveal_strlit("const char *get_ANVIL__HEADER__GENTIME__(void)\n{\n");
    reveal_strlit("get_ANVIL__HEADER__GENTIME__(void)\n{\n");
    reveal_strlit("__HEADER_GENTIME;\n}\n\n");
    reveal_strlit("__HEADER_GENTIME;");
    assert(x.skip(x.len() - x1.len()) =~= x1);
    assert(z.take(z0.len() as int) =~= z0);
    lemma_infix_across_two(x, x1, r, bin_name, z, z0);
    // The getters whose return names no project.
    let x = "const char *get_ANVIL__API__LEVEL__(void)\n{\n"@;
    let x1 = "get_ANVIL__API__LEVEL__(void)\n{\n"@;
    let z = "    return ANVIL__API_LEVEL__STRING;\n}\n\n"@;
    let z0 = "    return ANVIL__API_LEVEL__STRING;"@;
    reveal_strlit("const char *get_ANVIL__API__LEVEL__(void)\n{\n");
    reveal_strlit("get_ANVIL__API__LEVEL__(void)\n{\n");
    reveal_strlit("    return ANVIL__API_LEVEL__STRING;\n}\n\n");
    reveal_strlit("    return ANVIL__API_LEVEL__STRING;");
    assert(x.skip(x.len() - x1.len()) =~= x1);
    assert(z.take(z0.len() as int) =~= z0);
    lemma_infix_join(x, x1, z, z0);
    let x = "__HEADER__\nconst char *get_INVIL__API__LEVEL__(void)\n{\n"@;
    let x1 = "get_INVIL__API__LEVEL__(void)\n{\n"@;
    let z = "    return INVIL__VERSION__STRING;\n}\n\n"@;
    let z0 = "    return INVIL__VERSION__STRING;"@;
    reveal_strlit("__HEADER__\nconst char *get_INVIL__API__LEVEL__(void)\n{\n");
    reveal_strlit("get_INVIL__API__LEVEL__(void)\n{\n");
    reveal_strlit("    return INVIL__VERSION__STRING;\n}\n\n");
    reveal_strlit("    return INVIL__VERSION__STRING;");
    assert(x.skip(x.len() - x1.len()) =~= x1);
    assert(z.take(z0.len() as int) =~= z0);
    lemma_infix_join(x, x1, z, z0);
    let x = "const char *get_INVIL__COMMIT__DESC__(void)\n{\n"@;
    let x1 = "get_INVIL__COMMIT__DESC__(void)\n{\n"@;
    let z = "    return INVIL__COMMIT__DESC__STRING;\n}\n\n"@;
    let z0 = "    return INVIL__COMMIT__DESC__STRING;"@;
    reveal_strlit("const char *get_INVIL__COMMIT__DESC__(void)\n{\n");
    reveal_strlit("get_INVIL__COMMIT__DESC__(void)\n{\n");
    reveal_strlit("    return INVIL__COMMIT__DESC__STRING;\n}\n\n");
    reveal_strlit("    return INVIL__COMMIT__DESC__STRING;");
    assert(x.skip(x.len() - x1.len()) =~= x1);
    assert(z.take(z0.len() as int) =~= z0);
    lemma_infix_join(x, x1, z, z0);
    let x = "const char *get_INVIL__OS__(void)\n{\n"@;
    let x1 = "get_INVIL__OS__(void)\n{\n"@;
    let z = "    return INVIL__OS__STRING;\n}\n#endif\n"@;
    let z0 = "    return INVIL__OS__STRING;"@;
    reveal_strlit("const char *get_INVIL__OS__(void)\n{\n");
    reveal_strlit("get_INVIL__OS__(void)\n{\n");
    reveal_strlit("    return INVIL__OS__STRING;\n}\n#endif\n");
    reveal_strlit("    return INVIL__OS__STRING;");
    assert(x.skip(x.len() - x1.len()) =~= x1);
    assert(z.take(z0.len() as int) =~= z0);
    lemma_infix_join(x, x1, z, z0);
}

/// The generated C source.
pub fn c_impl(invil_version: &str, bin_name: &str) -> (r: String)
    ensures
        r@ == c_impl_text(invil_version@, bin_name@),
{
    let mut r = String::from_str("//Generated by invil v");
    r.append(invil_version);
    r.append("\n\n");
    r.append("#include \"anvil__");
    r.append(bin_name);
    r.append(".h\"\n\n");
    r.append("const char *get_ANVIL__VERSION__(void)\n{\n    return ANVIL__");
    r.append(bin_name);
    r.append("__VERSION_STRING;\n}\n\n");
    r.append("const char *get_ANVIL__API__LEVEL__(void)\n{\n");
    r.append("    return ANVIL__API_LEVEL__STRING;\n}\n\n");
    r.append("const char *get_ANVIL__VERSION__DESC__(void)\n{\n");
    r.append("    return ANVIL__");
    r.append(bin_name);
    r.append("__VERSION_DESC;\n}\n\n");
    r.append("const char *get_ANVIL__VERSION__DATE__(void)\n{\n");
    r.append("    return ANVIL__");
    r.append(bin_name);
    r.append("__VERSION_DATE;\n}\n\n");
    r.append("const char *get_ANVIL__VERSION__AUTHOR__(void)\n{\n");
    r.append("    return ANVIL__");
    r.append(bin_name);
    r.append("__VERSION_AUTHOR;\n}\n\n");
    r.append("const char *get_ANVIL__HEADER__GENTIME__(void)\n{\n");
    r.append("    return ANVIL__");
    r.append(bin_name);
    r.append("__HEADER_GENTIME;\n}\n\n");
    r.append("#ifdef INVIL__");
    r.append(bin_name);
    r.append("__HEADER__\nconst char *get_INVIL__API__LEVEL__(void)\n{\n");
    r.append("    return INVIL__VERSION__STRING;\n}\n\n");
    r.append("const char *get_INVIL__COMMIT__DESC__(void)\n{\n");
    r.append("    return INVIL__COMMIT__DESC__STRING;\n}\n\n");
    r.append("const char *get_INVIL__OS__(void)\n{\n");
    r.append("    return INVIL__OS__STRING;\n}\n#endif\n");
    r
}

/// Where the header and the source go: `<dir>/anvil__<binary>.h` and `.c`.
pub open spec fn header_file(dir: Seq<char>, bin_name: Seq<char>, ext: Seq<char>) -> Seq<char> {
    dir + "/anvil__"@ + bin_name + ext
}

/// The paths of the header and of the source, in that order.
pub fn header_paths(dir: &str, bin_name: &str) -> (r: (String, String))
    ensures
        r.0@ == header_file(dir@, bin_name@, ".h"@),
        r.1@ == header_file(dir@, bin_name@, ".c"@),
{
    let mut h = String::from_str(dir);
    h.append("/anvil__");
    h.append(bin_name);
    let mut c = h.clone();
    h.append(".h");
    c.append(".c");
    (h, c)
}

/// The reference that names a tag: `refs/tags/<tag>`.
pub fn tag_reference(tag: &str) -> (r: String)
    ensures
        r@ == "refs/tags/"@ + tag@,
{
    let mut r = String::from_str("refs/tags/");
    r.append(tag);
    r
}

/// What looking up a tag's reference found.
#[derive(Debug, Clone, Copy, PartialEq, Eq, Structural)]
pub enum TagLookup {
    /// A reference that is a tag.
    Tag,
    /// A reference that is not a tag.
    NotTag,
    /// No such reference.
    Missing,
}

/// Which commit the header describes: the tag's; none but an error when the reference is
/// not a tag, or when the tag is missing and was given empty; HEAD's (`Ok(true)`) when
/// the tag is missing.
pub fn header_commit_source(found: TagLookup, tag: &str) -> (r: Result<bool, String>)
    ensures
        found == TagLookup::Tag ==> r == Ok::<bool, String>(false),
        found == TagLookup::NotTag ==> (r matches Err(e) && e@ == "Requested tag is not a reference: "@
            + tag@),
        found == TagLookup::Missing && tag@.len() == 0 ==> (r matches Err(e) && e@
            == "Invalid empty tag request"@),
        found == TagLookup::Missing && tag@.len() > 0 ==> r == Ok::<bool, String>(true),
{
    match found {
        TagLookup::Tag => Ok(false),
        TagLookup::NotTag => {
            let mut e = String::from_str("Requested tag is not a reference: ");
            e.append(tag);
            Err(e)
        },
        TagLookup::Missing => {
            if tag.unicode_len() == 0 {
                Err(String::from_str("Invalid empty tag request"))
            } else {
                Ok(true)
            }
        },
    }
}

} // verus!
