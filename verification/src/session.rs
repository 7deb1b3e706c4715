//! What a run does once its environment is settled: the subcommands, the listing of
//! versions, and the operations in the order they run.

use vstd::prelude::*;
use crate::args::Args;
use crate::building::braced;
use crate::env::{AmbosoEnv, AmbosoMode, AnvilKern};
use crate::semver::SemVerKey;
use crate::vtable::table_view;

verus! {

/// The `test` subcommand: it turns recording on when asked to build, listing when asked
/// to list, and runs the test named by the query in test mode, or all tests in
/// test-macro mode.
pub fn test_subcommand(args: Args, env: AmbosoEnv, list: bool, build: bool, query: Option<String>) -> (r: (
    Args,
    AmbosoEnv,
))
    ensures
        r.1 == (AmbosoEnv {
            do_build: env.do_build || build,
            run_mode: if query is Some {
                Some(AmbosoMode::TestMode)
            } else {
                Some(AmbosoMode::TestMacro)
            },
            ..env
        }),
        r.0 == (Args {
            list: args.list || list,
            test: if query is Some {
                true
            } else {
                args.test
            },
            testmacro: if query is Some {
                args.testmacro
            } else {
                true
            },
            tag: if query is Some {
                query
            } else {
                args.tag
            },
            ..args
        }),
{
    let do_build = env.do_build || build;
    let list2 = args.list || list;
    match query {
        Some(q) => {
            let e = AmbosoEnv { do_build, run_mode: Some(AmbosoMode::TestMode), ..env };
            let a = Args { list: list2, test: true, tag: Some(q), ..args };
            (a, e)
        },
        None => {
            let e = AmbosoEnv { do_build, run_mode: Some(AmbosoMode::TestMacro), ..env };
            let a = Args { list: list2, testmacro: true, ..args };
            (a, e)
        },
    }
}

/// The latest version of the table for the run's mode, the last in version order: the
/// version the `build` subcommand builds.
pub fn latest_tag(env: &AmbosoEnv) -> (r: Option<String>)
    requires
        env.run_mode == Some(AmbosoMode::GitMode) || env.run_mode == Some(AmbosoMode::BaseMode),
    ensures
        ({
            let t = if env.run_mode == Some(AmbosoMode::GitMode) {
                env.gitmode_versions_table@
            } else {
                env.basemode_versions_table@
            };
            &&& t.len() == 0 ==> r is None
            &&& t.len() > 0 ==> (r matches Some(k) && k@ == t.last().0.0@)
        }),
{
    let t = match env.run_mode {
        Some(AmbosoMode::GitMode) => &env.gitmode_versions_table,
        _ => &env.basemode_versions_table,
    };
    if t.len() == 0 {
        None
    } else {
        Some(t[t.len() - 1].0.0.clone())
    }
}

/// A line of the listing of versions: `Tag: {<version>}, Desc: {<description>}`.
pub open spec fn listing_line(e: (Seq<char>, Seq<char>)) -> Seq<char> {
    "Tag: "@ + braced(e.0) + ", Desc: "@ + braced(e.1)
}

/// The lines that list a table of versions, in its order.
pub fn listing(t: &Vec<(SemVerKey, String)>) -> (r: Vec<String>)
    ensures
        r@.len() == t@.len(),
        forall|i: int| 0 <= i < t@.len() ==> #[trigger] r@[i]@ == listing_line(table_view(t@)[i]),
{
    let mut r: Vec<String> = Vec::new();
    let mut i: usize = 0;
    while i < t.len()
        invariant
            i <= t@.len(),
            r@.len() == i,
            forall|j: int| 0 <= j < i ==> #[trigger] r@[j]@ == listing_line(table_view(t@)[j]),
        decreases t@.len() - i,
    {
        let mut line = String::from_str("Tag: {");
        line.append(t[i].0.0.as_str());
        line.append("}, Desc: {");
        line.append(t[i].1.as_str());
        line.append("}");
        proof {
            reveal_strlit("Tag: {");
            reveal_strlit("Tag: ");
            reveal_strlit("}, Desc: {");
            reveal_strlit(", Desc: ");
            reveal_strlit("}");
            assert(line@ =~= listing_line(table_view(t@)[i as int]));
        }
        r.push(line);
        i = i + 1;
    }
    r
}

/// One operation of a run, in the order the run takes them.
pub enum SessionOp {
    /// Log these lines of the listing of versions.
    List(Vec<String>),
    /// Build the version given by the tag argument (none), or this version.
    Build(Option<String>),
    /// Run the version given by the tag argument.
    Run,
    /// Delete the build of the version given by the tag argument (none), or of this one.
    Delete(Option<String>),
    /// Query the version given by the tag argument.
    Query,
}

/// An operation, as text.
pub enum OpView {
    List(Seq<Seq<char>>),
    Build(Option<Seq<char>>),
    Run,
    Delete(Option<Seq<char>>),
    Query,
}

/// An operation, as text.
pub open spec fn op_view(o: SessionOp) -> OpView {
    match o {
        SessionOp::List(l) => OpView::List(lines_view(l@)),
        SessionOp::Build(t) => OpView::Build(crate::chars::opt_text(t)),
        SessionOp::Run => OpView::Run,
        SessionOp::Delete(t) => OpView::Delete(crate::chars::opt_text(t)),
        SessionOp::Query => OpView::Query,
    }
}

/// The table of versions for the run's mode.
pub open spec fn mode_table(env: AmbosoEnv) -> Seq<(Seq<char>, Seq<char>)> {
    if env.run_mode == Some(AmbosoMode::GitMode) {
        table_view(env.gitmode_versions_table@)
    } else {
        table_view(env.basemode_versions_table@)
    }
}

/// The listing lines of a table of versions.
pub open spec fn listing_lines(t: Seq<(Seq<char>, Seq<char>)>) -> Seq<Seq<char>> {
    t.map_values(|e: (Seq<char>, Seq<char>)| listing_line(e))
}

/// Lines, as text.
pub open spec fn lines_view(l: Seq<String>) -> Seq<Seq<char>> {
    l.map_values(|s: String| s@)
}

/// A build (`build`) or a delete of the version of an entry.
pub open spec fn version_op(e: (Seq<char>, Seq<char>), build: bool) -> OpView {
    if build {
        OpView::Build(Some(e.0))
    } else {
        OpView::Delete(Some(e.0))
    }
}

/// A build (`build`) or a delete of every version of a table, in order.
pub open spec fn each_op(t: Seq<(Seq<char>, Seq<char>)>, build: bool) -> Seq<OpView> {
    t.map_values(|e: (Seq<char>, Seq<char>)| version_op(e, build))
}

/// The listing a run logs: of the mode's versions, or of all versions; none in
/// test-macro mode, whose query lists the tests.
pub open spec fn session_listing(env: AmbosoEnv, args: Args) -> Seq<OpView> {
    if args.list {
        if env.run_mode == Some(AmbosoMode::TestMacro) {
            Seq::empty()
        } else {
            seq![OpView::List(listing_lines(mode_table(env)))]
        }
    } else if args.list_all {
        seq![OpView::List(listing_lines(table_view(env.versions_table@)))]
    } else {
        Seq::empty()
    }
}

/// The build, run and delete asked for, in that order.
pub open spec fn session_basic(env: AmbosoEnv) -> Seq<OpView> {
    (if env.do_build {
        seq![OpView::Build(None)]
    } else {
        Seq::empty()
    }) + (if env.do_run {
        seq![OpView::Run]
    } else {
        Seq::empty()
    }) + (if env.do_delete {
        seq![OpView::Delete(None)]
    } else {
        Seq::empty()
    })
}

/// A build (`build`) or a delete of every version of the mode's table, in order, when
/// `asked`.
pub open spec fn session_each(env: AmbosoEnv, asked: bool, build: bool) -> Seq<OpView> {
    if asked {
        each_op(mode_table(env), build)
    } else {
        Seq::empty()
    }
}

/// The operations of a run, in order. A test run of a project without test support does
/// nothing. Otherwise: the listing asked for; the build, run and delete asked for; with
/// init, a build of every version of the mode's table, in order; with purge, a delete of
/// every one; and last, for amboso-C projects, the query.
pub open spec fn session_ops(env: AmbosoEnv, args: Args) -> Seq<OpView> {
    let testing = env.run_mode == Some(AmbosoMode::TestMode) || env.run_mode == Some(
        AmbosoMode::TestMacro,
    );
    if testing && !env.support_testmode {
        Seq::empty()
    } else {
        session_listing(env, args) + session_basic(env) + session_each(env, env.do_init, true)
            + session_each(env, env.do_purge, false) + (if env.anvil_kern == AnvilKern::AmbosoC {
            seq![OpView::Query]
        } else {
            Seq::empty()
        })
    }
}

/// Whether a run does nothing: a test run of a project without test support.
pub open spec fn idle_test_run(env: AmbosoEnv) -> bool {
    (env.run_mode == Some(AmbosoMode::TestMode) || env.run_mode == Some(AmbosoMode::TestMacro))
        && !env.support_testmode
}

/// The build, run and delete asked for: a build first when asked, then a run when asked,
/// then a delete when asked, and nothing else.
proof fn lemma_session_basic_shape(env: AmbosoEnv)
    ensures
        ({
            let b = session_basic(env);
            let nb: int = if env.do_build { 1 } else { 0 };
            let nr: int = if env.do_run { 1 } else { 0 };
            let nd: int = if env.do_delete { 1 } else { 0 };
            &&& b.len() == nb + nr + nd
            &&& env.do_build ==> b[0] == OpView::Build(None)
            &&& env.do_run ==> b[nb] == OpView::Run
            &&& env.do_delete ==> b[nb + nr] == OpView::Delete(None)
            &&& forall|i: int| 0 <= i < b.len() ==> (#[trigger] b[i] is Build ==> env.do_build && i == 0)
            &&& forall|i: int| 0 <= i < b.len() ==> (#[trigger] b[i] is Run ==> env.do_run && i == nb)
            &&& forall|i: int| 0 <= i < b.len() ==> (#[trigger] b[i] is Delete ==> env.do_delete && i == nb + nr)
            &&& forall|i: int| 0 <= i < b.len() ==> !(#[trigger] b[i] is List) && !(b[i] is Query)
        }),
{
}

/// A build or a delete of every version of the mode's table: only builds of a named
/// version (`build`) or only deletes of one, and none unless asked.
proof fn lemma_session_each_shape(env: AmbosoEnv, asked: bool, build: bool)
    ensures
        forall|i: int| 0 <= i < session_each(env, asked, build).len() ==> {
            let o = #[trigger] session_each(env, asked, build)[i];
            &&& asked
            &&& build ==> o is Build && o != OpView::Build(None)
            &&& !build ==> o is Delete && o != OpView::Delete(None)
        },
{
}

/// The plan put together from a listing `l`, the build, run and delete `b`, the builds
/// `e1` and deletes `e2` of every version, and the query `q`, as `session_ops` does.
proof fn lemma_plan_from_parts(
    l: Seq<OpView>,
    b: Seq<OpView>,
    e1: Seq<OpView>,
    e2: Seq<OpView>,
    q: Seq<OpView>,
    env: AmbosoEnv,
    query: bool,
)
    requires
        forall|i: int| 0 <= i < l.len() ==> #[trigger] l[i] is List,
        ({
            let nb: int = if env.do_build { 1 } else { 0 };
            let nr: int = if env.do_run { 1 } else { 0 };
            let nd: int = if env.do_delete { 1 } else { 0 };
            &&& b.len() == nb + nr + nd
            &&& env.do_build ==> b[0] == OpView::Build(None)
            &&& env.do_run ==> b[nb] == OpView::Run
            &&& env.do_delete ==> b[nb + nr] == OpView::Delete(None)
            &&& forall|i: int| 0 <= i < b.len() ==> (#[trigger] b[i] is Build ==> env.do_build && i == 0)
            &&& forall|i: int| 0 <= i < b.len() ==> (#[trigger] b[i] is Run ==> env.do_run && i == nb)
            &&& forall|i: int| 0 <= i < b.len() ==> (#[trigger] b[i] is Delete ==> env.do_delete && i == nb + nr)
            &&& forall|i: int| 0 <= i < b.len() ==> !(#[trigger] b[i] is List) && !(b[i] is Query)
        }),
        forall|i: int| 0 <= i < e1.len() ==> {
            let o = #[trigger] e1[i];
            &&& env.do_init
            &&& o is Build && o != OpView::Build(None)
        },
        forall|i: int| 0 <= i < e2.len() ==> {
            let o = #[trigger] e2[i];
            &&& env.do_purge
            &&& o is Delete && o != OpView::Delete(None)
        },
        q == (if query { seq![OpView::Query] } else { Seq::<OpView>::empty() }),
    ensures
        ({
            let ops = l + b + e1 + e2 + q;
            &&& env.do_build ==> ops.contains(OpView::Build(None))
            &&& env.do_run ==> ops.contains(OpView::Run)
            &&& env.do_delete ==> ops.contains(OpView::Delete(None))
            &&& forall|i: int| 0 <= i < ops.len() && #[trigger] ops[i] == OpView::Run ==> env.do_run
            &&& forall|i: int| 0 <= i < ops.len() && #[trigger] ops[i] is Build ==> env.do_build || env.do_init
            &&& forall|i: int| 0 <= i < ops.len() && #[trigger] ops[i] is Delete ==> env.do_delete || env.do_purge
            &&& forall|i: int| 0 <= i < ops.len() && #[trigger] ops[i] == OpView::Query ==> query && i == ops.len() - 1
            &&& query ==> ops.len() > 0 && ops.last() == OpView::Query
            &&& forall|i: int, j: int|
                0 <= i < ops.len() && 0 <= j < ops.len() && #[trigger] ops[i] == OpView::Build(None)
                    && #[trigger] ops[j] == OpView::Run ==> i < j
            &&& forall|i: int, j: int|
                0 <= i < ops.len() && 0 <= j < ops.len() && #[trigger] ops[i] == OpView::Run
                    && #[trigger] ops[j] == OpView::Delete(None) ==> i < j
        }),
{
    let ops = l + b + e1 + e2 + q;
    let nb: int = if env.do_build { 1 } else { 0 };
    let nr: int = if env.do_run { 1 } else { 0 };
    let o1 = l.len() as int;
    let o2 = o1 + b.len();
    let o3 = o2 + e1.len();
    let o4 = o3 + e2.len();
    assert(ops.len() == o4 + q.len());
    if env.do_build {
        assert(ops[o1] == OpView::Build(None));
    }
    if env.do_run {
        assert(ops[o1 + nb] == OpView::Run);
    }
    if env.do_delete {
        assert(ops[o1 + nb + nr] == OpView::Delete(None));
    }
    if query {
        assert(ops[o4] == OpView::Query);
    }
    assert forall|i: int| 0 <= i < ops.len() && #[trigger] ops[i] is Run implies env.do_run && i == o1 + nb by {
        if i < o1 {
            assert(l[i] is List);
        } else if i < o2 {
            assert(b[i - o1] is Run);
        } else if i < o3 {
            assert(e1[i - o2] is Build);
        } else if i < o4 {
            assert(e2[i - o3] is Delete);
        }
    }
    assert forall|i: int| 0 <= i < ops.len() && #[trigger] ops[i] == OpView::Build(None) implies env.do_build && i == o1 by {
        if i < o1 {
            assert(l[i] is List);
        } else if i < o2 {
            assert(b[i - o1] is Build);
        } else if i < o3 {
            assert(e1[i - o2] != OpView::Build(None));
        } else if i < o4 {
            assert(e2[i - o3] is Delete);
        }
    }
    assert forall|i: int| 0 <= i < ops.len() && #[trigger] ops[i] == OpView::Delete(None) implies env.do_delete && i == o1 + nb + nr by {
        if i < o1 {
            assert(l[i] is List);
        } else if i < o2 {
            assert(b[i - o1] is Delete);
        } else if i < o3 {
            assert(e1[i - o2] is Build);
        } else if i < o4 {
            assert(e2[i - o3] != OpView::Delete(None));
        }
    }
    assert forall|i: int| 0 <= i < ops.len() && #[trigger] ops[i] is Build implies env.do_build || env.do_init by {
        if i < o1 {
            assert(l[i] is List);
        } else if i < o2 {
            assert(b[i - o1] is Build);
        } else if i < o3 {
            assert(e1[i - o2] is Build);
        } else if i < o4 {
            assert(e2[i - o3] is Delete);
        }
    }
    assert forall|i: int| 0 <= i < ops.len() && #[trigger] ops[i] is Delete implies env.do_delete || env.do_purge by {
        if i < o1 {
            assert(l[i] is List);
        } else if i < o2 {
            assert(b[i - o1] is Delete);
        } else if i < o3 {
            assert(e1[i - o2] is Build);
        } else if i < o4 {
            assert(e2[i - o3] is Delete);
        }
    }
    assert forall|i: int| 0 <= i < ops.len() && #[trigger] ops[i] == OpView::Query implies query && i == ops.len() - 1 by {
        if i < o1 {
            assert(l[i] is List);
        } else if i < o2 {
            assert(!(b[i - o1] is Query));
        } else if i < o3 {
            assert(e1[i - o2] is Build);
        } else if i < o4 {
            assert(e2[i - o3] is Delete);
        }
    }
}

/// A run's operations follow its flags: unless it is a test run of a project without
/// test support (which does nothing), asking to build, to run or to delete puts a build,
/// a run or a delete of the tag's version in the plan, in that order; a run is there only
/// when asked for, a build only with build or init, a delete only with delete or purge,
/// and an amboso-C project's plan ends with the query, which no other kind gets.
pub proof fn lemma_session_ops_follow_flags(env: AmbosoEnv, args: Args)
    ensures
        ({
            let ops = session_ops(env, args);
            &&& idle_test_run(env) ==> ops.len() == 0
            &&& !idle_test_run(env) && env.do_build ==> ops.contains(OpView::Build(None))
            &&& !idle_test_run(env) && env.do_run ==> ops.contains(OpView::Run)
            &&& !idle_test_run(env) && env.do_delete ==> ops.contains(OpView::Delete(None))
            &&& forall|i: int| 0 <= i < ops.len() && #[trigger] ops[i] == OpView::Run ==> env.do_run
            &&& forall|i: int| 0 <= i < ops.len() && #[trigger] ops[i] is Build ==> env.do_build || env.do_init
            &&& forall|i: int| 0 <= i < ops.len() && #[trigger] ops[i] is Delete ==> env.do_delete || env.do_purge
            &&& forall|i: int| 0 <= i < ops.len() && #[trigger] ops[i] == OpView::Query ==> env.anvil_kern
                == AnvilKern::AmbosoC && i == ops.len() - 1
            &&& !idle_test_run(env) && env.anvil_kern == AnvilKern::AmbosoC ==> ops.len() > 0 && ops.last()
                == OpView::Query
            &&& forall|i: int, j: int|
                0 <= i < ops.len() && 0 <= j < ops.len() && #[trigger] ops[i] == OpView::Build(None)
                    && #[trigger] ops[j] == OpView::Run ==> i < j
            &&& forall|i: int, j: int|
                0 <= i < ops.len() && 0 <= j < ops.len() && #[trigger] ops[i] == OpView::Run
                    && #[trigger] ops[j] == OpView::Delete(None) ==> i < j
        }),
{
    if !idle_test_run(env) {
        let l = session_listing(env, args);
        let q = if env.anvil_kern == AnvilKern::AmbosoC {
            seq![OpView::Query]
        } else {
            Seq::<OpView>::empty()
        };
        assert forall|i: int| 0 <= i < l.len() implies #[trigger] l[i] is List by {}
        lemma_session_basic_shape(env);
        lemma_session_each_shape(env, env.do_init, true);
        lemma_session_each_shape(env, env.do_purge, false);
        lemma_plan_from_parts(
            l,
            session_basic(env),
            session_each(env, env.do_init, true),
            session_each(env, env.do_purge, false),
            q,
            env,
            env.anvil_kern == AnvilKern::AmbosoC,
        );
    }
}

/// The operations of a sequence, as text.
pub open spec fn ops_view(s: Seq<SessionOp>) -> Seq<OpView> {
    s.map_values(|o: SessionOp| op_view(o))
}

/// The listing a run logs.
fn listing_ops(env: &AmbosoEnv, args: &Args) -> (r: Vec<SessionOp>)
    ensures
        ops_view(r@) == session_listing(*env, *args),
{
    let mut list: Vec<SessionOp> = Vec::new();
    if args.list {
        match env.run_mode {
            Some(AmbosoMode::TestMacro) => {},
            _ => {
                let lines = match env.run_mode {
                    Some(AmbosoMode::GitMode) => listing(&env.gitmode_versions_table),
                    _ => listing(&env.basemode_versions_table),
                };
                proof {
                    assert(lines_view(lines@) =~= listing_lines(mode_table(*env)));
                }
                list.push(SessionOp::List(lines));
            },
        }
    } else if args.list_all {
        let lines = listing(&env.versions_table);
        proof {
            assert(lines_view(lines@) =~= listing_lines(table_view(env.versions_table@)));
        }
        list.push(SessionOp::List(lines));
    }
    assert(ops_view(list@) =~= session_listing(*env, *args));
    list
}

/// The build, run and delete asked for.
fn basic_ops(env: &AmbosoEnv) -> (r: Vec<SessionOp>)
    ensures
        ops_view(r@) == session_basic(*env),
{
    let mut ops: Vec<SessionOp> = Vec::new();
    if env.do_build {
        ops.push(SessionOp::Build(None));
    }
    let ghost v1 = ops_view(ops@);
    assert(v1 =~= (if env.do_build { seq![OpView::Build(None)] } else { Seq::empty() }));
    if env.do_run {
        ops.push(SessionOp::Run);
    }
    let ghost v2 = ops_view(ops@);
    assert(v2 =~= v1 + (if env.do_run { seq![OpView::Run] } else { Seq::empty() }));
    if env.do_delete {
        ops.push(SessionOp::Delete(None));
    }
    assert(ops_view(ops@) =~= v2 + (if env.do_delete { seq![OpView::Delete(None)] } else { Seq::empty() }));
    ops
}

/// Each version of a table as an operation on it: a build (`build`) or a delete.
fn each_version(t: &Vec<(SemVerKey, String)>, build: bool) -> (r: Vec<SessionOp>)
    ensures
        ops_view(r@) == each_op(table_view(t@), build),
{
    let mut r: Vec<SessionOp> = Vec::new();
    let mut i: usize = 0;
    while i < t.len()
        invariant
            i <= t@.len(),
            ops_view(r@) == each_op(table_view(t@).take(i as int), build),
        decreases t@.len() - i,
    {
        let k = t[i].0.0.clone();
        let ghost before = r@;
        let op = if build {
            SessionOp::Build(Some(k))
        } else {
            SessionOp::Delete(Some(k))
        };
        assert(op_view(op) == version_op(table_view(t@)[i as int], build));
        r.push(op);
        assert(ops_view(r@) =~= ops_view(before).push(op_view(op)));
        assert(ops_view(r@) =~= each_op(table_view(t@).take(i + 1), build));
        i = i + 1;
    }
    assert(table_view(t@).take(t@.len() as int) =~= table_view(t@));
    r
}

/// The operations of a concatenation are those of its parts.
proof fn lemma_ops_view_concat(a: Seq<SessionOp>, b: Seq<SessionOp>)
    ensures
        ops_view(a + b) == ops_view(a) + ops_view(b),
{
    assert(ops_view(a + b) =~= ops_view(a) + ops_view(b));
}

/// A build (`build`) or a delete of every version of the mode's table, when `asked`.
fn each_mode_version(env: &AmbosoEnv, asked: bool, build: bool) -> (r: Vec<SessionOp>)
    ensures
        ops_view(r@) == session_each(*env, asked, build),
{
    if !asked {
        let r: Vec<SessionOp> = Vec::new();
        assert(ops_view(r@) =~= Seq::<OpView>::empty());
        return r;
    }
    match env.run_mode {
        Some(AmbosoMode::GitMode) => each_version(&env.gitmode_versions_table, build),
        _ => each_version(&env.basemode_versions_table, build),
    }
}

/// The query, for amboso-C projects.
fn query_ops(env: &AmbosoEnv) -> (r: Vec<SessionOp>)
    ensures
        ops_view(r@) == (if env.anvil_kern == AnvilKern::AmbosoC {
            seq![OpView::Query]
        } else {
            Seq::<OpView>::empty()
        }),
{
    let mut query: Vec<SessionOp> = Vec::new();
    match env.anvil_kern {
        AnvilKern::AmbosoC => {
            query.push(SessionOp::Query);
        },
        _ => {},
    }
    assert(ops_view(query@) =~= (if env.anvil_kern == AnvilKern::AmbosoC {
        seq![OpView::Query]
    } else {
        Seq::<OpView>::empty()
    }));
    query
}

/// The operations of a run, in order.
pub fn session_plan(env: &AmbosoEnv, args: &Args) -> (r: Vec<SessionOp>)
    requires
        env.run_mode is Some,
        args.list && env.run_mode == Some(AmbosoMode::TestMode) ==> !env.support_testmode,
        env.do_init || env.do_purge ==> env.run_mode == Some(AmbosoMode::GitMode) || env.run_mode
            == Some(AmbosoMode::BaseMode) || !env.support_testmode,
    ensures
        ops_view(r@) == session_ops(*env, *args),
{
    let testing = match env.run_mode {
        Some(AmbosoMode::TestMode) | Some(AmbosoMode::TestMacro) => true,
        _ => false,
    };
    if testing && !env.support_testmode {
        let r: Vec<SessionOp> = Vec::new();
        assert(ops_view(r@) =~= Seq::<OpView>::empty());
        return r;
    }
    let mut r = listing_ops(env, args);
    let mut ops = basic_ops(env);
    let mut init = each_mode_version(env, env.do_init, true);
    let mut purge = each_mode_version(env, env.do_purge, false);
    let mut query = query_ops(env);
    let ghost (a, b, c, d, e) = (r@, ops@, init@, purge@, query@);
    r.append(&mut ops);
    r.append(&mut init);
    r.append(&mut purge);
    r.append(&mut query);
    proof {
        lemma_ops_view_concat(a, b);
        lemma_ops_view_concat(a + b, c);
        lemma_ops_view_concat(a + b + c, d);
        lemma_ops_view_concat(a + b + c + d, e);
    }
    r
}

/// How a run hands over to make: with a Makefile, `make`; else, with configure.ac and
/// Makefile.am, the autotools and then make; else not at all.
#[derive(Debug, Clone, Copy, PartialEq, Eq, Structural)]
pub enum MakeRoute {
    Make,
    Autotools,
    Missing,
}

/// How a run hands over to make, from which of Makefile, configure.ac and Makefile.am
/// exist.
pub fn make_route(makefile: bool, configure_ac: bool, makefile_am: bool) -> (r: MakeRoute)
    ensures
        makefile ==> r == MakeRoute::Make,
        !makefile && configure_ac && makefile_am ==> r == MakeRoute::Autotools,
        !makefile && !(configure_ac && makefile_am) ==> r == MakeRoute::Missing,
{
    if makefile {
        MakeRoute::Make
    } else if configure_ac && makefile_am {
        MakeRoute::Autotools
    } else {
        MakeRoute::Missing
    }
}

/// The shell line that prepares an autotools project and builds it.
pub const AUTOTOOLS_BUILD_LINE: &'static str = "aclocal ; autoconf ; automake --add-missing ; ./configure; make";

/// The shell line that prepares the autotools of a version before it is configured.
pub const AUTOTOOLS_BOOTSTRAP_LINE: &'static str = "aclocal; autoconf; automake --add-missing;";

/// The exit status of a run that handed over to make: make's own, or 1 when a signal
/// ended it.
pub fn make_exit_status(code: Option<i32>) -> (r: i32)
    ensures
        code matches Some(c) ==> r == c,
        code is None ==> r == 1,
{
    match code {
        Some(c) => c,
        None => 1,
    }
}

/// The exit status of the `build` subcommand: 0 when the build succeeded, 1 otherwise.
pub fn quick_build_status(res: &Result<String, String>) -> (r: i32)
    ensures
        res is Ok ==> r == 0,
        res is Err ==> r == 1,
{
    match res {
        Ok(_) => 0,
        Err(_) => 1,
    }
}

/// The greeting a run prints unless quiet: the tool's name and version, the copyright,
/// the warranty notice naming the program as invoked, and where the source is.
pub open spec fn splash_text(name: Seq<char>, version: Seq<char>, prog: Seq<char>) -> Seq<char> {
    name + ", version "@ + version + "\nCopyright (C) 2023-2025  jgabaut\n\n  This program comes with ABSOLUTELY NO WARRANTY; for details type `"@
        + prog + " -W`.\n  This is free software, and you are welcome to redistribute it\n  under certain conditions; see file `LICENSE` for details.\n\n  Full source is available at https://github.com/jgabaut/invil\n"@
}

/// The greeting a run prints unless quiet.
pub fn splash(name: &str, version: &str, prog: &str) -> (r: String)
    ensures
        r@ == splash_text(name@, version@, prog@),
{
    let mut r = String::from_str(name);
    r.append(", version ");
    r.append(version);
    r.append("\nCopyright (C) 2023-2025  jgabaut\n\n  This program comes with ABSOLUTELY NO WARRANTY; for details type `");
    r.append(prog);
    r.append(" -W`.\n  This is free software, and you are welcome to redistribute it\n  under certain conditions; see file `LICENSE` for details.\n\n  Full source is available at https://github.com/jgabaut/invil\n");
    r
}

} // verus!
