//! Tables of versions: sequences of (version, description) entries kept in
//! version order, as the stego.lock readers build them.

use vstd::prelude::*;
use crate::semver::{semver_order, semver_order_code, SemVerKey};

verus! {

/// An entry of a version table, as text.
pub open spec fn entry_view(e: (SemVerKey, String)) -> (Seq<char>, Seq<char>) {
    (e.0.0@, e.1@)
}

/// A version table, as text.
pub open spec fn table_view(t: Seq<(SemVerKey, String)>) -> Seq<(Seq<char>, Seq<char>)> {
    t.map_values(|e: (SemVerKey, String)| entry_view(e))
}

/// Neighbouring entries are in version order.
pub open spec fn adjacent_ordered<V>(t: Seq<(Seq<char>, V)>) -> bool {
    forall|i: int, j: int|
        0 <= i && j == i + 1 && j < t.len() ==> semver_order(#[trigger] t[i].0, #[trigger] t[j].0) <= 0
}

/// The place for a new entry with version `k` that keeps equal versions in arrival order:
/// right after the last entry that is not greater than `k`.
pub open spec fn stable_slot<V>(t: Seq<(Seq<char>, V)>, k: Seq<char>) -> nat
    decreases t.len(),
{
    if t.len() == 0 {
        0
    } else if semver_order(t.last().0, k) > 0 {
        stable_slot(t.drop_last(), k)
    } else {
        t.len()
    }
}

/// `s` sorted by version, entries with equal versions keeping their order: each entry
/// in turn is placed at its `stable_slot`.
pub open spec fn sort_by_version<V>(s: Seq<(Seq<char>, V)>) -> Seq<(Seq<char>, V)>
    decreases s.len(),
{
    if s.len() == 0 {
        s
    } else {
        let t = sort_by_version(s.drop_last());
        t.insert(stable_slot(t, s.last().0) as int, s.last())
    }
}

/// The index of the first entry from `i` on that is greater than `k`, or the length.
pub open spec fn greater_slot_from<V>(t: Seq<(Seq<char>, V)>, k: Seq<char>, i: nat) -> nat
    decreases t.len() - i,
{
    if i >= t.len() {
        t.len()
    } else if semver_order(t[i as int].0, k) > 0 {
        i
    } else {
        greater_slot_from(t, k, i + 1)
    }
}

/// Whether some entry of `t` has a version equal to `k`.
pub open spec fn has_equal_key<V>(t: Seq<(Seq<char>, V)>, k: Seq<char>) -> bool {
    exists|i: int| 0 <= i < t.len() && semver_order(#[trigger] t[i].0, k) == 0
}

/// `t` with the new entry `(k, v)` before the first greater entry; none when `t`
/// already holds a version equal to `k`.
pub open spec fn insert_new_version<V>(
    t: Seq<(Seq<char>, V)>,
    k: Seq<char>,
    v: V,
) -> Option<Seq<(Seq<char>, V)>> {
    if has_equal_key(t, k) {
        None
    } else {
        Some(t.insert(greater_slot_from(t, k, 0) as int, (k, v)))
    }
}

pub proof fn lemma_stable_slot_bounds<V>(t: Seq<(Seq<char>, V)>, k: Seq<char>)
    ensures
        stable_slot(t, k) <= t.len(),
        forall|j: int| stable_slot(t, k) <= j < t.len() ==> semver_order(#[trigger] t[j].0, k) > 0,
        stable_slot(t, k) > 0 ==> semver_order(t[stable_slot(t, k) - 1].0, k) <= 0,
    decreases t.len(),
{
    if t.len() > 0 && semver_order(t.last().0, k) > 0 {
        lemma_stable_slot_bounds(t.drop_last(), k);
        assert forall|j: int| stable_slot(t, k) <= j < t.len() implies semver_order(
            #[trigger] t[j].0,
            k,
        ) > 0 by {
            if j < t.len() - 1 {
                assert(t[j] == t.drop_last()[j]);
            }
        }
    }
}

proof fn lemma_greater_slot_bounds<V>(t: Seq<(Seq<char>, V)>, k: Seq<char>, i: nat)
    requires
        i <= t.len(),
    ensures
        i <= greater_slot_from(t, k, i) <= t.len(),
        forall|j: int| i <= j < greater_slot_from(t, k, i) ==> semver_order(#[trigger] t[j].0, k) <= 0,
        greater_slot_from(t, k, i) < t.len() ==> semver_order(t[greater_slot_from(t, k, i) as int].0, k)
            > 0,
    decreases t.len() - i,
{
    if i < t.len() && semver_order(t[i as int].0, k) <= 0 {
        lemma_greater_slot_bounds(t, k, i + 1);
    }
}

/// Inserting at a slot after every entry not greater than `k` and before greater ones
/// keeps a table ordered between neighbours.
pub proof fn lemma_insert_keeps_order<V>(t: Seq<(Seq<char>, V)>, p: int, e: (Seq<char>, V))
    requires
        adjacent_ordered(t),
        0 <= p <= t.len(),
        p > 0 ==> semver_order(t[p - 1].0, e.0) <= 0,
        p < t.len() ==> semver_order(t[p].0, e.0) > 0,
    ensures
        adjacent_ordered(t.insert(p, e)),
{
    let u = t.insert(p, e);
    assert forall|i: int, j: int| 0 <= i && j == i + 1 && j < u.len() implies semver_order(
        #[trigger] u[i].0,
        #[trigger] u[j].0,
    ) <= 0 by {
        if j < p {
            assert(u[i] == t[i] && u[j] == t[j]);
        } else if j == p {
            assert(u[i] == t[p - 1]);
        } else if i == p {
            crate::semver::lemma_semver_order_antisymmetric(t[p].0, e.0);
            assert(u[j] == t[p]);
        } else {
            assert(u[i] == t[i - 1] && u[j] == t[j - 1]);
        }
    }
}

/// Sorting by version leaves neighbouring entries in version order.
pub proof fn lemma_sort_by_version_ordered<V>(s: Seq<(Seq<char>, V)>)
    ensures
        adjacent_ordered(sort_by_version(s)),
        sort_by_version(s).len() == s.len(),
    decreases s.len(),
{
    if s.len() > 0 {
        let t = sort_by_version(s.drop_last());
        lemma_sort_by_version_ordered(s.drop_last());
        lemma_stable_slot_bounds(t, s.last().0);
        lemma_insert_keeps_order(t, stable_slot(t, s.last().0) as int, s.last());
    }
}

/// Inserting a new version keeps neighbouring entries in version order.
pub proof fn lemma_insert_new_version_ordered<V>(
    t: Seq<(Seq<char>, V)>,
    k: Seq<char>,
    v: V,
)
    requires
        adjacent_ordered(t),
    ensures
        insert_new_version(t, k, v) matches Some(u) ==> adjacent_ordered(u),
{
    if !has_equal_key(t, k) {
        lemma_greater_slot_bounds(t, k, 0);
        lemma_insert_keeps_order(t, greater_slot_from(t, k, 0) as int, (k, v));
    }
}

proof fn lemma_table_view_insert(t: Seq<(SemVerKey, String)>, p: int, e: (SemVerKey, String))
    requires
        0 <= p <= t.len(),
    ensures
        table_view(t.insert(p, e)) == table_view(t).insert(p, entry_view(e)),
{
    assert(table_view(t.insert(p, e)) =~= table_view(t).insert(p, entry_view(e)));
}

fn stable_slot_exec(t: &Vec<(SemVerKey, String)>, k: &SemVerKey) -> (r: usize)
    ensures
        r == stable_slot(table_view(t@), k.0@),
{
    let mut j = t.len();
    assert(table_view(t@).take(t@.len() as int) =~= table_view(t@));
    while j > 0 && semver_order_code(t[j - 1].0.0.as_str(), k.0.as_str()) > 0
        invariant
            j <= t@.len(),
            stable_slot(table_view(t@), k.0@) == stable_slot(table_view(t@).take(j as int), k.0@),
        decreases j,
    {
        assert(table_view(t@).take(j as int).drop_last() =~= table_view(t@).take(j - 1));
        j = j - 1;
    }
    assert(table_view(t@).take(t@.len() as int) =~= table_view(t@));
    j
}

/// The entries sorted by version; entries with equal versions keep their order.
pub fn sort_versions(entries: Vec<(SemVerKey, String)>) -> (r: Vec<(SemVerKey, String)>)
    ensures
        table_view(r@) == sort_by_version(table_view(entries@)),
{
    let mut out: Vec<(SemVerKey, String)> = Vec::new();
    let n = entries.len();
    let mut i: usize = 0;
    let ghost all = table_view(entries@);
    while i < n
        invariant
            n == entries@.len(),
            i <= n,
            all == table_view(entries@),
            table_view(out@) == sort_by_version(all.take(i as int)),
        decreases n - i,
    {
        let e = (entries[i].0.duplicate(), entries[i].1.clone());
        assert(entry_view(e) == all[i as int]);
        let p = stable_slot_exec(&out, &e.0);
        proof {
            assert(all.take(i + 1).drop_last() =~= all.take(i as int));
            assert(all.take(i + 1).last() == all[i as int]);
            lemma_stable_slot_bounds(table_view(out@), e.0.0@);
            lemma_table_view_insert(out@, p as int, e);
        }
        out.insert(p, e);
        i = i + 1;
    }
    assert(all.take(n as int) =~= all);
    out
}

/// Adds the entry `(k, v)` before the first greater version; leaves the table as it was
/// and answers false when it already holds a version equal to `k`.
pub fn insert_version(t: &mut Vec<(SemVerKey, String)>, k: SemVerKey, v: String) -> (r: bool)
    ensures
        r == !has_equal_key(table_view(old(t)@), k.0@),
        r ==> Some(table_view(final(t)@)) == insert_new_version(table_view(old(t)@), k.0@, v@),
        !r ==> final(t)@ == old(t)@,
{
    let n = t.len();
    let mut i: usize = 0;
    while i < n
        invariant
            n == t@.len(),
            i <= n,
            forall|j: int| 0 <= j < i ==> semver_order(#[trigger] table_view(t@)[j].0, k.0@) != 0,
        decreases n - i,
    {
        if semver_order_code(t[i].0.0.as_str(), k.0.as_str()) == 0 {
            assert(semver_order(table_view(t@)[i as int].0, k.0@) == 0);
            return false;
        }
        i = i + 1;
    }
    let mut p: usize = 0;
    while p < n && semver_order_code(t[p].0.0.as_str(), k.0.as_str()) <= 0
        invariant
            n == t@.len(),
            p <= n,
            greater_slot_from(table_view(t@), k.0@, 0) == greater_slot_from(
                table_view(t@),
                k.0@,
                p as nat,
            ),
        decreases n - p,
    {
        p = p + 1;
    }
    let e = (k, v);
    proof {
        lemma_table_view_insert(t@, p as int, e);
    }
    t.insert(p, e);
    true
}


/// The index of the first entry from `i` on whose version equals `k`.
pub open spec fn first_equal_from<V>(t: Seq<(Seq<char>, V)>, k: Seq<char>, i: nat) -> Option<nat>
    decreases t.len() - i,
{
    if i >= t.len() {
        None
    } else if semver_order(t[i as int].0, k) == 0 {
        Some(i)
    } else {
        first_equal_from(t, k, i + 1)
    }
}

/// `t` with `v` as the description of the version equal to `k`, keeping that entry's
/// version text; when there is none, with the new entry `(k, v)` before the first
/// greater version.
pub open spec fn upsert_version<V>(t: Seq<(Seq<char>, V)>, k: Seq<char>, v: V) -> Seq<(Seq<char>, V)> {
    match first_equal_from(t, k, 0) {
        Some(j) => t.update(j as int, (t[j as int].0, v)),
        None => t.insert(greater_slot_from(t, k, 0) as int, (k, v)),
    }
}

/// Sets the description of version `k`, adding the version when the table lacks it.
pub fn upsert_version_exec(t: &mut Vec<(SemVerKey, String)>, k: SemVerKey, v: String)
    ensures
        table_view(final(t)@) == upsert_version(table_view(old(t)@), k.0@, v@),
{
    let n = t.len();
    let mut i: usize = 0;
    while i < n
        invariant
            t@ == old(t)@,
            n == t@.len(),
            i <= n,
            first_equal_from(table_view(t@), k.0@, 0) == first_equal_from(table_view(t@), k.0@, i as nat),
        decreases n - i,
    {
        if semver_order_code(t[i].0.0.as_str(), k.0.as_str()) == 0 {
            let key = t[i].0.duplicate();
            let ghost before = t@;
            t.set(i, (key, v));
            assert(table_view(t@) =~= table_view(before).update(i as int, (table_view(before)[i as int].0, v@)));
            return;
        }
        i = i + 1;
    }
    let mut p: usize = 0;
    while p < n && semver_order_code(t[p].0.0.as_str(), k.0.as_str()) <= 0
        invariant
            t@ == old(t)@,
            n == t@.len(),
            p <= n,
            first_equal_from(table_view(t@), k.0@, 0) is None,
            greater_slot_from(table_view(t@), k.0@, 0) == greater_slot_from(
                table_view(t@),
                k.0@,
                p as nat,
            ),
        decreases n - p,
    {
        p = p + 1;
    }
    let e = (k, v);
    proof {
        lemma_table_view_insert(t@, p as int, e);
    }
    t.insert(p, e);
}

/// Whether the table holds a version equal to `k` (`BTreeMap::contains_key` on
/// versions).
pub fn has_version(t: &Vec<(SemVerKey, String)>, k: &str) -> (r: bool)
    ensures
        r == has_equal_key(table_view(t@), k@),
{
    let n = t.len();
    let mut i: usize = 0;
    while i < n
        invariant
            n == t@.len(),
            i <= n,
            forall|j: int| 0 <= j < i ==> semver_order(#[trigger] table_view(t@)[j].0, k@) != 0,
        decreases n - i,
    {
        if semver_order_code(t[i].0.0.as_str(), k) == 0 {
            assert(table_view(t@)[i as int].0 == t@[i as int].0.0@);
            return true;
        }
        assert(table_view(t@)[i as int].0 == t@[i as int].0.0@);
        i = i + 1;
    }
    false
}

/// In a table kept in version order whose versions all have numeric cores of the same
/// length, the last version is the greatest: no version of the table comes after it.
pub proof fn lemma_last_is_greatest<V>(t: Seq<(Seq<char>, V)>, n: nat, i: int)
    requires
        adjacent_ordered(t),
        forall|j: int| 0 <= j < t.len() ==> #[trigger] crate::semver::version_parts(t[j].0).0.len() == n,
        0 <= i < t.len(),
    ensures
        semver_order(t[i].0, t.last().0) <= 0,
    decreases t.len() - i,
{
    if i == t.len() - 1 {
        crate::semver::lemma_semver_order_reflexive(t[i].0);
    } else {
        lemma_last_is_greatest(t, n, i + 1);
        assert(semver_order(t[i].0, t[i + 1].0) <= 0);
        assert(crate::semver::version_parts(t[i].0).0.len() == n);
        assert(crate::semver::version_parts(t[i + 1].0).0.len() == n);
        assert(crate::semver::version_parts(t[t.len() - 1].0).0.len() == n);
        crate::semver::lemma_semver_order_transitive(t[i].0, t[i + 1].0, t.last().0);
    }
}

} // verus!
