//! The order of texts character by character, the order in which `str` compares,
//! and tables of tests keyed by name that are kept in that order.

use vstd::prelude::*;
use crate::chars::to_chars;

verus! {

/// Whether `a` comes before `b`, given that they agree on the first `i` characters.
pub open spec fn text_less_from(a: Seq<char>, b: Seq<char>, i: nat) -> bool
    decreases a.len() - i,
{
    if i >= a.len() {
        i < b.len()
    } else if i >= b.len() {
        false
    } else if a[i as int] != b[i as int] {
        (a[i as int] as int) < (b[i as int] as int)
    } else {
        text_less_from(a, b, i + 1)
    }
}

/// Whether `a` comes before `b`: at the first character where they differ, the one of
/// `a` is the lower; or `a` is a proper prefix of `b`.
pub open spec fn text_less(a: Seq<char>, b: Seq<char>) -> bool {
    text_less_from(a, b, 0)
}

/// No text comes before itself.
pub proof fn lemma_text_less_irreflexive(a: Seq<char>, i: nat)
    ensures
        !text_less_from(a, a, i),
    decreases a.len() - i,
{
    if i < a.len() {
        lemma_text_less_irreflexive(a, i + 1);
    }
}

/// Of two texts that agree on their first `i` characters, one comes before the other
/// unless they are equal.
pub proof fn lemma_text_less_total(a: Seq<char>, b: Seq<char>, i: nat)
    requires
        i <= a.len(),
        i <= b.len(),
        forall|j: int| 0 <= j < i ==> a[j] == b[j],
    ensures
        text_less_from(a, b, i) || text_less_from(b, a, i) || a == b,
    decreases a.len() - i,
{
    if i >= a.len() && i >= b.len() {
        assert(a =~= b);
    } else if i < a.len() && i < b.len() && a[i as int] == b[i as int] {
        lemma_text_less_total(a, b, i + 1);
    }
}

/// The order is transitive.
pub proof fn lemma_text_less_transitive(a: Seq<char>, b: Seq<char>, c: Seq<char>, i: nat)
    requires
        text_less_from(a, b, i),
        text_less_from(b, c, i),
    ensures
        text_less_from(a, c, i),
    decreases a.len() - i,
{
    if i < a.len() && i < b.len() && i < c.len() && a[i as int] == b[i as int] && b[i as int] == c[
        i as int] {
        lemma_text_less_transitive(a, b, c, i + 1);
    }
}

/// The order is asymmetric.
pub proof fn lemma_text_less_asymmetric(a: Seq<char>, b: Seq<char>, i: nat)
    requires
        text_less_from(a, b, i),
    ensures
        !text_less_from(b, a, i),
    decreases a.len() - i,
{
    if i < a.len() && i < b.len() && a[i as int] == b[i as int] {
        lemma_text_less_asymmetric(a, b, i + 1);
    }
}

/// Whether `a` comes before `b` (`a < b` on `str`).
pub fn text_lt(a: &str, b: &str) -> (r: bool)
    ensures
        r == text_less(a@, b@),
{
    let x = to_chars(a);
    let y = to_chars(b);
    let mut i: usize = 0;
    while i < x.len() && i < y.len()
        invariant
            x@ == a@,
            y@ == b@,
            i <= x@.len(),
            i <= y@.len(),
            text_less(a@, b@) == text_less_from(a@, b@, i as nat),
        decreases x@.len() - i,
    {
        if x[i] != y[i] {
            return x[i] < y[i];
        }
        i = i + 1;
    }
    i < y.len()
}

/// A table of named entries, as text.
pub open spec fn named_view(t: Seq<(String, String)>) -> Seq<(Seq<char>, Seq<char>)> {
    t.map_values(|e: (String, String)| (e.0@, e.1@))
}

/// Entries are in strictly increasing order of their names, so no name occurs twice.
pub open spec fn names_sorted(t: Seq<(Seq<char>, Seq<char>)>) -> bool {
    forall|i: int, j: int| 0 <= i < j < t.len() ==> text_less(#[trigger] t[i].0, #[trigger] t[j].0)
}

/// Whether the table has an entry named `k`.
pub open spec fn has_name(t: Seq<(Seq<char>, Seq<char>)>, k: Seq<char>) -> bool {
    exists|i: int| 0 <= i < t.len() && #[trigger] t[i].0 == k
}

/// The value of the entry named `k`, if any.
pub open spec fn named_value(t: Seq<(Seq<char>, Seq<char>)>, k: Seq<char>) -> Option<Seq<char>> {
    if has_name(t, k) {
        Some(t[choose|i: int| 0 <= i < t.len() && #[trigger] t[i].0 == k].1)
    } else {
        None
    }
}

/// In a sorted table the entry named `k` is the one at any index that holds `k`.
pub proof fn lemma_named_value_at(t: Seq<(Seq<char>, Seq<char>)>, i: int)
    requires
        names_sorted(t),
        0 <= i < t.len(),
    ensures
        named_value(t, t[i].0) == Some(t[i].1),
{
    let k = t[i].0;
    assert(has_name(t, k));
    let c = choose|j: int| 0 <= j < t.len() && #[trigger] t[j].0 == k;
    lemma_text_less_irreflexive(k, 0);
    if c < i {
        assert(text_less(t[c].0, t[i].0));
    } else if c > i {
        assert(text_less(t[i].0, t[c].0));
    }
}

/// Sets the value of the entry named `k`, adding it in its place when the table has none
/// (`BTreeMap::insert`).
pub fn insert_named(t: &mut Vec<(String, String)>, k: String, v: String)
    requires
        names_sorted(named_view(old(t)@)),
    ensures
        names_sorted(named_view(final(t)@)),
        forall|x: Seq<char>|
            #![trigger named_value(named_view(final(t)@), x)]
            named_value(named_view(final(t)@), x) == (if x == k@ {
                Some(v@)
            } else {
                named_value(named_view(old(t)@), x)
            }),
{
    let ghost ot = named_view(t@);
    let n = t.len();
    let mut p: usize = 0;
    while p < n && text_lt(t[p].0.as_str(), k.as_str())
        invariant
            t@ == old(t)@,
            ot == named_view(t@),
            n == t@.len(),
            p <= n,
            forall|j: int| 0 <= j < p ==> text_less(#[trigger] ot[j].0, k@),
        decreases n - p,
    {
        p = p + 1;
    }
    let ghost kv = (k@, v@);
    if p < n && same_name(t[p].0.as_str(), k.as_str()) {
        let name = t[p].0.clone();
        t.set(p, (name, v));
        let ghost nt = named_view(t@);
        assert(nt =~= ot.update(p as int, kv));
        proof {
            assert forall|i: int, j: int| 0 <= i < j < nt.len() implies text_less(
                #[trigger] nt[i].0,
                #[trigger] nt[j].0,
            ) by {
                assert(ot[i].0 == nt[i].0 && ot[j].0 == nt[j].0);
            }
            assert forall|x: Seq<char>| #[trigger]
                named_value(nt, x) == (if x == k@ {
                    Some(v@)
                } else {
                    named_value(ot, x)
                }) by {
                lemma_named_value_at(nt, p as int);
                if x != k@ {
                    if has_name(ot, x) {
                        let i = choose|i: int| 0 <= i < ot.len() && #[trigger] ot[i].0 == x;
                        lemma_named_value_at(ot, i);
                        lemma_named_value_at(nt, i);
                    }
                    if has_name(nt, x) {
                        let i = choose|i: int| 0 <= i < nt.len() && #[trigger] nt[i].0 == x;
                        assert(ot[i].0 == x);
                    }
                }
            }
        }
    } else {
        proof {
            if p < n {
                lemma_text_less_total(k@, ot[p as int].0, 0);
            }
        }
        t.insert(p, (k, v));
        let ghost nt = named_view(t@);
        assert(nt =~= ot.insert(p as int, kv));
        proof {
            assert forall|i: int, j: int| 0 <= i < j < nt.len() implies text_less(
                #[trigger] nt[i].0,
                #[trigger] nt[j].0,
            ) by {
                if j == p {
                } else if i == p {
                    if j > p + 1 {
                        lemma_text_less_transitive(k@, ot[p as int].0, ot[j - 1].0, 0);
                    }
                } else if i < p && j > p {
                    assert(text_less(ot[i].0, k@));
                } else if i > p {
                    assert(nt[i] == ot[i - 1] && nt[j] == ot[j - 1]);
                }
            }
            assert forall|x: Seq<char>| #[trigger]
                named_value(nt, x) == (if x == k@ {
                    Some(v@)
                } else {
                    named_value(ot, x)
                }) by {
                lemma_named_value_at(nt, p as int);
                if x != k@ {
                    if has_name(ot, x) {
                        let i = choose|i: int| 0 <= i < ot.len() && #[trigger] ot[i].0 == x;
                        lemma_named_value_at(ot, i);
                        if i < p {
                            lemma_named_value_at(nt, i);
                        } else {
                            assert(nt[i + 1] == ot[i]);
                            lemma_named_value_at(nt, i + 1);
                        }
                    }
                    if has_name(nt, x) {
                        let i = choose|i: int| 0 <= i < nt.len() && #[trigger] nt[i].0 == x;
                        if i < p {
                            assert(ot[i].0 == x);
                        } else if i > p {
                            assert(ot[i - 1].0 == x);
                        }
                    }
                }
            }
        }
    }
}

/// Whether two names are the same.
fn same_name(a: &str, b: &str) -> (r: bool)
    ensures
        r == (a@ == b@),
{
    crate::chars::same_text(a, b)
}

/// A table kept in name order is determined by what it holds under each name: two such
/// tables that agree on every name are the same table.
pub proof fn lemma_sorted_tables_equal(a: Seq<(Seq<char>, Seq<char>)>, b: Seq<(Seq<char>, Seq<char>)>)
    requires
        names_sorted(a),
        names_sorted(b),
        forall|x: Seq<char>| #[trigger] named_value(a, x) == named_value(b, x),
    ensures
        a == b,
    decreases a.len() + b.len(),
{
    if a.len() == 0 {
        if b.len() > 0 {
            lemma_named_value_at(b, 0);
            assert(named_value(a, b[0].0) is None);
        }
        assert(a =~= b);
    } else if b.len() == 0 {
        lemma_named_value_at(a, 0);
        assert(named_value(b, a[0].0) is None);
    } else {
        // the first entries are the least names of both tables
        let (x, y) = (a[0].0, b[0].0);
        lemma_named_value_at(a, 0);
        lemma_named_value_at(b, 0);
        let ix = choose|i: int| 0 <= i < b.len() && #[trigger] b[i].0 == x;
        let iy = choose|i: int| 0 <= i < a.len() && #[trigger] a[i].0 == y;
        assert(has_name(b, x));
        assert(has_name(a, y));
        if ix > 0 && iy > 0 {
            assert(text_less(y, x));
            assert(text_less(x, y));
            lemma_text_less_asymmetric(x, y, 0);
        }
        if ix == 0 {
            assert(x == y);
        } else {
            assert(y == x);
        }
        assert(a[0] == b[0]);
        let (ra, rb) = (a.drop_first(), b.drop_first());
        assert forall|i: int, j: int| 0 <= i < j < ra.len() implies text_less(
            #[trigger] ra[i].0,
            #[trigger] ra[j].0,
        ) by {
            assert(ra[i] == a[i + 1] && ra[j] == a[j + 1]);
        }
        assert forall|i: int, j: int| 0 <= i < j < rb.len() implies text_less(
            #[trigger] rb[i].0,
            #[trigger] rb[j].0,
        ) by {
            assert(rb[i] == b[i + 1] && rb[j] == b[j + 1]);
        }
        assert forall|z: Seq<char>| #[trigger] named_value(ra, z) == named_value(rb, z) by {
            lemma_named_value_drop_first(a, z);
            lemma_named_value_drop_first(b, z);
        }
        lemma_sorted_tables_equal(ra, rb);
        assert(a =~= seq![a[0]] + ra);
        assert(b =~= seq![b[0]] + rb);
    }
}

/// In a sorted table, what the rest after the first entry holds under a name is what the
/// table holds there, but for the first entry's name.
proof fn lemma_named_value_drop_first(a: Seq<(Seq<char>, Seq<char>)>, z: Seq<char>)
    requires
        names_sorted(a),
        a.len() > 0,
    ensures
        named_value(a.drop_first(), z) == (if z == a[0].0 {
            None
        } else {
            named_value(a, z)
        }),
{
    let r = a.drop_first();
    assert forall|i: int, j: int| 0 <= i < j < r.len() implies text_less(
        #[trigger] r[i].0,
        #[trigger] r[j].0,
    ) by {
        assert(r[i] == a[i + 1] && r[j] == a[j + 1]);
    }
    if has_name(r, z) {
        let i = choose|i: int| 0 <= i < r.len() && #[trigger] r[i].0 == z;
        lemma_named_value_at(r, i);
        assert(a[i + 1] == r[i]);
        lemma_named_value_at(a, i + 1);
        if z == a[0].0 {
            assert(text_less(a[0].0, a[i + 1].0));
            lemma_text_less_irreflexive(z, 0);
        }
    } else if z != a[0].0 && has_name(a, z) {
        let i = choose|i: int| 0 <= i < a.len() && #[trigger] a[i].0 == z;
        assert(r[i - 1] == a[i]);
    }
}

} // verus!
