//! Version strings: how they split into a numeric core, a pre-release part and
//! build metadata, and the order in which they are compared.

use vstd::prelude::*;
use std::cmp::Ordering;
use crate::trusted::{regex_compiles, regex_finds, regex_is_match};
use crate::chars::{
    after_char, all_ascii_digits, before_char, decimal_value, digit_value, find_char_from, index_of,
    lemma_decimal_value_prefix_le, lemma_index_of_from_bounds, parse_u64, parse_u64_spec, sub_chars,
    to_chars,
};

verus! {

/// The number that a piece of a version core contributes: none when the piece
/// does not read as a `u64`.
pub open spec fn piece_number(p: Seq<char>) -> Seq<u64> {
    match parse_u64_spec(p) {
        Some(n) => seq![n],
        None => seq![],
    }
}

/// Scans `s` from `i`, the current piece having started at `start`: each `.` closes a piece.
pub open spec fn core_scan(s: Seq<char>, i: nat, start: nat) -> Seq<u64>
    decreases s.len() - i,
{
    if i >= s.len() {
        piece_number(s.subrange(start as int, s.len() as int))
    } else if s[i as int] == '.' {
        piece_number(s.subrange(start as int, i as int)) + core_scan(s, i + 1, i + 1)
    } else {
        core_scan(s, i + 1, start)
    }
}

/// The numeric core of a version: its `.`-separated pieces that read as a `u64`, in order.
pub open spec fn version_core(s: Seq<char>) -> Seq<u64> {
    core_scan(s, 0, 0)
}

/// A version split at its first `-` into core and extension, the extension split
/// at its first `+` into pre-release and build metadata.
pub open spec fn version_parts(v: Seq<char>) -> (Seq<u64>, Seq<char>, Seq<char>) {
    let ext = after_char(v, '-');
    if index_of(v, '-') < v.len() {
        (version_core(before_char(v, '-')), before_char(ext, '+'), after_char(ext, '+'))
    } else {
        (version_core(v), Seq::empty(), Seq::empty())
    }
}

/// Compares two number sequences position by position from `i`, over their common length.
pub open spec fn core_order_from(a: Seq<u64>, b: Seq<u64>, i: nat) -> int
    decreases a.len() - i,
{
    if i >= a.len() || i >= b.len() {
        0
    } else if a[i as int] < b[i as int] {
        -1
    } else if a[i as int] > b[i as int] {
        1
    } else {
        core_order_from(a, b, i + 1)
    }
}

/// Lexicographic order of two texts from position `i`, by code point.
pub open spec fn text_order_from(a: Seq<char>, b: Seq<char>, i: nat) -> int
    decreases a.len() - i,
{
    if i >= a.len() && i >= b.len() {
        0
    } else if i >= a.len() {
        -1
    } else if i >= b.len() {
        1
    } else if (a[i as int] as int) < (b[i as int] as int) {
        -1
    } else if (a[i as int] as int) > (b[i as int] as int) {
        1
    } else {
        text_order_from(a, b, i + 1)
    }
}

pub open spec fn text_order(a: Seq<char>, b: Seq<char>) -> int {
    text_order_from(a, b, 0)
}

/// The order of two versions, as -1, 0 or 1: first the common part of the numeric
/// cores, then the pre-release (a version without one is greater), then the build
/// metadata, then the length of the cores.
pub open spec fn semver_order(v1: Seq<char>, v2: Seq<char>) -> int {
    let (c1, p1, b1) = version_parts(v1);
    let (c2, p2, b2) = version_parts(v2);
    if core_order_from(c1, c2, 0) != 0 {
        core_order_from(c1, c2, 0)
    } else if p1.len() == 0 && p2.len() != 0 {
        1
    } else if p1.len() != 0 && p2.len() == 0 {
        -1
    } else if text_order(p1, p2) != 0 {
        text_order(p1, p2)
    } else if text_order(b1, b2) != 0 {
        text_order(b1, b2)
    } else if c1.len() < c2.len() {
        -1
    } else if c1.len() == c2.len() {
        0
    } else {
        1
    }
}

/// The `Ordering` that stands for -1, 0 or 1.
pub open spec fn ordering_of(c: int) -> Ordering {
    if c < 0 {
        Ordering::Less
    } else if c == 0 {
        Ordering::Equal
    } else {
        Ordering::Greater
    }
}

fn core_of_chars(v: &Vec<char>) -> (r: Vec<u64>)
    ensures
        r@ == version_core(v@),
{
    let mut acc: Vec<u64> = Vec::new();
    let mut i: usize = 0;
    let mut start: usize = 0;
    while i < v.len()
        invariant
            start <= i <= v@.len(),
            version_core(v@) == acc@ + core_scan(v@, i as nat, start as nat),
        decreases v@.len() - i,
    {
        if v[i] == '.' {
            let piece = sub_chars(v, start, i);
            let ghost before = acc@;
            match parse_u64(&piece) {
                Some(n) => {
                    acc.push(n);
                },
                None => {},
            }
            assert(acc@ == before + piece_number(v@.subrange(start as int, i as int)));
            assert(before + (piece_number(v@.subrange(start as int, i as int)) + core_scan(
                v@,
                (i + 1) as nat,
                (i + 1) as nat,
            )) =~= acc@ + core_scan(v@, (i + 1) as nat, (i + 1) as nat));
            start = i + 1;
        }
        i = i + 1;
    }
    let piece = sub_chars(v, start, v.len());
    let ghost before = acc@;
    match parse_u64(&piece) {
        Some(n) => {
            acc.push(n);
        },
        None => {},
    }
    assert(acc@ =~= before + piece_number(v@.subrange(start as int, v@.len() as int)));
    acc
}

/// The numeric core of `version`: its `.`-separated pieces that read as a `u64`.
pub fn parse_version_core(version: &str) -> (r: Vec<u64>)
    ensures
        r@ == version_core(version@),
{
    let v = to_chars(version);
    core_of_chars(&v)
}

/// Splits `version` into its numeric core, its pre-release and its build metadata.
pub fn parse_version_parts(version: &str) -> (r: (Vec<u64>, String, String))
    ensures
        r.0@ == version_parts(version@).0,
        r.1@ == version_parts(version@).1,
        r.2@ == version_parts(version@).2,
{
    let v = to_chars(version);
    let n = v.len();
    let d = find_char_from(&v, '-', 0);
    proof {
        lemma_index_of_from_bounds(v@, '-', 0);
    }
    if d == n {
        assert(before_char(v@, '-') =~= v@);
        let core = core_of_chars(&v);
        return (core, String::new(), String::new());
    }
    let head = sub_chars(&v, 0, d);
    assert(head@ =~= before_char(v@, '-'));
    let core = core_of_chars(&head);
    let rest = sub_chars(&v, d + 1, n);
    let ghost ext = after_char(v@, '-');
    assert(rest@ =~= ext);
    let p = find_char_from(&rest, '+', 0);
    proof {
        lemma_index_of_from_bounds(rest@, '+', 0);
    }
    let pre = String::from_str(version.substring_char(d + 1, d + 1 + p));
    assert(pre@ =~= before_char(ext, '+'));
    let build = if p < rest.len() {
        let b = String::from_str(version.substring_char(d + 2 + p, n));
        assert(b@ =~= after_char(ext, '+'));
        b
    } else {
        String::new()
    };
    assert(build@ =~= after_char(ext, '+'));
    (core, pre, build)
}

fn core_order_code(a: &Vec<u64>, b: &Vec<u64>) -> (r: i8)
    ensures
        r as int == core_order_from(a@, b@, 0),
{
    let mut i: usize = 0;
    while i < a.len() && i < b.len()
        invariant
            i <= a@.len(),
            core_order_from(a@, b@, 0) == core_order_from(a@, b@, i as nat),
        decreases a@.len() - i,
    {
        if a[i] < b[i] {
            return -1;
        } else if a[i] > b[i] {
            return 1;
        }
        i = i + 1;
    }
    0
}

fn text_order_code(a: &Vec<char>, b: &Vec<char>) -> (r: i8)
    ensures
        r as int == text_order(a@, b@),
{
    let mut i: usize = 0;
    while i < a.len() && i < b.len()
        invariant
            i <= a@.len(),
            i <= b@.len(),
            text_order(a@, b@) == text_order_from(a@, b@, i as nat),
        decreases a@.len() - i,
    {
        if a[i] < b[i] {
            return -1;
        } else if a[i] > b[i] {
            return 1;
        }
        i = i + 1;
    }
    if i < a.len() {
        1
    } else if i < b.len() {
        -1
    } else {
        0
    }
}

/// The order of two versions as -1, 0 or 1 (see `semver_order`).
pub fn semver_order_code(v1: &str, v2: &str) -> (r: i8)
    ensures
        r as int == semver_order(v1@, v2@),
{
    let (c1, p1, b1) = parse_version_parts(v1);
    let (c2, p2, b2) = parse_version_parts(v2);
    let c = core_order_code(&c1, &c2);
    if c != 0 {
        return c;
    }
    let p1c = to_chars(p1.as_str());
    let p2c = to_chars(p2.as_str());
    if p1c.len() == 0 && p2c.len() != 0 {
        return 1;
    }
    if p1c.len() != 0 && p2c.len() == 0 {
        return -1;
    }
    let t = text_order_code(&p1c, &p2c);
    if t != 0 {
        return t;
    }
    let b1c = to_chars(b1.as_str());
    let b2c = to_chars(b2.as_str());
    let u = text_order_code(&b1c, &b2c);
    if u != 0 {
        return u;
    }
    if c1.len() < c2.len() {
        -1
    } else if c1.len() == c2.len() {
        0
    } else {
        1
    }
}

/// Compares two version strings: first the common part of their numeric cores,
/// then their pre-release parts (a version without one is greater), then their
/// build metadata, then the length of their cores.
pub fn semver_compare(v1: &str, v2: &str) -> (r: Ordering)
    ensures
        r == ordering_of(semver_order(v1@, v2@)),
{
    let c = semver_order_code(v1, v2);
    if c < 0 {
        Ordering::Less
    } else if c == 0 {
        Ordering::Equal
    } else {
        Ordering::Greater
    }
}


/// The pattern of a strict version key: three `.`-separated numbers without leading zeros,
/// and nothing else.
pub const STRICT_SEMVER_PATTERN: &'static str = r"^(0|[1-9]\d*)\.(0|[1-9]\d*)\.(0|[1-9]\d*)$";

/// Whether `s` is a strict version key: `STRICT_SEMVER_PATTERN` matches it.
pub open spec fn is_strict_semver(s: Seq<char>) -> bool {
    regex_compiles(STRICT_SEMVER_PATTERN@) && regex_finds(STRICT_SEMVER_PATTERN@, s)
}

/// Whether `input` is a strict version key (no pre-release, no build metadata).
pub fn is_semver(input: &str) -> (r: bool)
    ensures
        r == is_strict_semver(input@),
{
    match regex_is_match(STRICT_SEMVER_PATTERN, input) {
        Some(b) => b,
        None => false,
    }
}

/// A version used as the key of a table of versions, ordered by `semver_compare`.
pub struct SemVerKey(pub String);

impl SemVerKey {
    /// Compares two keys as versions.
    pub fn compare(&self, other: &SemVerKey) -> (r: Ordering)
        ensures
            r == ordering_of(semver_order(self.0@, other.0@)),
    {
        semver_compare(self.0.as_str(), other.0.as_str())
    }

    /// A copy of the key.
    pub fn duplicate(&self) -> (r: SemVerKey)
        ensures
            r.0@ == self.0@,
    {
        SemVerKey(self.0.clone())
    }
}

proof fn lemma_core_order_reflexive(a: Seq<u64>, i: nat)
    ensures
        core_order_from(a, a, i) == 0,
    decreases a.len() - i,
{
    if i < a.len() {
        lemma_core_order_reflexive(a, i + 1);
    }
}

proof fn lemma_core_order_antisymmetric(a: Seq<u64>, b: Seq<u64>, i: nat)
    ensures
        core_order_from(a, b, i) == -core_order_from(b, a, i),
    decreases a.len() - i,
{
    if i < a.len() && i < b.len() {
        lemma_core_order_antisymmetric(a, b, i + 1);
    }
}

proof fn lemma_core_order_zero(a: Seq<u64>, b: Seq<u64>, i: nat)
    requires
        a.len() == b.len(),
        core_order_from(a, b, i) == 0,
    ensures
        forall|j: int| i <= j < a.len() ==> a[j] == b[j],
    decreases a.len() - i,
{
    if i < a.len() {
        lemma_core_order_zero(a, b, i + 1);
    }
}

proof fn lemma_core_order_transitive(a: Seq<u64>, b: Seq<u64>, c: Seq<u64>, i: nat)
    requires
        a.len() == b.len() == c.len(),
    ensures
        core_order_from(a, b, i) <= 0 && core_order_from(b, c, i) <= 0 ==> core_order_from(a, c, i) <= 0,
        core_order_from(a, b, i) < 0 && core_order_from(b, c, i) < 0 ==> core_order_from(a, c, i) < 0,
    decreases a.len() - i,
{
    if i < a.len() {
        lemma_core_order_transitive(a, b, c, i + 1);
    }
}

proof fn lemma_text_order_reflexive(a: Seq<char>, i: nat)
    ensures
        text_order_from(a, a, i) == 0,
    decreases a.len() - i,
{
    if i < a.len() {
        lemma_text_order_reflexive(a, i + 1);
    }
}

proof fn lemma_text_order_antisymmetric(a: Seq<char>, b: Seq<char>, i: nat)
    ensures
        text_order_from(a, b, i) == -text_order_from(b, a, i),
    decreases a.len() - i,
{
    if i < a.len() && i < b.len() {
        lemma_text_order_antisymmetric(a, b, i + 1);
    }
}

proof fn lemma_text_order_zero(a: Seq<char>, b: Seq<char>, i: nat)
    requires
        text_order_from(a, b, i) == 0,
        i <= a.len(),
        i <= b.len(),
    ensures
        a.len() == b.len(),
        forall|j: int| i <= j < a.len() ==> a[j] == b[j],
    decreases a.len() - i,
{
    if i < a.len() {
        assert(i < b.len());
        lemma_text_order_zero(a, b, i + 1);
        assert((a[i as int] as int) == (b[i as int] as int));
    } else {
        assert(i >= b.len());
    }
}

proof fn lemma_text_order_transitive(a: Seq<char>, b: Seq<char>, c: Seq<char>, i: nat)
    ensures
        text_order_from(a, b, i) <= 0 && text_order_from(b, c, i) <= 0 ==> text_order_from(a, c, i) <= 0,
        text_order_from(a, b, i) < 0 && text_order_from(b, c, i) < 0 ==> text_order_from(a, c, i) < 0,
    decreases a.len() + b.len() + c.len() - 3 * i,
{
    if i < a.len() && i < b.len() && i < c.len() {
        lemma_text_order_transitive(a, b, c, i + 1);
    }
}

proof fn lemma_text_order_eq(a: Seq<char>, b: Seq<char>)
    requires
        text_order(a, b) == 0,
    ensures
        a == b,
{
    lemma_text_order_zero(a, b, 0);
    assert(a =~= b);
}

/// Every version compares equal to itself.
pub proof fn lemma_semver_order_reflexive(v: Seq<char>)
    ensures
        semver_order(v, v) == 0,
{
    let (c, p, b) = version_parts(v);
    lemma_core_order_reflexive(c, 0);
    lemma_text_order_reflexive(p, 0);
    lemma_text_order_reflexive(b, 0);
}

/// Swapping the two versions reverses the outcome of the comparison.
pub proof fn lemma_semver_order_antisymmetric(v1: Seq<char>, v2: Seq<char>)
    ensures
        semver_order(v1, v2) == -semver_order(v2, v1),
{
    let (c1, p1, b1) = version_parts(v1);
    let (c2, p2, b2) = version_parts(v2);
    lemma_core_order_antisymmetric(c1, c2, 0);
    lemma_text_order_antisymmetric(p1, p2, 0);
    lemma_text_order_antisymmetric(b1, b2, 0);
}

/// Among versions whose numeric cores have the same number of parts, the order is
/// transitive, and strictly so when one of the two steps is strict.
pub proof fn lemma_semver_order_transitive(v1: Seq<char>, v2: Seq<char>, v3: Seq<char>)
    requires
        version_parts(v1).0.len() == version_parts(v2).0.len(),
        version_parts(v2).0.len() == version_parts(v3).0.len(),
        semver_order(v1, v2) <= 0,
        semver_order(v2, v3) <= 0,
    ensures
        semver_order(v1, v3) <= 0,
        semver_order(v1, v2) < 0 || semver_order(v2, v3) < 0 ==> semver_order(v1, v3) < 0,
{
    let (c1, p1, b1) = version_parts(v1);
    let (c2, p2, b2) = version_parts(v2);
    let (c3, p3, b3) = version_parts(v3);
    lemma_core_order_transitive(c1, c2, c3, 0);
    lemma_text_order_transitive(p1, p2, p3, 0);
    lemma_text_order_transitive(b1, b2, b3, 0);
    if core_order_from(c1, c2, 0) == 0 {
        lemma_core_order_zero(c1, c2, 0);
        assert(c1 =~= c2);
    }
    if core_order_from(c2, c3, 0) == 0 {
        lemma_core_order_zero(c2, c3, 0);
        assert(c2 =~= c3);
    }
    if text_order(p1, p2) == 0 {
        lemma_text_order_eq(p1, p2);
    }
    if text_order(p2, p3) == 0 {
        lemma_text_order_eq(p2, p3);
    }
    if text_order(b1, b2) == 0 {
        lemma_text_order_eq(b1, b2);
    }
    if text_order(b2, b3) == 0 {
        lemma_text_order_eq(b2, b3);
    }
}

/// Versions that compare equal have the same numeric core, pre-release and build text.
pub proof fn lemma_semver_order_equal(v1: Seq<char>, v2: Seq<char>)
    requires
        semver_order(v1, v2) == 0,
    ensures
        version_parts(v1) == version_parts(v2),
{
    let (c1, p1, b1) = version_parts(v1);
    let (c2, p2, b2) = version_parts(v2);
    assert(c1.len() == c2.len());
    lemma_core_order_zero(c1, c2, 0);
    assert(c1 =~= c2);
    lemma_text_order_eq(p1, p2);
    lemma_text_order_eq(b1, b2);
}

/// Among versions whose numeric cores have the same length, the order is a total
/// preorder: any two compare one way or the other, and it is transitive.
pub proof fn lemma_semver_order_total_preorder(v1: Seq<char>, v2: Seq<char>, v3: Seq<char>)
    requires
        version_parts(v1).0.len() == version_parts(v2).0.len(),
        version_parts(v2).0.len() == version_parts(v3).0.len(),
    ensures
        semver_order(v1, v2) <= 0 || semver_order(v2, v1) <= 0,
        semver_order(v1, v2) <= 0 && semver_order(v2, v3) <= 0 ==> semver_order(v1, v3) <= 0,
{
    lemma_semver_order_antisymmetric(v1, v2);
    if semver_order(v1, v2) <= 0 && semver_order(v2, v3) <= 0 {
        lemma_semver_order_transitive(v1, v2, v3);
    }
}

/// A number as a strict version writes it: decimal digits without a leading zero
/// (`0` itself aside), whose value fits in a `u64`.
pub open spec fn numeral(x: Seq<char>) -> bool {
    &&& x.len() > 0
    &&& all_ascii_digits(x)
    &&& (x.len() == 1 || x[0] != '0')
    &&& decimal_value(x) <= u64::MAX
}

/// Whether `s` splits at the dots `i` and `j` into three numerals.
pub open spec fn version_split(s: Seq<char>, i: int, j: int) -> bool {
    &&& 0 < i < j < s.len()
    &&& s[i] == '.'
    &&& s[j] == '.'
    &&& numeral(s.subrange(0, i))
    &&& numeral(s.subrange(i + 1, j))
    &&& numeral(s.subrange(j + 1, s.len() as int))
}

/// A strict version: three numerals separated by dots, as `STRICT_SEMVER_PATTERN` asks,
/// each of which reads as a `u64`.
pub open spec fn strict_version(s: Seq<char>) -> bool {
    exists|i: int, j: int| version_split(s, i, j)
}

/// Two numerals that write the same number are the same text.
proof fn lemma_numeral_injective(x: Seq<char>, y: Seq<char>)
    requires
        x.len() > 0,
        y.len() > 0,
        all_ascii_digits(x),
        all_ascii_digits(y),
        x.len() == 1 || x[0] != '0',
        y.len() == 1 || y[0] != '0',
        decimal_value(x) == decimal_value(y),
    ensures
        x == y,
    decreases x.len() + y.len(),
{
    let (xp, yp) = (x.drop_last(), y.drop_last());
    if x.len() >= 2 {
        lemma_decimal_value_prefix_le(xp, 1);
        assert(xp.take(1).drop_last() =~= Seq::<char>::empty());
        assert(xp.take(1).last() == x[0]);
        assert(decimal_value(xp) >= 1);
    }
    if y.len() >= 2 {
        lemma_decimal_value_prefix_le(yp, 1);
        assert(yp.take(1).drop_last() =~= Seq::<char>::empty());
        assert(yp.take(1).last() == y[0]);
        assert(decimal_value(yp) >= 1);
    }
    assert(all_ascii_digits(xp));
    assert(all_ascii_digits(yp));
    assert(x.last() == x[x.len() - 1]);
    assert(y.last() == y[y.len() - 1]);
    assert(digit_value(x.last()) < 10);
    assert(digit_value(y.last()) < 10);
    if x.len() == 1 && y.len() == 1 {
        assert(decimal_value(xp) == 0 && decimal_value(yp) == 0);
        assert(x.last() == y.last());
        assert(x =~= y);
    } else if x.len() == 1 {
        assert(decimal_value(xp) == 0);
    } else if y.len() == 1 {
        assert(decimal_value(yp) == 0);
    } else {
        assert(decimal_value(xp) == decimal_value(yp));
        assert(x.last() == y.last());
        lemma_numeral_injective(xp, yp);
        assert(x =~= xp.push(x.last()));
        assert(y =~= yp.push(y.last()));
    }
}

/// Scanning over a stretch without dots changes nothing.
proof fn lemma_scan_skips(s: Seq<char>, i: nat, k: nat, start: nat)
    requires
        i <= k <= s.len(),
        forall|m: int| i <= m < k ==> s[m] != '.',
    ensures
        core_scan(s, i, start) == core_scan(s, k, start),
    decreases k - i,
{
    if i < k {
        lemma_scan_skips(s, i + 1, k, start);
    }
}

/// A numeral contributes its value to a version's core.
proof fn lemma_numeral_piece(x: Seq<char>)
    requires
        numeral(x),
    ensures
        piece_number(x) == seq![decimal_value(x) as u64],
        forall|m: int| 0 <= m < x.len() ==> x[m] != '.' && x[m] != '-',
{
    assert(x[0] != '+');
    assert forall|m: int| 0 <= m < x.len() implies x[m] != '.' && x[m] != '-' by {
        assert(crate::chars::is_ascii_digit(x[m]));
    }
}

/// The parts of a strict version: its three numbers, and no pre-release or build text.
proof fn lemma_strict_version_parts(s: Seq<char>, i: int, j: int)
    requires
        version_split(s, i, j),
    ensures
        version_parts(s) == (
            seq![
                decimal_value(s.subrange(0, i)) as u64,
                decimal_value(s.subrange(i + 1, j)) as u64,
                decimal_value(s.subrange(j + 1, s.len() as int)) as u64,
            ],
            Seq::<char>::empty(),
            Seq::<char>::empty(),
        ),
{
    let (x, y, z) = (s.subrange(0, i), s.subrange(i + 1, j), s.subrange(j + 1, s.len() as int));
    lemma_numeral_piece(x);
    lemma_numeral_piece(y);
    lemma_numeral_piece(z);
    assert forall|m: int| 0 <= m < i implies s[m] != '.' && s[m] != '-' by {
        assert(s[m] == x[m]);
    }
    assert forall|m: int| i + 1 <= m < j implies s[m] != '.' && s[m] != '-' by {
        assert(s[m] == y[m - i - 1]);
    }
    assert forall|m: int| j + 1 <= m < s.len() implies s[m] != '.' && s[m] != '-' by {
        assert(s[m] == z[m - j - 1]);
    }
    lemma_scan_skips(s, 0, i as nat, 0);
    lemma_scan_skips(s, (i + 1) as nat, j as nat, (i + 1) as nat);
    lemma_scan_skips(s, (j + 1) as nat, s.len(), (j + 1) as nat);
    assert(version_core(s) =~= seq![
        decimal_value(x) as u64,
        decimal_value(y) as u64,
        decimal_value(z) as u64,
    ]);
    lemma_index_of_from_bounds(s, '-', 0);
    assert(index_of(s, '-') == s.len());
}

/// Among strict versions (three numerals separated by dots, each a `u64`), the version
/// order is a total order consistent with the text: two versions compare equal exactly
/// when they are the same text; any two compare one way or the other; and the order is
/// transitive.
pub proof fn lemma_strict_versions_total_order(a: Seq<char>, b: Seq<char>, c: Seq<char>)
    requires
        strict_version(a),
        strict_version(b),
        strict_version(c),
    ensures
        (semver_order(a, b) == 0) == (a == b),
        semver_order(a, b) <= 0 || semver_order(b, a) <= 0,
        semver_order(a, b) <= 0 && semver_order(b, c) <= 0 ==> semver_order(a, c) <= 0,
{
    let (ai, aj) = choose|i: int, j: int| version_split(a, i, j);
    let (bi, bj) = choose|i: int, j: int| version_split(b, i, j);
    let (ci, cj) = choose|i: int, j: int| version_split(c, i, j);
    lemma_strict_version_parts(a, ai, aj);
    lemma_strict_version_parts(b, bi, bj);
    lemma_strict_version_parts(c, ci, cj);
    lemma_semver_order_total_preorder(a, b, c);
    if a == b {
        lemma_semver_order_reflexive(a);
    }
    if semver_order(a, b) == 0 {
        lemma_semver_order_equal(a, b);
        let (ca, cb) = (version_parts(a).0, version_parts(b).0);
        assert(ca[0] == cb[0] && ca[1] == cb[1] && ca[2] == cb[2]);
        let (ax, ay, az) = (a.subrange(0, ai), a.subrange(ai + 1, aj), a.subrange(aj + 1, a.len() as int));
        let (bx, by, bz) = (b.subrange(0, bi), b.subrange(bi + 1, bj), b.subrange(bj + 1, b.len() as int));
        lemma_numeral_injective(ax, bx);
        lemma_numeral_injective(ay, by);
        lemma_numeral_injective(az, bz);
        assert(a =~= ax + seq!['.'] + ay + seq!['.'] + az);
        assert(b =~= bx + seq!['.'] + by + seq!['.'] + bz);
    }
}

} // verus!
