//! Character-level helpers: turning strings into sequences of characters,
//! locating characters, and reading decimal numbers the way `str::parse::<u64>` does.

use vstd::prelude::*;

verus! {

/// Index of the first occurrence of `c` in `s` at or after `i`, or `s.len()` when there is none.
pub open spec fn index_of_from(s: Seq<char>, c: char, i: nat) -> nat
    decreases s.len() - i,
{
    if i >= s.len() {
        s.len()
    } else if s[i as int] == c {
        i
    } else {
        index_of_from(s, c, i + 1)
    }
}

/// Index of the first occurrence of `c` in `s`, or `s.len()` when there is none.
pub open spec fn index_of(s: Seq<char>, c: char) -> nat {
    index_of_from(s, c, 0)
}

pub proof fn lemma_index_of_from_bounds(s: Seq<char>, c: char, i: nat)
    requires
        i <= s.len(),
    ensures
        i <= index_of_from(s, c, i) <= s.len(),
        index_of_from(s, c, i) < s.len() ==> s[index_of_from(s, c, i) as int] == c,
        forall|j: int| i <= j < index_of_from(s, c, i) ==> s[j] != c,
    decreases s.len() - i,
{
    if i < s.len() && s[i as int] != c {
        lemma_index_of_from_bounds(s, c, i + 1);
    }
}

pub open spec fn is_ascii_digit(c: char) -> bool {
    '0' <= c && c <= '9'
}

pub open spec fn digit_value(c: char) -> nat {
    (c as nat - '0' as nat) as nat
}

pub open spec fn all_ascii_digits(s: Seq<char>) -> bool {
    forall|i: int| 0 <= i < s.len() ==> is_ascii_digit(#[trigger] s[i])
}

/// The number written by the decimal digits `s`.
pub open spec fn decimal_value(s: Seq<char>) -> nat
    decreases s.len(),
{
    if s.len() == 0 {
        0
    } else {
        decimal_value(s.drop_last()) * 10 + digit_value(s.last())
    }
}

/// What `str::parse::<u64>` gives back: an optional `+`, then at least one ASCII digit,
/// and a value that fits in a `u64`.
pub open spec fn parse_u64_spec(s: Seq<char>) -> Option<u64> {
    let d = if s.len() > 0 && s[0] == '+' {
        s.drop_first()
    } else {
        s
    };
    if d.len() == 0 || !all_ascii_digits(d) {
        None
    } else if decimal_value(d) <= u64::MAX {
        Some(decimal_value(d) as u64)
    } else {
        None
    }
}

/// The number written by a prefix of some digits is at most the number they write.
pub proof fn lemma_decimal_value_prefix_le(s: Seq<char>, k: int)
    requires
        0 <= k <= s.len(),
        all_ascii_digits(s),
    ensures
        decimal_value(s.take(k)) <= decimal_value(s),
    decreases s.len(),
{
    if k < s.len() {
        assert(s.drop_last().take(k) =~= s.take(k));
        lemma_decimal_value_prefix_le(s.drop_last(), k);
    } else {
        assert(s.take(k) =~= s);
    }
}

/// The characters of `s`, one by one.
pub fn to_chars(s: &str) -> (r: Vec<char>)
    ensures
        r@ == s@,
{
    let n = s.unicode_len();
    let mut r: Vec<char> = Vec::new();
    let mut i: usize = 0;
    while i < n
        invariant
            n == s@.len(),
            i <= n,
            r@ == s@.take(i as int),
        decreases n - i,
    {
        let c = s.get_char(i);
        r.push(c);
        i = i + 1;
        assert(r@ =~= s@.take(i as int));
    }
    assert(r@ =~= s@);
    r
}

/// The characters of `v` from `lo` up to `hi`.
pub fn sub_chars(v: &Vec<char>, lo: usize, hi: usize) -> (r: Vec<char>)
    requires
        lo <= hi <= v@.len(),
    ensures
        r@ == v@.subrange(lo as int, hi as int),
{
    let mut r: Vec<char> = Vec::new();
    let mut i: usize = lo;
    while i < hi
        invariant
            lo <= i <= hi <= v@.len(),
            r@ == v@.subrange(lo as int, i as int),
        decreases hi - i,
    {
        r.push(v[i]);
        i = i + 1;
        assert(r@ =~= v@.subrange(lo as int, i as int));
    }
    r
}

/// Index of the first `c` in `v` at or after `from`, or `v.len()` when there is none.
pub fn find_char_from(v: &Vec<char>, c: char, from: usize) -> (r: usize)
    requires
        from <= v@.len(),
    ensures
        r == index_of_from(v@, c, from as nat),
        from <= r <= v@.len(),
{
    let mut i = from;
    proof {
        lemma_index_of_from_bounds(v@, c, from as nat);
    }
    while i < v.len() && v[i] != c
        invariant
            from <= i <= v@.len(),
            index_of_from(v@, c, from as nat) == index_of_from(v@, c, i as nat),
        decreases v@.len() - i,
    {
        i = i + 1;
    }
    i
}

/// Reads `v` as `str::parse::<u64>` would.
pub fn parse_u64(v: &Vec<char>) -> (r: Option<u64>)
    ensures
        r == parse_u64_spec(v@),
{
    let mut start: usize = 0;
    if v.len() > 0 && v[0] == '+' {
        start = 1;
    }
    let ghost d = if v@.len() > 0 && v@[0] == '+' {
        v@.drop_first()
    } else {
        v@
    };
    assert(d =~= v@.subrange(start as int, v@.len() as int));
    if start == v.len() {
        return None;
    }
    let mut i = start;
    while i < v.len()
        invariant
            start <= i <= v@.len(),
            d == v@.subrange(start as int, v@.len() as int),
            d == (if v@.len() > 0 && v@[0] == '+' { v@.drop_first() } else { v@ }),
            forall|j: int| start <= j < i ==> is_ascii_digit(#[trigger] v@[j]),
        decreases v@.len() - i,
    {
        if !('0' <= v[i] && v[i] <= '9') {
            assert(d[i - start] == v@[i as int]);
            assert(!is_ascii_digit(d[i - start]));
            return None;
        }
        i = i + 1;
    }
    assert(all_ascii_digits(d));
    let mut acc: u64 = 0;
    let mut k = start;
    while k < v.len()
        invariant
            start <= k <= v@.len(),
            d == v@.subrange(start as int, v@.len() as int),
            d == (if v@.len() > 0 && v@[0] == '+' { v@.drop_first() } else { v@ }),
            all_ascii_digits(d),
            acc as nat == decimal_value(d.take(k - start)),
        decreases v@.len() - k,
    {
        let ch = v[k];
        assert(d[k - start] == ch);
        assert(is_ascii_digit(d[k - start]));
        let dv = (ch as u32 - '0' as u32) as u64;
        assert(dv as nat == digit_value(ch));
        assert(d.take(k + 1 - start).drop_last() =~= d.take(k - start));
        assert(d.take(k + 1 - start).last() == ch);
        match acc.checked_mul(10) {
            Some(m) => match m.checked_add(dv) {
                Some(a) => {
                    acc = a;
                },
                None => {
                    proof {
                        lemma_decimal_value_prefix_le(d, k + 1 - start);
                    }
                    return None;
                },
            },
            None => {
                proof {
                    lemma_decimal_value_prefix_le(d, k + 1 - start);
                }
                return None;
            },
        }
        k = k + 1;
    }
    assert(d.take(v@.len() - start) =~= d);
    Some(acc)
}

/// The text before the first `c` in `s` (all of `s` when there is none).
pub open spec fn before_char(s: Seq<char>, c: char) -> Seq<char> {
    s.take(index_of(s, c) as int)
}

/// The text after the first `c` in `s` (empty when there is none).
pub open spec fn after_char(s: Seq<char>, c: char) -> Seq<char> {
    if index_of(s, c) < s.len() {
        s.skip(index_of(s, c) + 1int)
    } else {
        Seq::empty()
    }
}


/// Which side of the delimiter `cut_line_at_char` keeps.
pub enum CutDirection {
    Before,
    After,
}

/// The part of `line` before (or after) the first `delimiter`; when there is no
/// delimiter, all of `line` before it and nothing after it.
pub fn cut_line_at_char<'a>(line: &'a str, delimiter: char, direction: CutDirection) -> (r: &'a str)
    ensures
        direction is Before ==> r@ == before_char(line@, delimiter),
        direction is After ==> r@ == after_char(line@, delimiter),
{
    let v = to_chars(line);
    let n = v.len();
    let i = find_char_from(&v, delimiter, 0);
    proof {
        lemma_index_of_from_bounds(v@, delimiter, 0);
    }
    match direction {
        CutDirection::After => {
            if i < n {
                line.substring_char(i + 1, n)
            } else {
                line.substring_char(n, n)
            }
        },
        CutDirection::Before => line.substring_char(0, i),
    }
}

/// Whether `s` begins with `p`.
pub open spec fn has_prefix(s: Seq<char>, p: Seq<char>) -> bool {
    p.len() <= s.len() && s.take(p.len() as int) == p
}

/// Whether `s` ends with `p`.
pub open spec fn has_suffix(s: Seq<char>, p: Seq<char>) -> bool {
    p.len() <= s.len() && s.skip(s.len() - p.len()) == p
}

/// Whether `m` occurs in `s` as a run of consecutive characters.
pub open spec fn has_infix(s: Seq<char>, m: Seq<char>) -> bool {
    exists|k: int| 0 <= k && k + m.len() <= s.len() && #[trigger] s.subrange(k, k + m.len()) == m
}

/// What occurs in a text still occurs in it once more text follows.
pub proof fn lemma_infix_grows()
    ensures
        forall|s: Seq<char>, t: Seq<char>, m: Seq<char>| has_infix(s, m) ==> #[trigger] has_infix(s + t, m),
{
    assert forall|s: Seq<char>, t: Seq<char>, m: Seq<char>| has_infix(s, m) implies #[trigger] has_infix(s + t, m) by {
        let k = choose|k: int| 0 <= k && k + m.len() <= s.len() && #[trigger] s.subrange(k, k + m.len()) == m;
        assert((s + t).subrange(k, k + m.len()) =~= s.subrange(k, k + m.len()));
    }
}

/// What begins a text still begins it once more text follows.
pub proof fn lemma_prefix_grows()
    ensures
        forall|s: Seq<char>, t: Seq<char>, m: Seq<char>| has_prefix(s, m) ==> #[trigger] has_prefix(s + t, m),
{
    assert forall|s: Seq<char>, t: Seq<char>, m: Seq<char>| has_prefix(s, m) implies #[trigger] has_prefix(s + t, m) by {
        assert((s + t).take(m.len() as int) =~= s.take(m.len() as int));
    }
}

/// A text split at the end of `x` and at the start of `z`: the end `x1` of `x`, then `v`,
/// then the start `z0` of `z`, occurs in `p + x + v + z`.
pub proof fn lemma_infix_across(x: Seq<char>, x1: Seq<char>, v: Seq<char>, z: Seq<char>, z0: Seq<char>)
    requires
        has_suffix(x, x1),
        has_prefix(z, z0),
    ensures
        forall|p: Seq<char>| #[trigger] has_infix(p + x + v + z, x1 + v + z0),
{
    assert forall|p: Seq<char>| #[trigger] has_infix(p + x + v + z, x1 + v + z0) by {
        let s = p + x + v + z;
        let m = x1 + v + z0;
        let k = p.len() + x.len() - x1.len();
        assert(s.subrange(k, k + m.len()) =~= m);
    }
}

/// The end `x1` of `x`, then the start `z0` of the text `z` that follows it, occurs in
/// `p + x + z`.
pub proof fn lemma_infix_join(x: Seq<char>, x1: Seq<char>, z: Seq<char>, z0: Seq<char>)
    requires
        has_suffix(x, x1),
        has_prefix(z, z0),
    ensures
        forall|p: Seq<char>| #[trigger] has_infix(p + x + z, x1 + z0),
{
    assert forall|p: Seq<char>| #[trigger] has_infix(p + x + z, x1 + z0) by {
        let s = p + x + z;
        let m = x1 + z0;
        let k = p.len() + x.len() - x1.len();
        assert(s.subrange(k, k + m.len()) =~= m);
    }
}

/// As `lemma_infix_across`, with a text `b` between the end of `x` and `v`.
pub proof fn lemma_infix_across_two(x: Seq<char>, x1: Seq<char>, b: Seq<char>, v: Seq<char>, z: Seq<char>, z0: Seq<char>)
    requires
        has_suffix(x, x1),
        has_prefix(z, z0),
    ensures
        forall|p: Seq<char>| #[trigger] has_infix(p + x + b + v + z, x1 + b + v + z0),
{
    assert forall|p: Seq<char>| #[trigger] has_infix(p + x + b + v + z, x1 + b + v + z0) by {
        let s = p + x + b + v + z;
        let m = x1 + b + v + z0;
        let k = p.len() + x.len() - x1.len();
        assert(s.subrange(k, k + m.len()) =~= m);
    }
}

/// As `lemma_infix_across`, with two texts `b` and `y` between the end of `x` and `v`.
pub proof fn lemma_infix_across_named(
    x: Seq<char>,
    x1: Seq<char>,
    b: Seq<char>,
    y: Seq<char>,
    v: Seq<char>,
    z: Seq<char>,
    z0: Seq<char>,
)
    requires
        has_suffix(x, x1),
        has_prefix(z, z0),
    ensures
        forall|p: Seq<char>| #[trigger] has_infix(p + x + b + y + v + z, x1 + b + y + v + z0),
{
    assert forall|p: Seq<char>| #[trigger] has_infix(p + x + b + y + v + z, x1 + b + y + v + z0) by {
        let s = p + x + b + y + v + z;
        let m = x1 + b + y + v + z0;
        let k = p.len() + x.len() - x1.len();
        assert(s.subrange(k, k + m.len()) =~= m);
    }
}

/// Whether `s` begins with `p` (`str::starts_with`).
pub fn starts_with_text(s: &str, p: &str) -> (r: bool)
    ensures
        r == has_prefix(s@, p@),
{
    let a = to_chars(s);
    let b = to_chars(p);
    if b.len() > a.len() {
        return false;
    }
    let mut i: usize = 0;
    while i < b.len()
        invariant
            a@ == s@,
            b@ == p@,
            b@.len() <= a@.len(),
            i <= b@.len(),
            forall|j: int| 0 <= j < i ==> a@[j] == b@[j],
        decreases b@.len() - i,
    {
        if a[i] != b[i] {
            assert(a@.take(b@.len() as int)[i as int] != b@[i as int]);
            return false;
        }
        i = i + 1;
    }
    assert(a@.take(b@.len() as int) =~= b@);
    true
}

/// Whether two texts are the same.
pub fn same_text(s: &str, t: &str) -> (r: bool)
    ensures
        r == (s@ == t@),
{
    let a = String::from_str(s);
    let b = String::from_str(t);
    a == b
}

/// How many copies of `c` begin `s`.
pub open spec fn leading_run(s: Seq<char>, c: char) -> nat
    decreases s.len(),
{
    if s.len() > 0 && s[0] == c {
        1 + leading_run(s.drop_first(), c)
    } else {
        0
    }
}

/// How many copies of `c` end `s`.
pub open spec fn trailing_run(s: Seq<char>, c: char) -> nat
    decreases s.len(),
{
    if s.len() > 0 && s.last() == c {
        1 + trailing_run(s.drop_last(), c)
    } else {
        0
    }
}

proof fn lemma_leading_run(s: Seq<char>, c: char, i: int)
    requires
        0 <= i <= s.len(),
        forall|j: int| 0 <= j < i ==> s[j] == c,
        i == s.len() || s[i] != c,
    ensures
        leading_run(s, c) == i,
    decreases s.len(),
{
    if i > 0 {
        lemma_leading_run(s.drop_first(), c, i - 1);
    }
}

proof fn lemma_trailing_run(s: Seq<char>, c: char, i: int)
    requires
        0 <= i <= s.len(),
        forall|j: int| s.len() - i <= j < s.len() ==> s[j] == c,
        i == s.len() || s[s.len() - i - 1] != c,
    ensures
        trailing_run(s, c) == i,
    decreases s.len(),
{
    if i > 0 {
        lemma_trailing_run(s.drop_last(), c, i - 1);
    }
}

/// `s` without the copies of `c` that begin it (`str::trim_start_matches`).
pub open spec fn trim_start(s: Seq<char>, c: char) -> Seq<char> {
    s.skip(leading_run(s, c) as int)
}

/// `s` without the copies of `c` that begin or end it (`str::trim_matches`).
pub open spec fn trim_both(s: Seq<char>, c: char) -> Seq<char> {
    let t = trim_start(s, c);
    t.take(t.len() - trailing_run(t, c))
}

/// `s` without the copies of `c` that begin it.
pub fn trim_start_char(s: &str, c: char) -> (r: String)
    ensures
        r@ == trim_start(s@, c),
{
    let v = to_chars(s);
    let n = v.len();
    let mut i: usize = 0;
    while i < n && v[i] == c
        invariant
            n == v@.len(),
            i <= n,
            forall|j: int| 0 <= j < i ==> v@[j] == c,
        decreases n - i,
    {
        i = i + 1;
    }
    proof {
        lemma_leading_run(v@, c, i as int);
    }
    String::from_str(s.substring_char(i, n))
}

/// `s` without the copies of `c` that begin or end it.
pub fn trim_char(s: &str, c: char) -> (r: String)
    ensures
        r@ == trim_both(s@, c),
{
    let t = trim_start_char(s, c);
    let v = to_chars(t.as_str());
    let n = v.len();
    let mut k: usize = 0;
    while k < n && v[n - 1 - k] == c
        invariant
            n == v@.len(),
            k <= n,
            forall|j: int| n - k <= j < n ==> v@[j] == c,
        decreases n - k,
    {
        k = k + 1;
    }
    proof {
        lemma_trailing_run(v@, c, k as int);
    }
    String::from_str(t.as_str().substring_char(0, n - k))
}


/// `base` with `p` appended as `PathBuf::push` does on Unix: an absolute `p` replaces
/// `base`; otherwise a `/` separates them unless `base` is empty or already ends with one.
pub open spec fn path_join(base: Seq<char>, p: Seq<char>) -> Seq<char> {
    if p.len() > 0 && p[0] == '/' {
        p
    } else if base.len() == 0 || base.last() == '/' {
        base + p
    } else {
        base + seq!['/'] + p
    }
}

/// `base` with `p` appended as a path component.
pub fn path_push(base: &str, p: &str) -> (r: String)
    ensures
        r@ == path_join(base@, p@),
{
    let pv = to_chars(p);
    if pv.len() > 0 && pv[0] == '/' {
        return String::from_str(p);
    }
    let bv = to_chars(base);
    let mut r = String::from_str(base);
    if bv.len() > 0 && bv[bv.len() - 1] != '/' {
        r.append("/");
        proof {
            reveal_strlit("/");
        }
    }
    r.append(p);
    proof {
        if bv.len() > 0 {
            assert(bv@.last() == bv@[bv@.len() - 1]);
        }
    }
    r
}


/// An optional text, as text.
pub open spec fn opt_text(o: Option<String>) -> Option<Seq<char>> {
    match o {
        Some(s) => Some(s@),
        None => None,
    }
}


/// The digit character for a number below ten.
pub open spec fn digit_char(d: nat) -> char {
    if d == 0 { '0' }
    else if d == 1 { '1' }
    else if d == 2 { '2' }
    else if d == 3 { '3' }
    else if d == 4 { '4' }
    else if d == 5 { '5' }
    else if d == 6 { '6' }
    else if d == 7 { '7' }
    else if d == 8 { '8' }
    else { '9' }
}

/// `n` written in decimal, without leading zeros.
pub open spec fn decimal_text(n: nat) -> Seq<char>
    decreases n,
{
    if n < 10 {
        seq![digit_char(n)]
    } else {
        decimal_text(n / 10).push(digit_char(n % 10))
    }
}

fn digit_str(d: usize) -> (r: &'static str)
    requires
        d < 10,
    ensures
        r@ == seq![digit_char(d as nat)],
{
    proof {
        reveal_strlit("0");
        reveal_strlit("1");
        reveal_strlit("2");
        reveal_strlit("3");
        reveal_strlit("4");
        reveal_strlit("5");
        reveal_strlit("6");
        reveal_strlit("7");
        reveal_strlit("8");
        reveal_strlit("9");
    }
    let r = if d == 0 { "0" }
    else if d == 1 { "1" }
    else if d == 2 { "2" }
    else if d == 3 { "3" }
    else if d == 4 { "4" }
    else if d == 5 { "5" }
    else if d == 6 { "6" }
    else if d == 7 { "7" }
    else if d == 8 { "8" }
    else { "9" };
    assert(r@ =~= seq![digit_char(d as nat)]);
    r
}

/// `n` written in decimal.
pub fn usize_text(n: usize) -> (r: String)
    ensures
        r@ == decimal_text(n as nat),
    decreases n,
{
    if n < 10 {
        String::from_str(digit_str(n))
    } else {
        let mut s = usize_text(n / 10);
        s.append(digit_str(n % 10));
        assert(s@ =~= decimal_text(n as nat));
        s
    }
}

/// `s` with every `-` replaced by `_`.
pub open spec fn dashes_to_underscores(s: Seq<char>) -> Seq<char> {
    s.map_values(|c: char| if c == '-' { '_' } else { c })
}

/// `s` with every `-` replaced by `_` (`str::replace("-", "_")`).
pub fn replace_dashes(s: &str) -> (r: String)
    ensures
        r@ == dashes_to_underscores(s@),
{
    let n = s.unicode_len();
    let mut r = String::new();
    let mut i: usize = 0;
    while i < n
        invariant
            n == s@.len(),
            i <= n,
            r@ == dashes_to_underscores(s@).take(i as int),
        decreases n - i,
    {
        let ghost before = r@;
        if s.get_char(i) == '-' {
            proof {
                reveal_strlit("_");
            }
            r.append("_");
            assert(r@ =~= before.push('_'));
        } else {
            let piece = s.substring_char(i, i + 1);
            assert(piece@ =~= seq![s@[i as int]]);
            r.append(piece);
            assert(r@ =~= before.push(s@[i as int]));
        }
        assert(r@ =~= dashes_to_underscores(s@).take(i + 1));
        i = i + 1;
    }
    assert(dashes_to_underscores(s@).take(n as int) =~= dashes_to_underscores(s@));
    r
}

} // verus!
