//! Reading a Makefile into its parts: expressions before and between rules,
//! rules with their ingredients, and the recipe lines of each rule.

use vstd::prelude::*;
use crate::chars::{after_char, before_char, cut_line_at_char, CutDirection, to_chars, usize_text, decimal_text};
use crate::trusted::{regex_compiles, regex_finds, regex_is_match};

verus! {

/// A line that declares a rule: `name: ingredients`.
pub const RULE_REGEX: &'static str = "^([[:graph:]^:]+:){1,1}([[:space:]]*[[:graph:]]*)*$";

/// A line that begins with a tab, as recipe lines do.
pub const RULELINE_REGEX: &'static str = "^\t";

/// A line that begins with spaces.
pub const RULEWARN_REGEX: &'static str = "^ +";

pub open spec fn finds(pattern: Seq<char>, s: Seq<char>) -> bool {
    regex_compiles(pattern) && regex_finds(pattern, s)
}

fn matches_pattern(pattern: &str, s: &str) -> (r: bool)
    ensures
        r == finds(pattern@, s@),
{
    match regex_is_match(pattern, s) {
        Some(b) => b,
        None => false,
    }
}

/// The characters that `char::is_whitespace` accepts: those with the Unicode
/// White_Space property.
pub open spec fn is_white(c: char) -> bool {
    ||| ('\u{9}' <= c && c <= '\u{d}')
    ||| c == ' '
    ||| c == '\u{85}'
    ||| c == '\u{a0}'
    ||| c == '\u{1680}'
    ||| ('\u{2000}' <= c && c <= '\u{200a}')
    ||| c == '\u{2028}'
    ||| c == '\u{2029}'
    ||| c == '\u{202f}'
    ||| c == '\u{205f}'
    ||| c == '\u{3000}'
}

fn is_white_exec(c: char) -> (r: bool)
    ensures
        r == is_white(c),
{
    ('\u{9}' <= c && c <= '\u{d}') || c == ' ' || c == '\u{85}' || c == '\u{a0}' || c == '\u{1680}'
        || ('\u{2000}' <= c && c <= '\u{200a}') || c == '\u{2028}' || c == '\u{2029}' || c
        == '\u{202f}' || c == '\u{205f}' || c == '\u{3000}'
}

/// The words of `s` from `i` on (`str::split_whitespace`): maximal runs of characters
/// that are not white; `start` is where the current word began, if one has.
pub open spec fn words_from(s: Seq<char>, i: nat, start: Option<nat>) -> Seq<Seq<char>>
    decreases s.len() - i,
{
    if i >= s.len() {
        match start {
            Some(st) => seq![s.subrange(st as int, s.len() as int)],
            None => Seq::empty(),
        }
    } else if is_white(s[i as int]) {
        match start {
            Some(st) => seq![s.subrange(st as int, i as int)] + words_from(s, i + 1, None),
            None => words_from(s, i + 1, None),
        }
    } else {
        match start {
            Some(st) => words_from(s, i + 1, start),
            None => words_from(s, i + 1, Some(i)),
        }
    }
}

pub open spec fn words(s: Seq<char>) -> Seq<Seq<char>> {
    words_from(s, 0, None)
}

/// The words of `s`.
pub fn split_words(s: &str) -> (r: Vec<String>)
    ensures
        r@.map_values(|w: String| w@) == words(s@),
{
    let v = to_chars(s);
    let n = v.len();
    let mut out: Vec<String> = Vec::new();
    let mut start: Option<usize> = None;
    let mut i: usize = 0;
    while i < n
        invariant
            n == v@.len(),
            v@ == s@,
            i <= n,
            start matches Some(st) ==> st < i,
            words(s@) == out@.map_values(|w: String| w@) + words_from(
                s@,
                i as nat,
                match start {
                    Some(st) => Some(st as nat),
                    None => None,
                },
            ),
        decreases n - i,
    {
        if is_white_exec(v[i]) {
            match start {
                Some(st) => {
                    let w = String::from_str(s.substring_char(st, i));
                    let ghost before = out@;
                    out.push(w);
                    assert(out@.map_values(|w: String| w@) =~= before.map_values(|w: String| w@).push(w@));
                    assert(before.map_values(|w: String| w@) + (seq![w@] + words_from(s@, (i + 1) as nat, None))
                        =~= out@.map_values(|w: String| w@) + words_from(s@, (i + 1) as nat, None));
                },
                None => {},
            }
            start = None;
        } else {
            match start {
                Some(_) => {},
                None => {
                    start = Some(i);
                },
            }
        }
        i = i + 1;
    }
    match start {
        Some(st) => {
            let w = String::from_str(s.substring_char(st, n));
            let ghost before = out@;
            out.push(w);
            assert(out@.map_values(|w: String| w@) =~= before.map_values(|w: String| w@).push(w@));
            assert(before.map_values(|w: String| w@) + seq![w@] =~= out@.map_values(|w: String| w@));
        },
        None => {
            assert(out@.map_values(|w: String| w@) + Seq::<Seq<char>>::empty() =~= out@.map_values(
                |w: String| w@,
            ));
        },
    }
    out
}


/// Where each part of a Makefile was met, in line order.
#[derive(Clone, Copy)]
pub enum LexEvent {
    /// The rule with this index in `MakefileLex::rules`.
    Rule(usize),
    /// The recipe line with this index in `MakefileLex::rule_exprs`.
    RuleExpr(usize),
    /// The expression with this index in `MakefileLex::main_exprs`.
    MainExpr(usize),
}

/// A rule: its name, the text of its ingredients, and the ingredients one by one.
pub struct MakeRule {
    pub name: String,
    pub ingredients_text: String,
    pub ingredients: Vec<String>,
}

/// A recipe line: the index of its rule, its number within the run of recipe lines it
/// belongs to, and its text after the tab.
pub struct RuleExpr {
    pub rule: usize,
    pub number: usize,
    pub text: String,
}

/// A Makefile read into its parts.
pub struct MakefileLex {
    /// Expressions outside recipes, in order.
    pub main_exprs: Vec<String>,
    /// Rules, in order.
    pub rules: Vec<MakeRule>,
    /// Recipe lines, in order.
    pub rule_exprs: Vec<RuleExpr>,
    /// The order in which the parts were met.
    pub events: Vec<LexEvent>,
    /// Lines after a rule that begin with spaces where a tab was meant, when reported.
    pub warns: usize,
}

/// The state of the reader between lines: the last rule name, the number for the next
/// recipe line, and the parts met so far.
#[verifier::ext_equal]
pub struct LexModel {
    pub last_rule: Seq<char>,
    pub rulexpr_i: nat,
    pub main_exprs: Seq<Seq<char>>,
    pub rules: Seq<(Seq<char>, Seq<char>, Seq<Seq<char>>)>,
    pub rule_exprs: Seq<(nat, nat, Seq<char>)>,
    pub events: Seq<LexEvent>,
    pub warns: nat,
}

pub open spec fn empty_model() -> LexModel {
    LexModel {
        last_rule: Seq::empty(),
        rulexpr_i: 0,
        main_exprs: Seq::empty(),
        rules: Seq::empty(),
        rule_exprs: Seq::empty(),
        events: Seq::empty(),
        warns: 0,
    }
}

/// Reads one complete line into the state; none where the reader gives up: a line that
/// begins with a tab before any named rule.
pub open spec fn lex_line(m: LexModel, line: Seq<char>, report_warns: bool) -> Option<LexModel> {
    let s = before_char(line, '#');
    if line.len() == 0 {
        Some(m)
    } else if finds(RULE_REGEX@, s) {
        let name = before_char(s, ':');
        let text = after_char(after_char(s, ':'), ' ');
        let ingredients = if text.len() == 0 {
            Seq::empty()
        } else {
            words(text)
        };
        Some(
            LexModel {
                last_rule: name,
                rulexpr_i: 0,
                rules: m.rules.push((name, text, ingredients)),
                events: m.events.push(LexEvent::Rule(m.rules.len() as usize)),
                ..m
            },
        )
    } else if m.last_rule.len() > 0 && finds(RULELINE_REGEX@, s) {
        let e = after_char(s, '\t');
        if e.len() == 0 {
            Some(m)
        } else {
            Some(
                LexModel {
                    rulexpr_i: m.rulexpr_i + 1,
                    rule_exprs: m.rule_exprs.push(((m.rules.len() - 1) as nat, m.rulexpr_i, e)),
                    events: m.events.push(LexEvent::RuleExpr(m.rule_exprs.len() as usize)),
                    ..m
                },
            )
        }
    } else if s.len() == 0 {
        Some(m)
    } else if m.last_rule.len() == 0 && finds(RULELINE_REGEX@, s) {
        None
    } else {
        Some(
            LexModel {
                rulexpr_i: 0,
                main_exprs: m.main_exprs.push(s),
                events: m.events.push(LexEvent::MainExpr(m.main_exprs.len() as usize)),
                warns: if m.last_rule.len() > 0 && report_warns && finds(RULEWARN_REGEX@, s) {
                    m.warns + 1
                } else {
                    m.warns
                },
                ..m
            },
        )
    }
}

/// Reads the raw lines from `i` on; `cur` is the line being put together and `cont` says
/// whether it ended with a backslash, which joins it to the next line without the backslash.
pub open spec fn lex_lines(
    lines: Seq<Seq<char>>,
    i: nat,
    cur: Seq<char>,
    cont: bool,
    m: LexModel,
    report_warns: bool,
) -> Option<LexModel>
    decreases lines.len() - i,
{
    if i >= lines.len() {
        Some(m)
    } else {
        let c2 = if cont {
            cur.drop_last() + lines[i as int]
        } else {
            lines[i as int]
        };
        if c2.len() > 0 && c2.last() == '\\' {
            lex_lines(lines, i + 1, c2, true, m, report_warns)
        } else {
            match lex_line(m, c2, report_warns) {
                None => None,
                Some(m2) => lex_lines(lines, i + 1, c2, false, m2, report_warns),
            }
        }
    }
}

pub open spec fn rule_view(r: MakeRule) -> (Seq<char>, Seq<char>, Seq<Seq<char>>) {
    (r.name@, r.ingredients_text@, r.ingredients@.map_values(|w: String| w@))
}

pub open spec fn rule_expr_view(e: RuleExpr) -> (nat, nat, Seq<char>) {
    (e.rule as nat, e.number as nat, e.text@)
}

/// The parts of a read Makefile, and the state it leaves.
pub open spec fn lex_view(x: MakefileLex, last_rule: Seq<char>, rulexpr_i: nat) -> LexModel {
    LexModel {
        last_rule,
        rulexpr_i,
        main_exprs: x.main_exprs@.map_values(|w: String| w@),
        rules: x.rules@.map_values(|r: MakeRule| rule_view(r)),
        rule_exprs: x.rule_exprs@.map_values(|e: RuleExpr| rule_expr_view(e)),
        events: x.events@,
        warns: x.warns as nat,
    }
}

/// The counts stay within `k`.
pub open spec fn within(x: MakefileLex, rulexpr_i: nat, k: nat) -> bool {
    &&& x.main_exprs@.len() <= k
    &&& x.rules@.len() <= k
    &&& x.rule_exprs@.len() <= k
    &&& x.events@.len() <= k
    &&& x.warns <= k
    &&& rulexpr_i <= k
}

fn lex_line_exec(
    x: &mut MakefileLex,
    last_rule: &mut String,
    rulexpr_i: &mut usize,
    line: &str,
    report_warns: bool,
    Ghost(k): Ghost<nat>,
) -> (ok: bool)
    requires
        within(*old(x), *old(rulexpr_i) as nat, k),
        k < usize::MAX,
        old(last_rule)@.len() > 0 ==> old(x).rules@.len() > 0,
    ensures
        match lex_line(lex_view(*old(x), old(last_rule)@, *old(rulexpr_i) as nat), line@, report_warns) {
            Some(m) => ok && lex_view(*final(x), final(last_rule)@, *final(rulexpr_i) as nat) == m,
            None => !ok,
        },
        within(*final(x), *final(rulexpr_i) as nat, k + 1),
        final(last_rule)@.len() > 0 ==> final(x).rules@.len() > 0,
{
    let ghost m = lex_view(*x, last_rule@, *rulexpr_i as nat);
    let lc = to_chars(line);
    if lc.len() == 0 {
        return true;
    }
    let s = cut_line_at_char(line, '#', CutDirection::Before);
    if matches_pattern(RULE_REGEX, s) {
        let name = String::from_str(cut_line_at_char(s, ':', CutDirection::Before));
        let text = cut_line_at_char(cut_line_at_char(s, ':', CutDirection::After), ' ', CutDirection::After);
        let tc = to_chars(text);
        let ingredients = if tc.len() == 0 {
            let v: Vec<String> = Vec::new();
            assert(v@.map_values(|w: String| w@) =~= Seq::<Seq<char>>::empty());
            v
        } else {
            split_words(text)
        };
        let idx = x.rules.len();
        let ghost old_rules = x.rules@;
        x.rules.push(MakeRule { name: name.clone(), ingredients_text: String::from_str(text), ingredients });
        x.events.push(LexEvent::Rule(idx));
        *last_rule = name;
        *rulexpr_i = 0;
        assert(x.rules@.map_values(|r: MakeRule| rule_view(r)) =~= old_rules.map_values(
            |r: MakeRule| rule_view(r),
        ).push(rule_view(x.rules@.last())));
        return true;
    }
    let lr = to_chars(last_rule.as_str());
    let tab = matches_pattern(RULELINE_REGEX, s);
    if lr.len() > 0 && tab {
        let e = cut_line_at_char(s, '\t', CutDirection::After);
        let ec = to_chars(e);
        if ec.len() == 0 {
            return true;
        }
        let ridx = x.rules.len() - 1;
        let eidx = x.rule_exprs.len();
        let ghost old_exprs = x.rule_exprs@;
        x.rule_exprs.push(RuleExpr { rule: ridx, number: *rulexpr_i, text: String::from_str(e) });
        x.events.push(LexEvent::RuleExpr(eidx));
        *rulexpr_i = *rulexpr_i + 1;
        assert(x.rule_exprs@.map_values(|e: RuleExpr| rule_expr_view(e)) =~= old_exprs.map_values(
            |e: RuleExpr| rule_expr_view(e),
        ).push(rule_expr_view(x.rule_exprs@.last())));
        return true;
    }
    let sc = to_chars(s);
    if sc.len() == 0 {
        return true;
    }
    if lr.len() == 0 && tab {
        return false;
    }
    let midx = x.main_exprs.len();
    let ghost old_main = x.main_exprs@;
    x.main_exprs.push(String::from_str(s));
    x.events.push(LexEvent::MainExpr(midx));
    *rulexpr_i = 0;
    if lr.len() > 0 && report_warns && matches_pattern(RULEWARN_REGEX, s) {
        x.warns = x.warns + 1;
    }
    assert(x.main_exprs@.map_values(|w: String| w@) =~= old_main.map_values(|w: String| w@).push(s@));
    true
}

fn ends_with_backslash(s: &str) -> (r: bool)
    ensures
        r == (s@.len() > 0 && s@.last() == '\\'),
{
    let v = to_chars(s);
    v.len() > 0 && v[v.len() - 1] == '\\'
}

/// Reads the lines of a Makefile: lines ending with a backslash are joined to the next
/// one; comments after `#` are dropped. Gives none where the reader gives up (a line
/// beginning with a tab before any named rule).
pub fn lex_makefile_lines(lines: &Vec<String>, report_warns: bool) -> (r: Option<MakefileLex>)
    ensures
        match (r, lex_lines(lines@.map_values(|l: String| l@), 0, Seq::empty(), false, empty_model(), report_warns)) {
            (Some(x), Some(m)) => {
                &&& x.main_exprs@.map_values(|w: String| w@) == m.main_exprs
                &&& x.rules@.map_values(|r: MakeRule| rule_view(r)) == m.rules
                &&& x.rule_exprs@.map_values(|e: RuleExpr| rule_expr_view(e)) == m.rule_exprs
                &&& x.events@ == m.events
                &&& x.warns == m.warns
            },
            (None, None) => true,
            _ => false,
        },
{
    let ghost all = lines@.map_values(|l: String| l@);
    let mut x = MakefileLex { main_exprs: Vec::new(), rules: Vec::new(), rule_exprs: Vec::new(), events: Vec::new(), warns: 0 };
    let mut last_rule = String::new();
    let mut rulexpr_i: usize = 0;
    let mut cur = String::new();
    let mut cont = false;
    let n = lines.len();
    let mut i: usize = 0;
    assert(lex_view(x, last_rule@, 0) =~= empty_model());
    while i < n
        invariant
            n == lines@.len(),
            i <= n,
            all == lines@.map_values(|l: String| l@),
            within(x, rulexpr_i as nat, i as nat),
            last_rule@.len() > 0 ==> x.rules@.len() > 0,
            cont ==> cur@.len() > 0,
            lex_lines(all, 0, Seq::empty(), false, empty_model(), report_warns) == lex_lines(
                all,
                i as nat,
                cur@,
                cont,
                lex_view(x, last_rule@, rulexpr_i as nat),
                report_warns,
            ),
        decreases n - i,
    {
        let c2 = if cont {
            let cc = to_chars(cur.as_str());
            let mut c = String::from_str(cur.as_str().substring_char(0, cc.len() - 1));
            c.append(lines[i].as_str());
            assert(c@ =~= cur@.drop_last() + all[i as int]);
            c
        } else {
            lines[i].clone()
        };
        if ends_with_backslash(c2.as_str()) {
            cur = c2;
            cont = true;
        } else {
            let ok = lex_line_exec(&mut x, &mut last_rule, &mut rulexpr_i, c2.as_str(), report_warns, Ghost(i as nat));
            if !ok {
                return None;
            }
            cur = c2;
            cont = false;
        }
        i = i + 1;
    }
    Some(x)
}

/// The verdict on a Makefile from the number of its warnings (none when it could not be
/// read): success only without warnings.
pub fn lex_verdict(warns: Option<usize>) -> (r: Result<String, String>)
    ensures
        warns is None ==> (r matches Err(e) && e@ == "Lex failure"@),
        warns == Some(0usize) ==> (r matches Ok(s) && s@ == "Lex success with 0 warns."@),
        (warns matches Some(w) && w != 0) ==> (r matches Err(e) && e@ == "Lex failure, "@ + decimal_text(
            warns->0 as nat,
        ) + " warnings."@),
{
    match warns {
        None => Err(String::from_str("Lex failure")),
        Some(w) => {
            if w != 0 {
                let mut e = String::from_str("Lex failure, ");
                e.append(usize_text(w).as_str());
                e.append(" warnings.");
                Err(e)
            } else {
                Ok(String::from_str("Lex success with 0 warns."))
            }
        },
    }
}

/// Lexes the lines of a Makefile and gives the verdict on them: success only without
/// warnings; a failure where the reader gives up.
pub fn try_lex_makefile(lines: &Vec<String>, report_warns: bool) -> (r: Result<String, String>)
    ensures
        match lex_lines(lines@.map_values(|l: String| l@), 0, Seq::empty(), false, empty_model(), report_warns) {
            None => r matches Err(e) && e@ == "Lex failure"@,
            Some(m) => {
                &&& m.warns == 0 ==> (r matches Ok(s) && s@ == "Lex success with 0 warns."@)
                &&& m.warns != 0 ==> (r matches Err(e) && e@ == "Lex failure, "@ + decimal_text(m.warns)
                    + " warnings."@)
            },
        },
{
    match lex_makefile_lines(lines, report_warns) {
        Some(x) => lex_verdict(Some(x.warns)),
        None => Err(String::from_str("Lex failure")),
    }
}

} // verus!
