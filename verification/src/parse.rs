//! The parser for the raw branch listing: the text the external listing
//! command prints, one branch per line, the current branch prefixed with a
//! star. Each line is cleaned (outer whitespace and the leading stars
//! removed), empty lines are dropped, and the result is capped at
//! `MAX_BRANCHES`.

use vstd::prelude::*;
use crate::MAX_BRANCHES;

verus! {

/// The characters trimmed from the ends of a line.
pub open spec fn is_blank(c: char) -> bool {
    c == ' ' || c == '\t' || c == '\r'
}

pub open spec fn drop_leading_blanks(s: Seq<char>) -> Seq<char>
    decreases s.len(),
{
    if s.len() > 0 && is_blank(s[0]) {
        drop_leading_blanks(s.drop_first())
    } else {
        s
    }
}

pub open spec fn drop_trailing_blanks(s: Seq<char>) -> Seq<char>
    decreases s.len(),
{
    if s.len() > 0 && is_blank(s[s.len() - 1]) {
        drop_trailing_blanks(s.drop_last())
    } else {
        s
    }
}

pub open spec fn drop_leading_stars(s: Seq<char>) -> Seq<char>
    decreases s.len(),
{
    if s.len() > 0 && s[0] == '*' {
        drop_leading_stars(s.drop_first())
    } else {
        s
    }
}

/// A line with the blanks at both ends removed.
pub open spec fn trimmed(s: Seq<char>) -> Seq<char> {
    drop_leading_blanks(drop_trailing_blanks(s))
}

/// A line as a candidate name: trimmed, the current-branch star prefix
/// removed, and trimmed again.
pub open spec fn cleaned(s: Seq<char>) -> Seq<char> {
    trimmed(drop_leading_stars(trimmed(s)))
}

/// What one finished line contributes: its cleaned text, or nothing when
/// the cleaned text is empty.
pub open spec fn emit(cur: Seq<char>) -> Seq<Seq<char>> {
    if cleaned(cur).len() > 0 {
        seq![cleaned(cur)]
    } else {
        Seq::empty()
    }
}

/// Scans `s` with `cur` as the line gathered so far: a newline finishes the
/// current line, the end of the text finishes the last one.
pub open spec fn parse_acc(s: Seq<char>, cur: Seq<char>) -> Seq<Seq<char>>
    decreases s.len(),
{
    if s.len() == 0 {
        emit(cur)
    } else if s[0] == '\n' {
        emit(cur) + parse_acc(s.drop_first(), Seq::empty())
    } else {
        parse_acc(s.drop_first(), cur.push(s[0]))
    }
}

/// Every newline-separated line of `raw`, cleaned, the empty ones dropped.
pub open spec fn parse_lines(raw: Seq<char>) -> Seq<Seq<char>> {
    parse_acc(raw, Seq::empty())
}

/// `s` cut to at most `m` elements.
pub open spec fn capped<A>(s: Seq<A>, m: int) -> Seq<A> {
    if s.len() <= m {
        s
    } else {
        s.take(m)
    }
}

/// The views of a sequence of owned strings.
pub open spec fn views_of(bs: Seq<String>) -> Seq<Seq<char>> {
    bs.map_values(|b: String| b@)
}

fn skip_leading_blanks(s: &str) -> (r: &str)
    ensures
        r@ == drop_leading_blanks(s@),
    decreases s@.len(),
{
    let n = s.unicode_len();
    if n > 0 {
        let c = s.get_char(0);
        if c == ' ' || c == '\t' || c == '\r' {
            let rest = s.substring_char(1, n);
            proof {
                assert(rest@ =~= s@.drop_first());
            }
            return skip_leading_blanks(rest);
        }
    }
    s
}

fn skip_trailing_blanks(s: &str) -> (r: &str)
    ensures
        r@ == drop_trailing_blanks(s@),
    decreases s@.len(),
{
    let n = s.unicode_len();
    if n > 0 {
        let c = s.get_char(n - 1);
        if c == ' ' || c == '\t' || c == '\r' {
            let rest = s.substring_char(0, n - 1);
            proof {
                assert(rest@ =~= s@.drop_last());
            }
            return skip_trailing_blanks(rest);
        }
    }
    s
}

fn skip_leading_stars(s: &str) -> (r: &str)
    ensures
        r@ == drop_leading_stars(s@),
    decreases s@.len(),
{
    let n = s.unicode_len();
    if n > 0 {
        let c = s.get_char(0);
        if c == '*' {
            let rest = s.substring_char(1, n);
            proof {
                assert(rest@ =~= s@.drop_first());
            }
            return skip_leading_stars(rest);
        }
    }
    s
}

/// Cleans one line of the listing into a candidate name.
pub fn clean_line(s: &str) -> (r: String)
    ensures
        r@ == cleaned(s@),
{
    let t1 = skip_leading_blanks(skip_trailing_blanks(s));
    let t2 = skip_leading_stars(t1);
    let t3 = skip_leading_blanks(skip_trailing_blanks(t2));
    t3.to_owned()
}

/// Parses the raw branch listing into the candidate list: one entry per
/// non-empty cleaned line, in listing order, capped at `MAX_BRANCHES`.
pub fn parse_branches(raw: &str) -> (out: Vec<String>)
    ensures
        views_of(out@) == capped(parse_lines(raw@), MAX_BRANCHES as int),
        out@.len() <= MAX_BRANCHES,
{
    let n = raw.unicode_len();
    let mut all: Vec<String> = Vec::new();
    let mut ls: usize = 0;
    let mut i: usize = 0;
    proof {
        assert(raw@.subrange(0, n as int) =~= raw@);
        assert(raw@.subrange(0, 0) =~= Seq::<char>::empty());
        assert(views_of(all@) =~= Seq::<Seq<char>>::empty());
        assert(views_of(all@) + parse_acc(raw@, Seq::empty()) =~= parse_acc(raw@, Seq::empty()));
    }
    while i < n
        invariant
            ls <= i <= n,
            n == raw@.len(),
            views_of(all@) + parse_acc(
                raw@.subrange(i as int, n as int),
                raw@.subrange(ls as int, i as int),
            ) == parse_lines(raw@),
        decreases n - i,
    {
        let ghost pre = raw@.subrange(i as int, n as int);
        let ghost cur = raw@.subrange(ls as int, i as int);
        let c = raw.get_char(i);
        proof {
            assert(pre[0] == raw@[i as int]);
            assert(pre.drop_first() =~= raw@.subrange(i + 1, n as int));
        }
        if c == '\n' {
            let line = raw.substring_char(ls, i);
            let cl = clean_line(line);
            proof {
                assert(parse_acc(pre, cur) == emit(cur) + parse_acc(
                    pre.drop_first(),
                    Seq::empty(),
                ));
                assert(raw@.subrange(i + 1, i + 1) =~= Seq::<char>::empty());
            }
            if cl.unicode_len() > 0 {
                let ghost before = all@;
                all.push(cl);
                proof {
                    assert(views_of(all@) =~= views_of(before).push(cl@));
                    assert(views_of(before).push(cl@) =~= views_of(before) + emit(cur));
                    assert(views_of(before) + emit(cur) + parse_acc(pre.drop_first(), Seq::empty())
                        =~= views_of(before) + (emit(cur) + parse_acc(
                        pre.drop_first(),
                        Seq::empty(),
                    )));
                }
            } else {
                proof {
                    assert(emit(cur) =~= Seq::<Seq<char>>::empty());
                    assert(views_of(all@) + (emit(cur) + parse_acc(pre.drop_first(), Seq::empty()))
                        =~= views_of(all@) + parse_acc(pre.drop_first(), Seq::empty()));
                }
            }
            ls = i + 1;
        } else {
            proof {
                assert(parse_acc(pre, cur) == parse_acc(pre.drop_first(), cur.push(pre[0])));
                assert(cur.push(raw@[i as int]) =~= raw@.subrange(ls as int, i + 1));
            }
        }
        i = i + 1;
    }
    let line = raw.substring_char(ls, n);
    let cl = clean_line(line);
    proof {
        assert(raw@.subrange(n as int, n as int) =~= Seq::<char>::empty());
        assert(parse_acc(Seq::empty(), raw@.subrange(ls as int, n as int)) == emit(
            raw@.subrange(ls as int, n as int),
        ));
    }
    if cl.unicode_len() > 0 {
        let ghost before = all@;
        all.push(cl);
        proof {
            assert(views_of(all@) =~= views_of(before).push(cl@));
            assert(views_of(before).push(cl@) =~= views_of(before) + emit(
                raw@.subrange(ls as int, n as int),
            ));
        }
    } else {
        proof {
            assert(emit(raw@.subrange(ls as int, n as int)) =~= Seq::<Seq<char>>::empty());
            assert(views_of(all@) + Seq::<Seq<char>>::empty() =~= views_of(all@));
        }
    }
    if all.len() > MAX_BRANCHES {
        let ghost before = all@;
        all.truncate(MAX_BRANCHES);
        proof {
            assert(views_of(all@) =~= views_of(before).take(MAX_BRANCHES as int));
        }
    }
    all
}

} // verus!
