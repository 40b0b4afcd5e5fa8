//! Small verified text utilities over `char` sequences: substring search,
//! Unicode whitespace trimming, and the parser for the value line that
//! `reg.exe query` prints.

use vstd::prelude::*;

verus! {

/// `char::is_whitespace`: the Unicode `White_Space` property.
pub open spec fn is_ws(c: char) -> bool {
    ||| ('\t' <= c && c <= '\r')
    ||| c == ' '
    ||| c == '\u{85}'
    ||| c == '\u{a0}'
    ||| c == '\u{1680}'
    ||| ('\u{2000}' <= c && c <= '\u{200a}')
    ||| c == '\u{2028}'
    ||| c == '\u{2029}'
    ||| c == '\u{202f}'
    ||| c == '\u{205f}'
    ||| c == '\u{3000}'
}

pub fn is_whitespace(c: char) -> (b: bool)
    ensures
        b == is_ws(c),
{
    ('\t' <= c && c <= '\r') || c == ' ' || c == '\u{85}' || c == '\u{a0}' || c == '\u{1680}' || (
    '\u{2000}' <= c && c <= '\u{200a}') || c == '\u{2028}' || c == '\u{2029}' || c == '\u{202f}'
        || c == '\u{205f}' || c == '\u{3000}'
}

pub open spec fn trim_start(s: Seq<char>) -> Seq<char>
    decreases s.len(),
{
    if s.len() > 0 && is_ws(s[0]) {
        trim_start(s.drop_first())
    } else {
        s
    }
}

pub open spec fn trim_end(s: Seq<char>) -> Seq<char>
    decreases s.len(),
{
    if s.len() > 0 && is_ws(s.last()) {
        trim_end(s.drop_last())
    } else {
        s
    }
}

/// `str::trim`: leading and trailing whitespace removed.
pub open spec fn trim(s: Seq<char>) -> Seq<char> {
    trim_end(trim_start(s))
}

/// Leading whitespace before text that starts with a non-space is trimmed
/// away exactly.
pub proof fn lemma_trim_start_skips(ws: Seq<char>, text: Seq<char>)
    requires
        forall|i: int| 0 <= i < ws.len() ==> is_ws(#[trigger] ws[i]),
        text.len() > 0,
        !is_ws(text[0]),
    ensures
        trim_start(ws + text) == text,
    decreases ws.len(),
{
    if ws.len() == 0 {
        assert(ws + text =~= text);
    } else {
        assert((ws + text).drop_first() =~= ws.drop_first() + text);
        assert(is_ws(ws[0]));
        lemma_trim_start_skips(ws.drop_first(), text);
    }
}

/// Trailing whitespace after text that ends with a non-space is trimmed
/// away exactly.
pub proof fn lemma_trim_end_skips(text: Seq<char>, ws: Seq<char>)
    requires
        forall|i: int| 0 <= i < ws.len() ==> is_ws(#[trigger] ws[i]),
        text.len() > 0,
        !is_ws(text.last()),
    ensures
        trim_end(text + ws) == text,
    decreases ws.len(),
{
    if ws.len() == 0 {
        assert(text + ws =~= text);
    } else {
        assert((text + ws).drop_last() =~= text + ws.drop_last());
        assert(is_ws(ws[ws.len() - 1]));
        lemma_trim_end_skips(text, ws.drop_last());
    }
}

/// Surrounding whitespace never changes what text trims to.
pub proof fn lemma_trim_surrounded(before: Seq<char>, text: Seq<char>, after: Seq<char>)
    requires
        forall|i: int| 0 <= i < before.len() ==> is_ws(#[trigger] before[i]),
        forall|i: int| 0 <= i < after.len() ==> is_ws(#[trigger] after[i]),
        text.len() > 0,
        !is_ws(text[0]),
        !is_ws(text.last()),
    ensures
        trim(before + text + after) == text,
{
    assert(before + text + after =~= before + (text + after));
    assert((text + after)[0] == text[0]);
    lemma_trim_start_skips(before, text + after);
    lemma_trim_end_skips(text, after);
}

/// The first position at or after `from` where `pat` occurs in `s`.
pub open spec fn find_from(s: Seq<char>, pat: Seq<char>, from: nat) -> Option<nat>
    decreases s.len() + 1 - from,
{
    if from + pat.len() > s.len() {
        None
    } else if s.subrange(from as int, (from + pat.len()) as int) == pat {
        Some(from)
    } else {
        find_from(s, pat, from + 1)
    }
}

pub proof fn lemma_find_from(s: Seq<char>, pat: Seq<char>, from: nat)
    ensures
        find_from(s, pat, from) matches Some(i) ==> from <= i && i + pat.len() <= s.len()
            && s.subrange(i as int, (i + pat.len()) as int) == pat,
    decreases s.len() + 1 - from,
{
    if from + pat.len() <= s.len() && s.subrange(from as int, (from + pat.len()) as int) != pat {
        lemma_find_from(s, pat, from + 1);
    }
}

/// The first position where `pat` occurs in `s`.
pub open spec fn find(s: Seq<char>, pat: Seq<char>) -> Option<nat> {
    find_from(s, pat, 0)
}

/// The characters of a string, in a vector.
pub fn chars_of(s: &str) -> (v: Vec<char>)
    ensures
        v@ == s@,
{
    let n = s.unicode_len();
    let mut v: Vec<char> = Vec::new();
    let mut i: usize = 0;
    while i < n
        invariant
            n == s@.len(),
            i <= n,
            v@ == s@.subrange(0, i as int),
        decreases n - i,
    {
        v.push(s.get_char(i));
        i = i + 1;
        assert(v@ =~= s@.subrange(0, i as int));
    }
    assert(s@.subrange(0, n as int) =~= s@);
    v
}

fn matches_at(v: &Vec<char>, at: usize, pat: &Vec<char>) -> (b: bool)
    requires
        at + pat@.len() <= v@.len(),
    ensures
        b == (v@.subrange(at as int, at + pat@.len()) == pat@),
{
    let vlen = v.len();
    let mut j: usize = 0;
    while j < pat.len()
        invariant
            vlen == v@.len(),
            at + pat@.len() <= v@.len(),
            j <= pat@.len(),
            forall|k: int| 0 <= k < j ==> v@[at + k] == pat@[k],
        decreases pat@.len() - j,
    {
        if v[at + j] != pat[j] {
            assert(v@.subrange(at as int, at + pat@.len())[j as int] != pat@[j as int]);
            return false;
        }
        j = j + 1;
    }
    assert(v@.subrange(at as int, at + pat@.len()) =~= pat@);
    true
}

/// The first occurrence of `pat` in `v[lo..hi]`, as an offset from `lo`.
pub fn find_in(v: &Vec<char>, lo: usize, hi: usize, pat: &Vec<char>) -> (r: Option<usize>)
    requires
        lo <= hi <= v@.len(),
        pat@.len() > 0,
    ensures
        match r {
            Some(i) => find(v@.subrange(lo as int, hi as int), pat@) == Some(i as nat),
            None => find(v@.subrange(lo as int, hi as int), pat@) is None,
        },
{
    let ghost sub = v@.subrange(lo as int, hi as int);
    let mut i: usize = 0;
    while i <= hi - lo && hi - lo - i >= pat.len()
        invariant
            lo <= hi <= v@.len(),
            pat@.len() > 0,
            sub == v@.subrange(lo as int, hi as int),
            i <= hi - lo + 1,
            find_from(sub, pat@, 0) == find_from(sub, pat@, i as nat),
        decreases hi - lo + 1 - i,
    {
        let hit = matches_at(v, lo + i, pat);
        assert(sub.subrange(i as int, i + pat@.len()) =~= v@.subrange(
            lo + i,
            lo + i + pat@.len(),
        ));
        if hit {
            return Some(i);
        }
        i = i + 1;
    }
    None
}

fn trimmed_bounds(v: &Vec<char>, lo: usize, hi: usize) -> (r: (usize, usize))
    requires
        lo <= hi <= v@.len(),
    ensures
        lo <= r.0 <= r.1 <= hi,
        v@.subrange(r.0 as int, r.1 as int) == trim(v@.subrange(lo as int, hi as int)),
{
    let mut a = lo;
    while a < hi && is_whitespace(v[a])
        invariant
            lo <= a <= hi <= v@.len(),
            trim_start(v@.subrange(lo as int, hi as int)) == trim_start(
                v@.subrange(a as int, hi as int),
            ),
        decreases hi - a,
    {
        assert(v@.subrange(a as int, hi as int).drop_first() =~= v@.subrange(a + 1, hi as int));
        a = a + 1;
    }
    let mut b = hi;
    while b > a && is_whitespace(v[b - 1])
        invariant
            lo <= a <= b <= hi <= v@.len(),
            trim_start(v@.subrange(lo as int, hi as int)) == v@.subrange(a as int, hi as int),
            trim_end(v@.subrange(a as int, hi as int)) == trim_end(
                v@.subrange(a as int, b as int),
            ),
        decreases b - a,
    {
        assert(v@.subrange(a as int, b as int).drop_last() =~= v@.subrange(a as int, b - 1));
        b = b - 1;
    }
    (a, b)
}

/// `str::trim`.
pub fn trim_str(s: &str) -> (t: String)
    ensures
        t@ == trim(s@),
{
    let v = chars_of(s);
    let (a, b) = trimmed_bounds(&v, 0, v.len());
    assert(v@.subrange(0, v@.len() as int) =~= s@);
    String::from_str(s.substring_char(a, b))
}

// ---- `reg.exe query` output ----

pub open spec fn reg_sz() -> Seq<char> {
    seq!['R', 'E', 'G', '_', 'S', 'Z']
}

/// The value on a line that holds `REG_SZ`: the text after the first
/// `REG_SZ` up to the next one (or the end of the line), trimmed.
pub open spec fn line_value(line: Seq<char>) -> Option<Seq<char>> {
    match find(line, reg_sz()) {
        None => None,
        Some(p) => {
            let rest = line.subrange((p + 6) as int, line.len() as int);
            let seg = match find(rest, reg_sz()) {
                Some(q) => rest.subrange(0, q as int),
                None => rest,
            };
            Some(trim(seg))
        },
    }
}

/// The end of the line that starts at `start`: the next `'\n'`, or the end.
pub open spec fn line_end(s: Seq<char>, start: nat) -> nat
    decreases s.len() - start,
{
    if start >= s.len() || s[start as int] == '\n' {
        start
    } else {
        line_end(s, start + 1)
    }
}

/// The value of the first line, from the one starting at `start` on, that
/// holds `REG_SZ`.
pub open spec fn reg_value_from(s: Seq<char>, start: nat) -> Option<Seq<char>>
    decreases s.len() + 1 - start,
{
    if start > s.len() {
        None
    } else {
        let end = line_end(s, start);
        match line_value(s.subrange(start as int, end as int)) {
            Some(v) => Some(v),
            None => if end >= s.len() {
                None
            } else {
                proof {
                    lemma_line_end_bounds(s, start);
                }
                reg_value_from(s, end + 1)
            },
        }
    }
}

/// What `reg.exe query <key> /v value` printed, read back: the string value
/// on the first line that names type `REG_SZ`.
pub open spec fn spec_reg_value(stdout: Seq<char>) -> Option<Seq<char>> {
    reg_value_from(stdout, 0)
}

pub proof fn lemma_line_end_bounds(s: Seq<char>, start: nat)
    requires
        start <= s.len(),
    ensures
        start <= line_end(s, start) <= s.len(),
        line_end(s, start) < s.len() ==> s[line_end(s, start) as int] == '\n',
    decreases s.len() - start,
{
    if start < s.len() && s[start as int] != '\n' {
        lemma_line_end_bounds(s, start + 1);
    }
}

/// Reads the string value out of `reg.exe query` output; see [`spec_reg_value`].
pub fn parse_reg_value(stdout: &str) -> (r: Option<String>)
    ensures
        match r {
            Some(v) => spec_reg_value(stdout@) == Some(v@),
            None => spec_reg_value(stdout@) is None,
        },
{
    let v = chars_of(stdout);
    let pat: Vec<char> = vec!['R', 'E', 'G', '_', 'S', 'Z'];
    assert(pat@ =~= reg_sz());
    let n = v.len();
    let mut start: usize = 0;
    loop
        invariant
            n == v@.len(),
            v@ == stdout@,
            pat@ == reg_sz(),
            start <= n,
            reg_value_from(v@, 0) == reg_value_from(v@, start as nat),
        decreases n - start,
    {
        let mut end = start;
        while end < n && v[end] != '\n'
            invariant
                n == v@.len(),
                start <= end <= n,
                line_end(v@, start as nat) == line_end(v@, end as nat),
            decreases n - end,
        {
            end = end + 1;
        }
        proof {
            lemma_line_end_bounds(v@, start as nat);
        }
        let ghost line = v@.subrange(start as int, end as int);
        match find_in(&v, start, end, &pat) {
            Some(p) => {
                proof {
                    lemma_find_from(line, reg_sz(), 0);
                }
                let from = start + p + 6;
                let second = find_in(&v, from, end, &pat);
                proof {
                    lemma_find_from(v@.subrange(from as int, end as int), reg_sz(), 0);
                }
                let seg_end = match second {
                    Some(q) => from + q,
                    None => end,
                };
                proof {
                    lemma_find_from(v@.subrange(from as int, end as int), reg_sz(), 0);
                    let rest = line.subrange(p + 6, line.len() as int);
                    assert(rest =~= v@.subrange(from as int, end as int));
                    assert(rest.subrange(0, seg_end - from) =~= v@.subrange(
                        from as int,
                        seg_end as int,
                    ));
                }
                let (a, b) = trimmed_bounds(&v, from, seg_end);
                return Some(String::from_str(stdout.substring_char(a, b)));
            },
            None => {
                if end >= n {
                    return None;
                }
                start = end + 1;
            },
        }
    }
}

} // verus!
