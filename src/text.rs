//! Verified text primitives over `Seq<char>`: prefix and infix tests,
//! verbatim replacement, trimming and splitting.

use vstd::prelude::*;
use vstd::string::*;

verus! {

/// `p` occurs in `s` starting at position `i`.
pub open spec fn occurs_at(s: Seq<char>, p: Seq<char>, i: int) -> bool {
    0 <= i && i + p.len() <= s.len() && s.subrange(i, i + p.len()) == p
}

/// `p` occurs somewhere in `s`.
pub open spec fn seq_contains(s: Seq<char>, p: Seq<char>) -> bool {
    exists|i: int| occurs_at(s, p, i)
}

/// Every non-overlapping occurrence of `p` in `s`, scanned from the left, is
/// replaced by `r`. An empty pattern leaves `s` unchanged.
pub open spec fn replaced(s: Seq<char>, p: Seq<char>, r: Seq<char>) -> Seq<char>
    decreases s.len(),
{
    if s.len() == 0 {
        s
    } else if p.len() > 0 && p.is_prefix_of(s) {
        r + replaced(s.subrange(p.len() as int, s.len() as int), p, r)
    } else {
        seq![s[0]] + replaced(s.subrange(1, s.len() as int), p, r)
    }
}

/// The characters that `char::is_whitespace` accepts (Unicode `White_Space`).
pub open spec fn is_ws(c: char) -> bool {
    c == '\t' || c == '\n' || c == '\u{0B}' || c == '\u{0C}' || c == '\r' || c == ' '
        || c == '\u{85}' || c == '\u{A0}' || c == '\u{1680}' || ('\u{2000}' <= c
        && c <= '\u{200A}') || c == '\u{2028}' || c == '\u{2029}' || c == '\u{202F}'
        || c == '\u{205F}' || c == '\u{3000}'
}

/// Whether `x` is trimmed: whitespace where `c` is `None`, else `c` itself.
pub open spec fn trimmed_char(c: Option<char>, x: char) -> bool {
    match c {
        None => is_ws(x),
        Some(d) => x == d,
    }
}

pub open spec fn trim_start_by(s: Seq<char>, c: Option<char>) -> Seq<char>
    decreases s.len(),
{
    if s.len() > 0 && trimmed_char(c, s[0]) {
        trim_start_by(s.drop_first(), c)
    } else {
        s
    }
}

pub open spec fn trim_end_by(s: Seq<char>, c: Option<char>) -> Seq<char>
    decreases s.len(),
{
    if s.len() > 0 && trimmed_char(c, s.last()) {
        trim_end_by(s.drop_last(), c)
    } else {
        s
    }
}

/// Leading and trailing whitespace removed, as `str::trim` does.
pub open spec fn trim_seq(s: Seq<char>) -> Seq<char> {
    trim_end_by(trim_start_by(s, None), None)
}

/// Leading and trailing copies of `c` removed, as `str::trim_matches` does
/// with a single character.
pub open spec fn trim_char_seq(s: Seq<char>, c: char) -> Seq<char> {
    trim_end_by(trim_start_by(s, Some(c)), Some(c))
}

/// The pieces of `s` between occurrences of `sep`, as `str::split` with a
/// single character yields them: `k` separators give `k + 1` pieces.
pub open spec fn split_seq(s: Seq<char>, sep: char) -> Seq<Seq<char>>
    decreases s.len(),
{
    if s.len() == 0 {
        seq![Seq::<char>::empty()]
    } else {
        let init = split_seq(s.drop_last(), sep);
        if s.last() == sep {
            init.push(Seq::<char>::empty())
        } else {
            init.update(init.len() - 1, init.last().push(s.last()))
        }
    }
}

/// The characters of `s`, one per element.
pub fn chars_of(s: &str) -> (r: Vec<char>)
    ensures
        r@ == s@,
{
    let n = s.unicode_len();
    let mut r: Vec<char> = Vec::new();
    let mut i: usize = 0;
    while i < n
        invariant
            n == s@.len(),
            i <= n,
            r@ == s@.subrange(0, i as int),
        decreases n - i,
    {
        r.push(s.get_char(i));
        i = i + 1;
    }
    r
}

/// Whether `p` occurs in `s` at position `i`.
fn occurs_at_exec(s: &Vec<char>, p: &Vec<char>, i: usize) -> (r: bool)
    ensures
        r == occurs_at(s@, p@, i as int),
{
    if i > s.len() || p.len() > s.len() - i {
        return false;
    }
    let mut k: usize = 0;
    while k < p.len()
        invariant
            i + p@.len() <= s@.len(),
            s@.len() == s.len(),
            p@.len() == p.len(),
            k <= p@.len(),
            forall|j: int| 0 <= j < k ==> s@[i + j] == p@[j],
        decreases p@.len() - k,
    {
        if s[i + k] != p[k] {
            assert(s@.subrange(i as int, i + p@.len())[k as int] != p@[k as int]);
            return false;
        }
        k = k + 1;
    }
    assert(s@.subrange(i as int, i + p@.len()) =~= p@);
    true
}

/// Whether `line` begins with `prefix`.
pub fn starts_with(line: &str, prefix: &str) -> (r: bool)
    ensures
        r == prefix@.is_prefix_of(line@),
{
    let s = chars_of(line);
    let p = chars_of(prefix);
    let r = occurs_at_exec(&s, &p, 0);
    proof {
        if r {
            assert(s@.subrange(0, p@.len() as int) == p@);
        }
        if prefix@.is_prefix_of(line@) {
            assert(occurs_at(s@, p@, 0));
        }
    }
    r
}

/// Whether `needle` occurs anywhere in `line`.
pub fn contains(line: &str, needle: &str) -> (r: bool)
    ensures
        r == seq_contains(line@, needle@),
{
    let s = chars_of(line);
    let p = chars_of(needle);
    if p.len() > s.len() {
        assert(!seq_contains(line@, needle@));
        return false;
    }
    if p.len() == 0 {
        assert(s@.subrange(0, 0) =~= p@);
        assert(occurs_at(s@, p@, 0));
        return true;
    }
    let last = s.len() - p.len();
    let mut i: usize = 0;
    while i <= last
        invariant
            last == s@.len() - p@.len(),
            last < s@.len(),
            s@.len() == s.len(),
            s@ == line@,
            p@ == needle@,
            forall|j: int| 0 <= j < i ==> !occurs_at(s@, p@, j),
        decreases last + 1 - i,
    {
        if occurs_at_exec(&s, &p, i) {
            return true;
        }
        i = i + 1;
    }
    assert forall|j: int| !occurs_at(s@, p@, j) by {
        if 0 <= j < i {
        } else if j > last {
        }
    }
    false
}

proof fn lemma_replaced_step_match(s: Seq<char>, p: Seq<char>, r: Seq<char>, i: int)
    requires
        p.len() > 0,
        occurs_at(s, p, i),
    ensures
        replaced(s.subrange(i, s.len() as int), p, r) == r + replaced(
            s.subrange(i + p.len(), s.len() as int),
            p,
            r,
        ),
{
    let t = s.subrange(i, s.len() as int);
    assert(t.subrange(0, p.len() as int) =~= p);
    assert(t.subrange(p.len() as int, t.len() as int) =~= s.subrange(
        i + p.len(),
        s.len() as int,
    ));
}

proof fn lemma_replaced_step_skip(s: Seq<char>, p: Seq<char>, r: Seq<char>, i: int)
    requires
        0 <= i < s.len(),
        !(p.len() > 0 && occurs_at(s, p, i)),
    ensures
        replaced(s.subrange(i, s.len() as int), p, r) == seq![s[i]] + replaced(
            s.subrange(i + 1, s.len() as int),
            p,
            r,
        ),
{
    let t = s.subrange(i, s.len() as int);
    if p.len() > 0 && p.is_prefix_of(t) {
        assert(s.subrange(i, i + p.len()) =~= t.subrange(0, p.len() as int));
    }
    assert(t.subrange(1, t.len() as int) =~= s.subrange(i + 1, s.len() as int));
}

/// `s` with every occurrence of `pat` replaced by `rep`, scanning from the
/// left, matches not overlapping. An empty `pat` leaves `s` as it is.
pub fn replace_all(s: &str, pat: &str, rep: &str) -> (r: String)
    ensures
        r@ == replaced(s@, pat@, rep@),
{
    let sc = chars_of(s);
    let pc = chars_of(pat);
    let n = sc.len();
    let mut out = String::new();
    let mut start: usize = 0;
    let mut i: usize = 0;
    assert(s@.subrange(0, n as int) =~= s@);
    assert(s@.subrange(0, 0) =~= Seq::<char>::empty());
    assert(out@ =~= Seq::<char>::empty());
    while i < n
        invariant
            n == s@.len(),
            sc@ == s@,
            pc@ == pat@,
            start <= i <= n,
            replaced(s@, pat@, rep@) == out@ + s@.subrange(start as int, i as int) + replaced(
                s@.subrange(i as int, n as int),
                pat@,
                rep@,
            ),
        decreases n - i,
    {
        if pc.len() > 0 && occurs_at_exec(&sc, &pc, i) {
            proof {
                lemma_replaced_step_match(s@, pat@, rep@, i as int);
            }
            let seg = s.substring_char(start, i);
            out.append(seg);
            out.append(rep);
            i = i + pc.len();
            start = i;
            assert(s@.subrange(start as int, i as int) =~= Seq::<char>::empty());
        } else {
            proof {
                lemma_replaced_step_skip(s@, pat@, rep@, i as int);
                assert(s@.subrange(start as int, i + 1) =~= s@.subrange(start as int, i as int)
                    + seq![s@[i as int]]);
            }
            i = i + 1;
        }
    }
    let seg = s.substring_char(start, n);
    out.append(seg);
    assert(s@.subrange(n as int, n as int) =~= Seq::<char>::empty());
    out
}

/// Whether `c` is whitespace, as `char::is_whitespace` decides.
pub fn is_whitespace(c: char) -> (r: bool)
    ensures
        r == is_ws(c),
{
    c == '\t' || c == '\n' || c == '\u{0B}' || c == '\u{0C}' || c == '\r' || c == ' '
        || c == '\u{85}' || c == '\u{A0}' || c == '\u{1680}' || ('\u{2000}' <= c
        && c <= '\u{200A}') || c == '\u{2028}' || c == '\u{2029}' || c == '\u{202F}'
        || c == '\u{205F}' || c == '\u{3000}'
}

fn is_trimmed(c: Option<char>, x: char) -> (r: bool)
    ensures
        r == trimmed_char(c, x),
{
    match c {
        None => is_whitespace(x),
        Some(d) => x == d,
    }
}

fn trim_by(s: &str, c: Option<char>) -> (r: String)
    ensures
        r@ == trim_end_by(trim_start_by(s@, c), c),
{
    let sc = chars_of(s);
    let n = sc.len();
    let mut i: usize = 0;
    assert(s@.subrange(0, n as int) =~= s@);
    while i < n && is_trimmed(c, sc[i])
        invariant
            n == s@.len(),
            sc@ == s@,
            i <= n,
            trim_start_by(s@, c) == trim_start_by(s@.subrange(i as int, n as int), c),
        decreases n - i,
    {
        assert(s@.subrange(i as int, n as int).drop_first() =~= s@.subrange(i + 1, n as int));
        i = i + 1;
    }
    assert(trim_start_by(s@, c) == s@.subrange(i as int, n as int));
    let mut j: usize = n;
    while j > i && is_trimmed(c, sc[j - 1])
        invariant
            n == s@.len(),
            sc@ == s@,
            i <= j <= n,
            trim_end_by(trim_start_by(s@, c), c) == trim_end_by(
                s@.subrange(i as int, j as int),
                c,
            ),
        decreases j,
    {
        assert(s@.subrange(i as int, j as int).drop_last() =~= s@.subrange(i as int, j - 1));
        j = j - 1;
    }
    String::from_str(s.substring_char(i, j))
}

/// `s` without leading and trailing whitespace.
pub fn trim(s: &str) -> (r: String)
    ensures
        r@ == trim_seq(s@),
{
    trim_by(s, None)
}

/// `s` without leading and trailing copies of `c`.
pub fn trim_matches(s: &str, c: char) -> (r: String)
    ensures
        r@ == trim_char_seq(s@, c),
{
    trim_by(s, Some(c))
}

/// The pieces of `s` between occurrences of `sep`, in order.
pub fn split_on(s: &str, sep: char) -> (r: Vec<String>)
    ensures
        r@.map_values(|x: String| x@) == split_seq(s@, sep),
{
    let sc = chars_of(s);
    let n = sc.len();
    let mut done: Vec<String> = Vec::new();
    let mut start: usize = 0;
    let mut i: usize = 0;
    assert(split_seq(s@.subrange(0, 0), sep) =~= seq![Seq::<char>::empty()]);
    assert(done@.map_values(|x: String| x@) =~= Seq::<Seq<char>>::empty());
    assert(s@.subrange(0, 0) =~= Seq::<char>::empty());
    assert(done@.map_values(|x: String| x@).push(s@.subrange(0, 0)) =~= seq![
        Seq::<char>::empty(),
    ]);
    while i < n
        invariant
            n == s@.len(),
            sc@ == s@,
            start <= i <= n,
            split_seq(s@.subrange(0, i as int), sep) == done@.map_values(|x: String| x@).push(
                s@.subrange(start as int, i as int),
            ),
        decreases n - i,
    {
        let ghost pre = s@.subrange(0, i as int);
        assert(s@.subrange(0, i + 1).drop_last() =~= pre);
        if sc[i] == sep {
            let piece = String::from_str(s.substring_char(start, i));
            done.push(piece);
            i = i + 1;
            start = i;
            assert(done@.map_values(|x: String| x@) =~= split_seq(pre, sep));
            assert(s@.subrange(start as int, i as int) =~= Seq::<char>::empty());
        } else {
            i = i + 1;
            assert(s@.subrange(start as int, i as int) =~= s@.subrange(start as int, i - 1).push(
                s@[i - 1],
            ));
            assert(split_seq(s@.subrange(0, i as int), sep) =~= done@.map_values(
                |x: String| x@,
            ).push(s@.subrange(start as int, i as int)));
        }
    }
    let piece = String::from_str(s.substring_char(start, n));
    done.push(piece);
    assert(s@.subrange(0, n as int) =~= s@);
    assert(done@.map_values(|x: String| x@) =~= split_seq(s@, sep));
    done
}

} // verus!
