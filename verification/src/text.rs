//! Character-level text helpers shared by the analyzer, the letter and the
//! terminal effects: whitespace trimming, line splitting, substring search and
//! decimal rendering, each proved against a small mathematical definition.
use vstd::prelude::*;
use vstd::string::StringExecFns;

verus! {

/// `char::is_whitespace`: the Unicode `White_Space` property.
pub open spec fn is_whitespace(c: char) -> bool {
    ||| c == '\t'
    ||| c == '\n'
    ||| c == '\u{0B}'
    ||| c == '\u{0C}'
    ||| c == '\r'
    ||| c == ' '
    ||| c == '\u{85}'
    ||| c == '\u{A0}'
    ||| c == '\u{1680}'
    ||| ('\u{2000}' <= c && c <= '\u{200A}')
    ||| c == '\u{2028}'
    ||| c == '\u{2029}'
    ||| c == '\u{202F}'
    ||| c == '\u{205F}'
    ||| c == '\u{3000}'
}

/// Drop leading whitespace.
pub open spec fn trim_start(s: Seq<char>) -> Seq<char>
    decreases s.len(),
{
    if s.len() > 0 && is_whitespace(s[0]) {
        trim_start(s.drop_first())
    } else {
        s
    }
}

/// Drop trailing whitespace.
pub open spec fn trim_end(s: Seq<char>) -> Seq<char>
    decreases s.len(),
{
    if s.len() > 0 && is_whitespace(s.last()) {
        trim_end(s.drop_last())
    } else {
        s
    }
}

/// `str::trim`: drop whitespace at both ends.
pub open spec fn trim(s: Seq<char>) -> Seq<char> {
    trim_end(trim_start(s))
}

/// `str::split('\n')`: the pieces between newlines (always at least one).
pub open spec fn split_newlines(s: Seq<char>) -> Seq<Seq<char>>
    decreases s.len(),
{
    if s.len() == 0 {
        seq![Seq::<char>::empty()]
    } else {
        let r = split_newlines(s.drop_last());
        if s.last() == '\n' {
            r.push(Seq::<char>::empty())
        } else {
            r.update(r.len() - 1, r.last().push(s.last()))
        }
    }
}

/// Remove one trailing carriage return.
pub open spec fn strip_cr(l: Seq<char>) -> Seq<char> {
    if l.len() > 0 && l.last() == '\r' {
        l.drop_last()
    } else {
        l
    }
}

/// `str::lines`: lines end at `\n` or `\r\n`; a final empty piece is no line.
pub open spec fn lines(s: Seq<char>) -> Seq<Seq<char>> {
    let p = split_newlines(s);
    let body = p.drop_last().map_values(|l: Seq<char>| strip_cr(l));
    if p.last().len() == 0 {
        body
    } else {
        body.push(p.last())
    }
}

/// `needle` occurs in `hay` as a contiguous run.
pub open spec fn contains(hay: Seq<char>, needle: Seq<char>) -> bool {
    exists|i: int|
        0 <= i && i + needle.len() <= hay.len() && #[trigger] hay.subrange(i, i + needle.len())
            == needle
}

/// `hay` begins with `prefix`.
pub open spec fn starts_with(hay: Seq<char>, prefix: Seq<char>) -> bool {
    prefix.len() <= hay.len() && hay.subrange(0, prefix.len() as int) == prefix
}

/// The ASCII digit for `d < 10`.
pub open spec fn digit_char(d: nat) -> char {
    (48 + d) as char
}

/// Decimal rendering of a natural number, as `format!("{}", n)` writes it.
pub open spec fn decimal(n: nat) -> Seq<char>
    decreases n,
{
    if n < 10 {
        seq![digit_char(n)]
    } else {
        decimal(n / 10).push(digit_char(n % 10))
    }
}

/// `n` copies of `c`.
pub open spec fn repeat_char(c: char, n: nat) -> Seq<char> {
    Seq::new(n, |i: int| c)
}

/// `String::push`.
#[verifier::external_body]
pub(crate) fn push_char(s: &mut String, c: char)
    ensures
        final(s)@ == old(s)@.push(c),
{
    s.push(c);
}

/// A text splits into at least one piece, and into no more pieces than one
/// more than its characters (no more than its characters where the last
/// piece is not empty).
pub proof fn lemma_split_newlines_len(s: Seq<char>)
    ensures
        split_newlines(s).len() >= 1,
        split_newlines(s).len() <= s.len() + 1,
        split_newlines(s).last().len() > 0 ==> split_newlines(s).len() <= s.len(),
    decreases s.len(),
{
    if s.len() > 0 {
        lemma_split_newlines_len(s.drop_last());
    }
}

/// Appending text with no newline to a text extends its last piece.
pub proof fn lemma_split_newlines_append(a: Seq<char>, b: Seq<char>)
    requires
        !b.contains('\n'),
    ensures
        split_newlines(a + b) == split_newlines(a).update(
            split_newlines(a).len() - 1,
            split_newlines(a).last() + b,
        ),
    decreases b.len(),
{
    lemma_split_newlines_len(a);
    if b.len() == 0 {
        assert(a + b =~= a);
        assert(split_newlines(a).last() + b =~= split_newlines(a).last());
        assert(split_newlines(a).update(split_newlines(a).len() - 1, split_newlines(a).last() + b)
            =~= split_newlines(a));
    } else {
        let bl = b.drop_last();
        assert(!bl.contains('\n')) by {
            if bl.contains('\n') {
                let i = choose|i: int| 0 <= i < bl.len() && bl[i] == '\n';
                assert(b[i] == '\n');
            }
        }
        lemma_split_newlines_append(a, bl);
        assert((a + b).drop_last() =~= a + bl);
        assert((a + b).last() == b.last());
        assert(b.last() != '\n') by {
            if b.last() == '\n' {
                assert(b[b.len() - 1] == '\n');
            }
        }
        assert((split_newlines(a).last() + bl).push(b.last()) =~= split_newlines(a).last() + b);
        assert(split_newlines(a + b) =~= split_newlines(a).update(
            split_newlines(a).len() - 1,
            split_newlines(a).last() + b,
        ));
    }
}

/// The lines of two newline-free texts joined by a newline are the two texts
/// (the second not empty, the first not ending in a carriage return).
pub proof fn lemma_lines_of_two(a: Seq<char>, b: Seq<char>)
    requires
        !a.contains('\n'),
        !b.contains('\n'),
        b.len() > 0,
        a.len() > 0 ==> a.last() != '\r',
    ensures
        lines(a + seq!['\n'] + b) == seq![a, b],
{
    lemma_split_newlines_append(Seq::<char>::empty(), a);
    assert(Seq::<char>::empty() + a =~= a);
    assert(split_newlines(Seq::<char>::empty()) =~= seq![Seq::<char>::empty()]);
    assert(split_newlines(a) =~= seq![a]);
    let an = a + seq!['\n'];
    assert(an.drop_last() =~= a);
    assert(split_newlines(an) =~= seq![a, Seq::<char>::empty()]);
    lemma_split_newlines_append(an, b);
    assert(Seq::<char>::empty() + b =~= b);
    let p = split_newlines(an + b);
    assert(p =~= seq![a, b]);
    assert(strip_cr(a) == a);
    assert(p.drop_last().map_values(|l: Seq<char>| strip_cr(l)) =~= seq![a]);
    assert(lines(an + b) =~= seq![a, b]);
}

/// A text that neither starts nor ends with whitespace is its own trim.
pub proof fn lemma_trim_untouched(s: Seq<char>)
    requires
        s.len() > 0,
        !is_whitespace(s[0]),
        !is_whitespace(s.last()),
    ensures
        trim(s) == s,
{
}

/// The characters of a string slice.
pub fn chars_of(s: &str) -> (v: Vec<char>)
    ensures
        v@ == s@,
{
    let n: usize = s.unicode_len();
    let mut v: Vec<char> = Vec::new();
    for c in it: s.chars()
        invariant
            it.seq() == s@,
            n == s@.len(),
            v@ == it.seq().take(it.index() as int),
    {
        v.push(c);
        assert(v@ =~= it.seq().take(it.index() + 1));
    }
    assert(v@ =~= s@);
    v
}

/// A string holding exactly the given characters.
pub fn string_of(v: &Vec<char>) -> (s: String)
    ensures
        s@ == v@,
{
    let mut s = String::new();
    let mut i: usize = 0;
    while i < v.len()
        invariant
            i <= v.len(),
            s@ == v@.take(i as int),
        decreases v.len() - i,
    {
        push_char(&mut s, v[i]);
        assert(s@ =~= v@.take(i + 1));
        i = i + 1;
    }
    assert(s@ =~= v@);
    s
}

/// Append `n` copies of `c`.
pub fn push_repeat(s: &mut String, c: char, n: usize)
    ensures
        final(s)@ == old(s)@ + repeat_char(c, n as nat),
{
    let mut i: usize = 0;
    while i < n
        invariant
            i <= n,
            s@ == old(s)@ + repeat_char(c, i as nat),
        decreases n - i,
    {
        push_char(s, c);
        assert(s@ =~= old(s)@ + repeat_char(c, (i + 1) as nat));
        i = i + 1;
    }
}

/// Append the decimal rendering of `n`.
pub fn push_decimal(s: &mut String, n: u64)
    ensures
        final(s)@ == old(s)@ + decimal(n as nat),
    decreases n,
{
    if n >= 10 {
        push_decimal(s, n / 10);
    }
    let d: u8 = (n % 10) as u8;
    let c: char = (48u8 + d) as char;
    push_char(s, c);
    assert(s@ =~= old(s)@ + decimal(n as nat));
}

/// Append a string slice.
pub fn push_str(s: &mut String, t: &str)
    ensures
        final(s)@ == old(s)@ + t@,
{
    s.append(t);
}


pub proof fn lemma_trim_start_skip(s: Seq<char>, k: int)
    requires
        0 <= k <= s.len(),
        forall|j: int| 0 <= j < k ==> is_whitespace(#[trigger] s[j]),
    ensures
        trim_start(s) == trim_start(s.skip(k)),
    decreases k,
{
    if k > 0 {
        assert(s.drop_first().skip(k - 1) =~= s.skip(k));
        lemma_trim_start_skip(s.drop_first(), k - 1);
    } else {
        assert(s.skip(0) =~= s);
    }
}

pub proof fn lemma_trim_end_take(s: Seq<char>, k: int)
    requires
        0 <= k <= s.len(),
        forall|j: int| k <= j < s.len() ==> is_whitespace(#[trigger] s[j]),
    ensures
        trim_end(s) == trim_end(s.take(k)),
    decreases s.len() - k,
{
    if k < s.len() {
        assert(s.drop_last().take(k) =~= s.take(k));
        lemma_trim_end_take(s.drop_last(), k);
    } else {
        assert(s.take(k) =~= s);
    }
}

/// Whether `c` is whitespace in the sense of `char::is_whitespace`.
pub fn is_whitespace_char(c: char) -> (b: bool)
    ensures
        b == is_whitespace(c),
{
    c == '\t' || c == '\n' || c == '\u{0B}' || c == '\u{0C}' || c == '\r' || c == ' '
        || c == '\u{85}' || c == '\u{A0}' || c == '\u{1680}' || ('\u{2000}' <= c && c
        <= '\u{200A}') || c == '\u{2028}' || c == '\u{2029}' || c == '\u{202F}' || c
        == '\u{205F}' || c == '\u{3000}'
}

/// The characters of `v` without leading and trailing whitespace.
pub fn trim_chars(v: &Vec<char>) -> (t: Vec<char>)
    ensures
        t@ == trim(v@),
{
    let mut lo: usize = 0;
    while lo < v.len() && is_whitespace_char(v[lo])
        invariant
            lo <= v.len(),
            forall|j: int| 0 <= j < lo ==> is_whitespace(#[trigger] v@[j]),
        decreases v.len() - lo,
    {
        lo = lo + 1;
    }
    proof {
        lemma_trim_start_skip(v@, lo as int);
        if lo < v.len() {
            assert(!is_whitespace(v@.skip(lo as int)[0]));
        }
    }
    let mut hi: usize = v.len();
    while hi > lo && is_whitespace_char(v[hi - 1])
        invariant
            lo <= hi <= v.len(),
            forall|j: int| hi <= j < v.len() ==> is_whitespace(#[trigger] v@[j]),
        decreases hi - lo,
    {
        hi = hi - 1;
    }
    let ghost rest = v@.skip(lo as int);
    proof {
        assert forall|j: int| hi - lo <= j < rest.len() implies is_whitespace(#[trigger] rest[j]) by {
            assert(rest[j] == v@[j + lo]);
        }
        lemma_trim_end_take(rest, hi - lo);
        if hi > lo {
            assert(rest.take(hi - lo).last() == v@[hi - 1]);
        }
    }
    let mut t: Vec<char> = Vec::new();
    let mut i: usize = lo;
    while i < hi
        invariant
            lo <= i <= hi <= v.len(),
            t@ == v@.subrange(lo as int, i as int),
        decreases hi - i,
    {
        t.push(v[i]);
        assert(t@ =~= v@.subrange(lo as int, i + 1));
        i = i + 1;
    }
    assert(t@ =~= rest.take(hi - lo));
    t
}

/// Whether two character sequences are equal.
pub fn chars_eq(a: &Vec<char>, b: &Vec<char>) -> (r: bool)
    ensures
        r == (a@ == b@),
{
    if a.len() != b.len() {
        return false;
    }
    let mut i: usize = 0;
    while i < a.len()
        invariant
            a.len() == b.len(),
            i <= a.len(),
            forall|j: int| 0 <= j < i ==> a@[j] == b@[j],
        decreases a.len() - i,
    {
        if a[i] != b[i] {
            return false;
        }
        i = i + 1;
    }
    assert(a@ =~= b@);
    true
}

/// Whether `needle` occurs in `hay` starting at `at`.
fn occurs_at(hay: &Vec<char>, needle: &Vec<char>, at: usize) -> (r: bool)
    requires
        at + needle.len() <= hay.len(),
    ensures
        r == (hay@.subrange(at as int, at + needle.len()) == needle@),
{
    let mut j: usize = 0;
    while j < needle.len()
        invariant
            at + needle.len() <= hay.len(),
            j <= needle.len(),
            forall|k: int| 0 <= k < j ==> hay@[at + k] == needle@[k],
        decreases needle.len() - j,
    {
        if hay[at + j] != needle[j] {
            assert(hay@.subrange(at as int, at + needle.len())[j as int] != needle@[j as int]);
            return false;
        }
        j = j + 1;
    }
    assert(hay@.subrange(at as int, at + needle.len()) =~= needle@);
    true
}

/// Whether `needle` occurs in `hay`.
pub fn contains_chars(hay: &Vec<char>, needle: &Vec<char>) -> (r: bool)
    ensures
        r == contains(hay@, needle@),
{
    if needle.len() > hay.len() {
        return false;
    }
    let last: usize = hay.len() - needle.len();
    let mut i: usize = 0;
    loop
        invariant
            last + needle.len() == hay.len(),
            i <= last,
            forall|k: int|
                0 <= k < i ==> #[trigger] hay@.subrange(k, k + needle.len()) != needle@,
        decreases last - i,
    {
        if occurs_at(hay, needle, i) {
            return true;
        }
        if i == last {
            return false;
        }
        i = i + 1;
    }
}

/// Whether `c` occurs in `hay`.
pub fn has_char(hay: &Vec<char>, c: char) -> (r: bool)
    ensures
        r == hay@.contains(c),
{
    let mut i: usize = 0;
    while i < hay.len()
        invariant
            i <= hay.len(),
            forall|k: int| 0 <= k < i ==> hay@[k] != c,
        decreases hay.len() - i,
    {
        if hay[i] == c {
            return true;
        }
        i = i + 1;
    }
    false
}

/// Whether `hay` begins with `prefix`.
pub fn starts_with_chars(hay: &Vec<char>, prefix: &Vec<char>) -> (r: bool)
    ensures
        r == starts_with(hay@, prefix@),
{
    if prefix.len() > hay.len() {
        return false;
    }
    let r: bool = occurs_at(hay, prefix, 0);
    r
}

/// The character views of a sequence of character vectors.
pub open spec fn views(v: Seq<Vec<char>>) -> Seq<Seq<char>> {
    v.map_values(|x: Vec<char>| x@)
}

/// The character views of a sequence of strings.
pub open spec fn string_views(v: Seq<String>) -> Seq<Seq<char>> {
    v.map_values(|s: String| s@)
}

/// The pieces of `v` between newlines, as `str::split('\n')` yields them.
pub fn split_on_newlines(v: &Vec<char>) -> (p: Vec<Vec<char>>)
    ensures
        views(p@) == split_newlines(v@),
{
    let mut pieces: Vec<Vec<char>> = Vec::new();
    let mut cur: Vec<char> = Vec::new();
    let mut i: usize = 0;
    while i < v.len()
        invariant
            i <= v.len(),
            views(pieces@).push(cur@) == split_newlines(v@.take(i as int)),
        decreases v.len() - i,
    {
        let ghost before = v@.take(i as int);
        proof {
            assert(v@.take(i + 1).drop_last() =~= before);
            assert(v@.take(i + 1).last() == v@[i as int]);
            lemma_split_newlines_len(before);
        }
        if v[i] == '\n' {
            let ghost old_pieces = pieces@;
            let done = cur;
            pieces.push(done);
            cur = Vec::new();
            assert(views(pieces@) =~= views(old_pieces).push(done@));
            assert(views(pieces@).push(cur@) =~= split_newlines(before).push(Seq::<char>::empty()));
        } else {
            cur.push(v[i]);
            assert(views(pieces@).push(cur@) =~= split_newlines(before).update(
                split_newlines(before).len() - 1,
                split_newlines(before).last().push(v@[i as int]),
            ));
        }
        i = i + 1;
    }
    assert(v@.take(v.len() as int) =~= v@);
    let ghost old_pieces = pieces@;
    pieces.push(cur);
    assert(views(pieces@) =~= views(old_pieces).push(cur@));
    pieces
}

/// The lines of `v`, as `str::lines` yields them.
pub fn split_lines(v: &Vec<char>) -> (ls: Vec<Vec<char>>)
    ensures
        views(ls@) == lines(v@),
{
    let mut p: Vec<Vec<char>> = split_on_newlines(v);
    let ghost pv = split_newlines(v@);
    proof {
        lemma_split_newlines_len(v@);
    }
    let last: Vec<char> = p.pop().unwrap();
    assert(views(p@) =~= pv.drop_last());
    assert(last@ == pv.last());
    let mut ls: Vec<Vec<char>> = Vec::new();
    let mut i: usize = 0;
    while i < p.len()
        invariant
            i <= p.len(),
            pv.len() >= 1,
            views(p@) == pv.drop_last(),
            views(ls@) == pv.drop_last().take(i as int).map_values(|l: Seq<char>| strip_cr(l)),
        decreases p.len() - i,
    {
        let mut line: Vec<char> = p[i].clone();
        assert(line@ == views(p@)[i as int]);
        let n: usize = line.len();
        if n > 0 && line[n - 1] == '\r' {
            line.pop();
        }
        assert(line@ =~= strip_cr(views(p@)[i as int]));
        let ghost old_ls = ls@;
        ls.push(line);
        assert(views(ls@) =~= views(old_ls).push(line@));
        assert(views(ls@) =~= pv.drop_last().take(i + 1).map_values(|l: Seq<char>| strip_cr(l)));
        i = i + 1;
    }
    assert(pv.drop_last().take(p.len() as int) =~= pv.drop_last());
    if last.len() > 0 {
        let ghost old_ls = ls@;
        ls.push(last);
        assert(views(ls@) =~= views(old_ls).push(last@));
    }
    ls
}

} // verus!
