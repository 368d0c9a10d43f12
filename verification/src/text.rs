//! Character-level text operations shared by the catalog parser and the
//! message interpolation: whitespace trimming, line splitting and
//! left-to-right substring replacement, each with its specification.

use vstd::prelude::*;

verus! {

/// Unicode `White_Space`, the property that `char::is_whitespace` tests.
pub open spec fn is_white_space(c: char) -> bool {
    let u = c as u32;
    ||| 0x9 <= u && u <= 0xd
    ||| u == 0x20
    ||| u == 0x85
    ||| u == 0xa0
    ||| u == 0x1680
    ||| 0x2000 <= u && u <= 0x200a
    ||| u == 0x2028
    ||| u == 0x2029
    ||| u == 0x202f
    ||| u == 0x205f
    ||| u == 0x3000
}

/// `s` without its leading white space.
pub open spec fn trim_start(s: Seq<char>) -> Seq<char>
    decreases s.len(),
{
    if s.len() > 0 && is_white_space(s[0]) {
        trim_start(s.drop_first())
    } else {
        s
    }
}

/// `s` without its trailing white space.
pub open spec fn trim_end(s: Seq<char>) -> Seq<char>
    decreases s.len(),
{
    if s.len() > 0 && is_white_space(s.last()) {
        trim_end(s.drop_last())
    } else {
        s
    }
}

/// `s` without leading and trailing white space, as `str::trim` gives it.
pub open spec fn trim(s: Seq<char>) -> Seq<char> {
    trim_end(trim_start(s))
}

/// The pieces of `s` between the newline characters: `n` newlines give
/// `n + 1` pieces, the last of which may be empty.
pub open spec fn split_lines(s: Seq<char>) -> Seq<Seq<char>>
    decreases s.len(),
{
    if s.len() == 0 {
        seq![Seq::<char>::empty()]
    } else {
        let init = split_lines(s.drop_last());
        if s.last() == '\n' {
            init.push(Seq::<char>::empty())
        } else {
            init.update(init.len() - 1, init.last().push(s.last()))
        }
    }
}

/// Every piece of `split_lines` is non-empty as a sequence of pieces.
pub proof fn lemma_split_lines_nonempty(s: Seq<char>)
    ensures
        split_lines(s).len() > 0,
    decreases s.len(),
{
    if s.len() > 0 {
        lemma_split_lines_nonempty(s.drop_last());
    }
}

/// Replaces every occurrence of `pat` in `s` by `rep`, scanning from the
/// left and never letting two replaced occurrences overlap, as
/// `str::replace` does for a non-empty pattern.
pub open spec fn replace_all(s: Seq<char>, pat: Seq<char>, rep: Seq<char>) -> Seq<char>
    decreases s.len(),
{
    if pat.len() == 0 || s.len() < pat.len() {
        s
    } else if s.take(pat.len() as int) == pat {
        rep + replace_all(s.skip(pat.len() as int), pat, rep)
    } else {
        seq![s[0]] + replace_all(s.skip(1), pat, rep)
    }
}

/// Whether `pat` occurs in `s`.
pub open spec fn occurs_in(pat: Seq<char>, s: Seq<char>) -> bool {
    exists|i: int| 0 <= i && i + pat.len() <= s.len() && #[trigger] s.subrange(i, i + pat.len()) == pat
}

/// The text that `trim_start` keeps is a suffix of `s` that is empty or
/// starts with a character that is not white space.
pub proof fn lemma_trim_start_shape(s: Seq<char>) -> (i: int)
    ensures
        0 <= i <= s.len(),
        trim_start(s) == s.skip(i),
        i == s.len() || !is_white_space(s[i]),
        forall|m: int| 0 <= m < i ==> is_white_space(s[m]),
    decreases s.len(),
{
    if s.len() > 0 && is_white_space(s[0]) {
        let j = lemma_trim_start_shape(s.drop_first());
        assert(s.drop_first().skip(j) =~= s.skip(j + 1));
        assert forall|m: int| 0 <= m < j + 1 implies is_white_space(s[m]) by {
            if m > 0 {
                assert(s[m] == s.drop_first()[m - 1]);
            }
        }
        j + 1
    } else {
        assert(s.skip(0) =~= s);
        0
    }
}

/// The text that `trim_end` keeps is a prefix of `s` that is empty or ends
/// with a character that is not white space.
pub proof fn lemma_trim_end_shape(s: Seq<char>) -> (j: int)
    ensures
        0 <= j <= s.len(),
        trim_end(s) == s.take(j),
        j == 0 || !is_white_space(s[j - 1]),
        forall|m: int| j <= m < s.len() ==> is_white_space(s[m]),
    decreases s.len(),
{
    if s.len() > 0 && is_white_space(s.last()) {
        let j = lemma_trim_end_shape(s.drop_last());
        assert(s.drop_last().take(j) =~= s.take(j));
        assert forall|m: int| j <= m < s.len() implies is_white_space(s[m]) by {
            if m < s.len() - 1 {
                assert(s[m] == s.drop_last()[m]);
            }
        }
        j
    } else {
        assert(s.take(s.len() as int) =~= s);
        s.len() as int
    }
}

/// Trimmed text is a contiguous part of the text, and it is empty or both
/// begins and ends with a character that is not white space.
pub proof fn lemma_trim_shape(s: Seq<char>) -> (r: (int, int))
    ensures
        0 <= r.0 <= r.1 <= s.len(),
        trim(s) == s.subrange(r.0, r.1),
        trim(s).len() == 0 || (!is_white_space(trim(s)[0]) && !is_white_space(trim(s).last())),
        forall|m: int| 0 <= m < r.0 ==> is_white_space(s[m]),
        forall|m: int| r.1 <= m < s.len() ==> is_white_space(s[m]),
        r.0 < r.1 ==> !is_white_space(s[r.0]) && !is_white_space(s[r.1 - 1]),
{
    let i = lemma_trim_start_shape(s);
    let j = lemma_trim_end_shape(s.skip(i));
    assert(s.skip(i).take(j) =~= s.subrange(i, i + j));
    if j > 0 {
        assert(s.skip(i)[0] == s[i]);
        assert(s.skip(i)[j - 1] == s[i + j - 1]);
    }
    assert forall|m: int| i + j <= m < s.len() implies is_white_space(s[m]) by {
        assert(s[m] == s.skip(i)[m - i]);
    }
    (i, i + j)
}

/// Text whose characters outside `[i, j)` are all white space, and which is
/// empty there or begins and ends there with a character that is not white
/// space, trims to `s[i..j]`.
pub proof fn lemma_trim_characterization(s: Seq<char>, i: int, j: int)
    requires
        0 <= i <= j <= s.len(),
        forall|m: int| 0 <= m < i ==> is_white_space(s[m]),
        forall|m: int| j <= m < s.len() ==> is_white_space(s[m]),
        i < j ==> !is_white_space(s[i]) && !is_white_space(s[j - 1]),
    ensures
        trim(s) == s.subrange(i, j),
{
    let (a, b) = lemma_trim_shape(s);
    if i < j {
        if a == b {
            assert(is_white_space(s[i]));
        }
        if a < i {
            assert(is_white_space(s[a]));
        }
        if i < a {
            assert(is_white_space(s[i]));
        }
        if b < j {
            assert(is_white_space(s[j - 1]));
        }
        if j < b {
            assert(is_white_space(s[b - 1]));
        }
    } else {
        if a < b {
            assert(is_white_space(s[a]));
        }
        assert(s.subrange(a, b) =~= s.subrange(i, j));
    }
}

/// White space around a part of the text does not change its trim.
pub proof fn lemma_trim_margins(s: Seq<char>, i: int, j: int)
    requires
        0 <= i <= j <= s.len(),
        forall|m: int| 0 <= m < i ==> is_white_space(s[m]),
        forall|m: int| j <= m < s.len() ==> is_white_space(s[m]),
    ensures
        trim(s) == trim(s.subrange(i, j)),
{
    let sub = s.subrange(i, j);
    let (a, b) = lemma_trim_shape(sub);
    assert forall|m: int| 0 <= m < i + a implies is_white_space(s[m]) by {
        if m >= i {
            assert(s[m] == sub[m - i]);
        }
    }
    assert forall|m: int| i + b <= m < s.len() implies is_white_space(s[m]) by {
        if m < j {
            assert(s[m] == sub[m - i]);
        }
    }
    if a < b {
        assert(s[i + a] == sub[a]);
        assert(s[i + b - 1] == sub[b - 1]);
    }
    lemma_trim_characterization(s, i + a, i + b);
    assert(sub.subrange(a, b) =~= s.subrange(i + a, i + b));
}

/// Text without a newline is a single line.
pub proof fn lemma_split_lines_single(s: Seq<char>)
    requires
        !s.contains('\n'),
    ensures
        split_lines(s) == seq![s],
    decreases s.len(),
{
    if s.len() == 0 {
        assert(s =~= Seq::<char>::empty());
        assert(split_lines(s) =~= seq![s]);
    } else {
        let init = s.drop_last();
        assert(!init.contains('\n')) by {
            assert forall|m: int| 0 <= m < init.len() implies init[m] != '\n' by {
                assert(init[m] == s[m]);
            }
        }
        lemma_split_lines_single(init);
        assert(s.last() != '\n');
        assert(init.push(s.last()) =~= s);
        assert(seq![init].update(0, init.push(s.last())) =~= seq![s]);
    }
}

/// The leftmost occurrence of `pat` is replaced, and the scan goes on after
/// it: where `pat` does not start anywhere in `a + pat + b` before the end
/// of `a`, the text `a` is kept, `pat` becomes `rep`, and `b` is replaced in
/// its turn.
pub proof fn lemma_replace_leftmost(a: Seq<char>, pat: Seq<char>, rep: Seq<char>, b: Seq<char>)
    requires
        pat.len() > 0,
        forall|i: int| 0 <= i < a.len() ==> #[trigger] (a + pat + b).subrange(i, i + pat.len()) != pat,
    ensures
        replace_all(a + pat + b, pat, rep) == a + rep + replace_all(b, pat, rep),
    decreases a.len(),
{
    let s = a + pat + b;
    if a.len() == 0 {
        assert(s.take(pat.len() as int) =~= pat);
        assert(s.skip(pat.len() as int) =~= b);
        assert(a + rep + replace_all(b, pat, rep) =~= rep + replace_all(b, pat, rep));
    } else {
        let z: int = 0;
        assert(s.subrange(z, z + pat.len()) != pat);
        assert(s.take(pat.len() as int) =~= s.subrange(z, z + pat.len()));
        let a1 = a.drop_first();
        assert(s.skip(1) =~= a1 + pat + b);
        assert forall|i: int| 0 <= i < a1.len() implies #[trigger] (a1 + pat + b).subrange(
            i,
            i + pat.len(),
        ) != pat by {
            assert((a1 + pat + b).subrange(i, i + pat.len()) =~= s.subrange(
                i + 1,
                i + 1 + pat.len(),
            ));
        }
        lemma_replace_leftmost(a1, pat, rep, b);
        assert(seq![s[0]] + (a1 + rep + replace_all(b, pat, rep)) =~= a + rep + replace_all(
            b,
            pat,
            rep,
        ));
    }
}

/// Text that is empty or begins and ends with a character that is not
/// white space is its own trim.
pub proof fn lemma_trim_fixed(s: Seq<char>)
    requires
        s.len() == 0 || (!is_white_space(s[0]) && !is_white_space(s.last())),
    ensures
        trim(s) == s,
{
}

/// Trimming twice is trimming once.
pub proof fn lemma_trim_idempotent(s: Seq<char>)
    ensures
        trim(trim(s)) == trim(s),
{
    lemma_trim_shape(s);
    lemma_trim_fixed(trim(s));
}

/// Text in which `pat` does not occur is left as it is by replacing `pat`.
pub proof fn lemma_replace_absent(s: Seq<char>, pat: Seq<char>, rep: Seq<char>)
    requires
        pat.len() > 0,
        !occurs_in(pat, s),
    ensures
        replace_all(s, pat, rep) == s,
    decreases s.len(),
{
    if s.len() >= pat.len() {
        let z: int = 0;
        assert(s.subrange(z, z + pat.len()) != pat);
        assert(s.take(pat.len() as int) =~= s.subrange(z, z + pat.len()));
        assert(!occurs_in(pat, s.skip(1))) by {
            assert forall|i: int|
                0 <= i && i + pat.len() <= s.skip(1).len() implies #[trigger] s.skip(1).subrange(
                i,
                i + pat.len(),
            ) != pat by {
                assert(s.skip(1).subrange(i, i + pat.len()) =~= s.subrange(i + 1, i + 1 + pat.len()));
            }
        }
        lemma_replace_absent(s.skip(1), pat, rep);
        assert(seq![s[0]] + s.skip(1) =~= s);
    }
}

/// Cutting text at a newline cuts its lines there.
pub proof fn lemma_split_lines_concat(a: Seq<char>, b: Seq<char>)
    ensures
        split_lines(a + seq!['\n'] + b) == split_lines(a) + split_lines(b),
    decreases b.len(),
{
    let s = a + seq!['\n'] + b;
    if b.len() == 0 {
        assert(s.drop_last() =~= a);
        assert(split_lines(a).push(Seq::<char>::empty()) =~= split_lines(a) + split_lines(b));
    } else {
        let b0 = b.drop_last();
        assert(s.drop_last() =~= a + seq!['\n'] + b0);
        lemma_split_lines_concat(a, b0);
        lemma_split_lines_nonempty(b0);
        if b.last() == '\n' {
            assert((split_lines(a) + split_lines(b0)).push(Seq::<char>::empty()) =~= split_lines(a)
                + split_lines(b0).push(Seq::<char>::empty()));
        } else {
            let x = split_lines(a) + split_lines(b0);
            let y = split_lines(b0);
            assert(x.last() == y.last());
            assert(x.update(x.len() - 1, x.last().push(b.last())) =~= split_lines(a) + y.update(
                y.len() - 1,
                y.last().push(b.last()),
            ));
        }
    }
}

/// The character of the decimal digit `d`.
pub open spec fn digit_char(d: int) -> char {
    if 0 <= d <= 9 {
        (('0' as u32) + d) as char
    } else {
        '?'
    }
}

/// `n` in decimal, without leading zeros, as `usize`'s `Display` writes it.
pub open spec fn decimal(n: nat) -> Seq<char>
    decreases n,
{
    if n < 10 {
        seq![digit_char(n as int)]
    } else {
        decimal(n / 10) + seq![digit_char((n % 10) as int)]
    }
}

/// The text of the decimal digit `d`.
fn digit_text(d: usize) -> (r: &'static str)
    requires
        d <= 9,
    ensures
        r@ == seq![digit_char(d as int)],
{
    proof {
        reveal_strlit("0");
        reveal_strlit("1");
        reveal_strlit("2");
        reveal_strlit("3");
        reveal_strlit("4");
        reveal_strlit("5");
        reveal_strlit("6");
        reveal_strlit("7");
        reveal_strlit("8");
        reveal_strlit("9");
    }
    let r = match d {
        0 => "0",
        1 => "1",
        2 => "2",
        3 => "3",
        4 => "4",
        5 => "5",
        6 => "6",
        7 => "7",
        8 => "8",
        _ => "9",
    };
    assert(r@ =~= seq![digit_char(d as int)]);
    r
}

/// `n` in decimal.
pub fn decimal_string(n: usize) -> (r: String)
    ensures
        r@ == decimal(n as nat),
    decreases n,
{
    if n < 10 {
        digit_text(n).to_owned()
    } else {
        let mut r = decimal_string(n / 10);
        r.append(digit_text(n % 10));
        r
    }
}

/// The characters of `s`, in order.
pub fn chars_of(s: &str) -> (v: Vec<char>)
    ensures
        v@ == s@,
{
    let mut v: Vec<char> = Vec::new();
    for c in it: s.chars()
        invariant
            v@ == it.seq().take(it.index() as int),
            it.seq() == s@,
    {
        v.push(c);
    }
    v
}

/// A copy of `v[start..end]`.
pub fn copy_range(v: &Vec<char>, start: usize, end: usize) -> (r: Vec<char>)
    requires
        start <= end <= v@.len(),
    ensures
        r@ == v@.subrange(start as int, end as int),
{
    let mut r: Vec<char> = Vec::new();
    let mut i = start;
    while i < end
        invariant
            start <= i <= end <= v@.len(),
            r@ == v@.subrange(start as int, i as int),
        decreases end - i,
    {
        r.push(v[i]);
        i = i + 1;
        assert(r@ =~= v@.subrange(start as int, i as int));
    }
    r
}

/// Whether the two character sequences are equal.
pub fn chars_eq(a: &Vec<char>, b: &Vec<char>) -> (r: bool)
    ensures
        r == (a@ == b@),
{
    if a.len() != b.len() {
        return false;
    }
    let mut i: usize = 0;
    while i < a.len()
        invariant
            a@.len() == b@.len(),
            i <= a@.len(),
            forall|k: int| 0 <= k < i ==> a@[k] == b@[k],
        decreases a@.len() - i,
    {
        if a[i] != b[i] {
            return false;
        }
        i = i + 1;
    }
    assert(a@ =~= b@);
    true
}

/// Whether `c` is white space.
pub fn char_is_white_space(c: char) -> (r: bool)
    ensures
        r == is_white_space(c),
{
    let u = c as u32;
    (0x9 <= u && u <= 0xd) || u == 0x20 || u == 0x85 || u == 0xa0 || u == 0x1680 || (0x2000 <= u
        && u <= 0x200a) || u == 0x2028 || u == 0x2029 || u == 0x202f || u == 0x205f || u == 0x3000
}

/// The bounds, within `v[start..end]`, of that window trimmed.
pub fn trim_bounds(v: &Vec<char>, start: usize, end: usize) -> (r: (usize, usize))
    requires
        start <= end <= v@.len(),
    ensures
        start <= r.0 <= r.1 <= end,
        v@.subrange(r.0 as int, r.1 as int) == trim(v@.subrange(start as int, end as int)),
{
    let mut lo = start;
    while lo < end && char_is_white_space(v[lo])
        invariant
            start <= lo <= end <= v@.len(),
            trim_start(v@.subrange(start as int, end as int)) == trim_start(
                v@.subrange(lo as int, end as int),
            ),
        decreases end - lo,
    {
        assert(v@.subrange(lo as int, end as int).drop_first() =~= v@.subrange(
            lo + 1,
            end as int,
        ));
        lo = lo + 1;
    }
    let mut hi = end;
    while hi > lo && char_is_white_space(v[hi - 1])
        invariant
            start <= lo <= hi <= end <= v@.len(),
            trim_start(v@.subrange(start as int, end as int)) == v@.subrange(lo as int, end as int),
            trim_end(v@.subrange(lo as int, end as int)) == trim_end(
                v@.subrange(lo as int, hi as int),
            ),
        decreases hi - lo,
    {
        assert(v@.subrange(lo as int, hi as int).drop_last() =~= v@.subrange(
            lo as int,
            hi - 1,
        ));
        hi = hi - 1;
    }
    (lo, hi)
}


/// Whether `pat` occurs in `t` at position `i`.
fn matches_at(t: &Vec<char>, i: usize, pat: &Vec<char>) -> (r: bool)
    requires
        i + pat@.len() <= t@.len(),
    ensures
        r == (t@.subrange(i as int, i + pat@.len()) == pat@),
{
    let m = pat.len();
    let mut k: usize = 0;
    while k < m
        invariant
            m == pat@.len(),
            i + m <= t@.len(),
            k <= m,
            i + m <= t.len(),
            forall|j: int| 0 <= j < k ==> t@[i + j] == pat@[j],
        decreases m - k,
    {
        if t[i + k] != pat[k] {
            assert(t@.subrange(i as int, i + m)[k as int] != pat@[k as int]);
            return false;
        }
        k = k + 1;
    }
    assert(t@.subrange(i as int, i + m) =~= pat@);
    true
}

/// `text` with every occurrence of `pat` replaced by `rep`, left to right.
pub fn replace(text: &str, pat: &Vec<char>, rep: &str) -> (r: String)
    requires
        pat@.len() > 0,
    ensures
        r@ == replace_all(text@, pat@, rep@),
{
    let t = chars_of(text);
    let n = t.len();
    let m = pat.len();
    let mut out = String::new();
    let mut seg: usize = 0;
    let mut i: usize = 0;
    assert(t@.skip(0) =~= t@);
    assert(t@.subrange(0, 0) =~= Seq::<char>::empty());
    assert(out@ + t@.subrange(0, 0) =~= Seq::<char>::empty());
    while i < n && m <= n - i
        invariant
            t@ == text@,
            n == t@.len(),
            m == pat@.len(),
            m > 0,
            seg <= i <= n,
            replace_all(text@, pat@, rep@) == out@ + t@.subrange(seg as int, i as int)
                + replace_all(t@.skip(i as int), pat@, rep@),
        decreases n - i,
    {
        let ghost rest = t@.skip(i as int);
        if matches_at(&t, i, pat) {
            assert(rest.take(m as int) =~= t@.subrange(i as int, i + m));
            assert(rest.skip(m as int) =~= t@.skip(i + m));
            let piece = text.substring_char(seg, i);
            out.append(piece);
            out.append(rep);
            i = i + m;
            seg = i;
            assert(t@.subrange(seg as int, i as int) =~= Seq::<char>::empty());
        } else {
            assert(rest.take(m as int) =~= t@.subrange(i as int, i + m));
            assert(rest.skip(1) =~= t@.skip(i + 1));
            assert(t@.subrange(seg as int, i + 1) =~= t@.subrange(seg as int, i as int).push(
                t@[i as int],
            ));
            i = i + 1;
        }
    }
    assert(replace_all(t@.skip(i as int), pat@, rep@) == t@.skip(i as int));
    assert(t@.subrange(seg as int, i as int) + t@.skip(i as int) =~= t@.subrange(
        seg as int,
        n as int,
    ));
    let tail = text.substring_char(seg, n);
    out.append(tail);
    out
}

} // verus!
