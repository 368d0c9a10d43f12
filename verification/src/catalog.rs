//! Message catalogs: the `key = value` resource format, lookup of a message
//! by its key, and interpolation of named `{name}` arguments.

use vstd::prelude::*;

use crate::text::{
    chars_eq, chars_of, copy_range, is_white_space, lemma_replace_absent, lemma_replace_leftmost,
    lemma_split_lines_concat, lemma_split_lines_single, lemma_trim_idempotent, lemma_trim_margins,
    lemma_trim_shape, occurs_in, replace, replace_all, split_lines, trim, trim_bounds,
};

verus! {

/// Whether `i` is the position of the first `c` in `s`.
pub open spec fn is_first_index(s: Seq<char>, c: char, i: int) -> bool {
    &&& 0 <= i < s.len()
    &&& s[i] == c
    &&& forall|k: int| 0 <= k < i ==> s[k] != c
}

/// `s` split around its first `c`, as `str::split_once` does with a
/// character pattern; `None` where `c` does not occur.
pub open spec fn split_once(s: Seq<char>, c: char) -> Option<(Seq<char>, Seq<char>)> {
    if exists|i: int| is_first_index(s, c, i) {
        let i = choose|i: int| is_first_index(s, c, i);
        Some((s.take(i), s.skip(i + 1)))
    } else {
        None
    }
}

/// The entry that one line of a resource defines: none for a line that is
/// blank or starts with `#` once trimmed, or that holds no `=`; otherwise
/// the trimmed text before the first `=` as the key and the trimmed text
/// after it as the value.
pub open spec fn parse_line(line: Seq<char>) -> Option<(Seq<char>, Seq<char>)> {
    let t = trim(line);
    if t.len() == 0 || t[0] == '#' {
        None
    } else {
        match split_once(t, '=') {
            Some((k, v)) => Some((trim(k), trim(v))),
            None => None,
        }
    }
}

/// The entries that a sequence of lines defines, in the order of the lines.
pub open spec fn line_entries(lines: Seq<Seq<char>>) -> Seq<(Seq<char>, Seq<char>)>
    decreases lines.len(),
{
    if lines.len() == 0 {
        Seq::empty()
    } else {
        let init = line_entries(lines.drop_last());
        match parse_line(lines.last()) {
            Some(e) => init.push(e),
            None => init,
        }
    }
}

/// The map that a sequence of entries gives when they are inserted in
/// order: where a key occurs twice, the later entry wins.
pub open spec fn entries_map(es: Seq<(Seq<char>, Seq<char>)>) -> Map<Seq<char>, Seq<char>>
    decreases es.len(),
{
    if es.len() == 0 {
        Map::empty()
    } else {
        entries_map(es.drop_last()).insert(es.last().0, es.last().1)
    }
}

/// The messages that a resource text defines.
///
/// The text is cut at each newline. Where `str::lines` differs from that cut
/// (a final empty piece after a trailing newline, a `\r` before a newline),
/// the piece concerned is white space or ends in white space, so it gives
/// the same entry, or none, once trimmed.
pub open spec fn resource_messages(contents: Seq<char>) -> Map<Seq<char>, Seq<char>> {
    entries_map(line_entries(split_lines(contents)))
}

/// The text that stands for the argument `name` in a message: `{name}`.
pub open spec fn placeholder(name: Seq<char>) -> Seq<char> {
    seq!['{'] + name + seq!['}']
}

/// `template` with the named arguments put in, one after the other: each
/// `{name}` is replaced by the value given for `name`, and placeholders for
/// which no argument is given are left as they are.
pub open spec fn interpolate(template: Seq<char>, args: Seq<(Seq<char>, Seq<char>)>) -> Seq<char>
    decreases args.len(),
{
    if args.len() == 0 {
        template
    } else {
        replace_all(interpolate(template, args.drop_last()), placeholder(args.last().0), args.last().1)
    }
}

/// The arguments of a message as plain values.
pub open spec fn arg_views(args: Seq<(&str, &str)>) -> Seq<(Seq<char>, Seq<char>)> {
    args.map_values(|a: (&str, &str)| (a.0@, a.1@))
}

/// A set of messages, each found by its key.
#[derive(Clone, Debug)]
pub struct Catalog {
    entries: Vec<(Vec<char>, String)>,
}

impl Catalog {
    /// The entries as plain values, in the order they were added.
    pub closed spec fn entry_views(self) -> Seq<(Seq<char>, Seq<char>)> {
        self.entries@.map_values(|e: (Vec<char>, String)| (e.0@, e.1@))
    }
}

impl View for Catalog {
    type V = Map<Seq<char>, Seq<char>>;

    closed spec fn view(&self) -> Map<Seq<char>, Seq<char>> {
        entries_map(self.entry_views())
    }
}

impl Default for Catalog {
    fn default() -> (c: Catalog)
        ensures
            c@ == Map::<Seq<char>, Seq<char>>::empty(),
    {
        let c = Catalog { entries: Vec::new() };
        assert(c.entry_views() =~= Seq::empty());
        c
    }
}

/// The entry that the line `contents[start..end]` defines.
fn parse_line_at(contents: &str, v: &Vec<char>, start: usize, end: usize) -> (r: Option<
    (Vec<char>, String),
>)
    requires
        v@ == contents@,
        start <= end <= v@.len(),
    ensures
        match r {
            Some(e) => parse_line(v@.subrange(start as int, end as int)) == Some((e.0@, e.1@)),
            None => parse_line(v@.subrange(start as int, end as int)) is None,
        },
{
    let ghost line = v@.subrange(start as int, end as int);
    let (lo, hi) = trim_bounds(v, start, end);
    let ghost t = v@.subrange(lo as int, hi as int);
    if lo == hi || v[lo] == '#' {
        return None;
    }
    let mut j = lo;
    while j < hi && v[j] != '='
        invariant
            lo <= j <= hi <= v@.len(),
            forall|k: int| lo <= k < j ==> v@[k] != '=',
        decreases hi - j,
    {
        j = j + 1;
    }
    if j == hi {
        assert(!exists|i: int| is_first_index(t, '=', i)) by {
            assert forall|i: int| !is_first_index(t, '=', i) by {
                if 0 <= i < t.len() {
                    assert(t[i] == v@[lo + i]);
                }
            }
        }
        return None;
    }
    let ghost i = j - lo;
    assert(is_first_index(t, '=', i));
    assert(t.take(i) =~= v@.subrange(lo as int, j as int));
    assert(t.skip(i + 1) =~= v@.subrange(j + 1, hi as int));
    assert(split_once(t, '=') == Some((t.take(i), t.skip(i + 1)))) by {
        let i2 = choose|i2: int| is_first_index(t, '=', i2);
        assert(is_first_index(t, '=', i2));
        if i2 < i {
            assert(t[i2] == '=');
        } else if i < i2 {
            assert(t[i] == '=');
        }
    }
    let (klo, khi) = trim_bounds(v, lo, j);
    let (vlo, vhi) = trim_bounds(v, j + 1, hi);
    let key = copy_range(v, klo, khi);
    let value = contents.substring_char(vlo, vhi).to_owned();
    Some((key, value))
}

impl Catalog {
    /// Reads a resource: one `key = value` message per line; blank lines,
    /// lines that start with `#` and lines without `=` are skipped; keys and
    /// values are trimmed; a key defined twice keeps its last value.
    pub fn parse(contents: &str) -> (c: Catalog)
        ensures
            c@ == resource_messages(contents@),
    {
        let v = chars_of(contents);
        let n = v.len();
        let mut entries: Vec<(Vec<char>, String)> = Vec::new();
        let mut start: usize = 0;
        let mut i: usize = 0;
        let ghost mut done: Seq<Seq<char>> = Seq::empty();
        assert(v@.take(0) =~= Seq::<char>::empty());
        assert(split_lines(v@.take(0)) =~= done.push(v@.subrange(0, 0)));
        assert(entries@.map_values(|e: (Vec<char>, String)| (e.0@, e.1@)) =~= Seq::empty());
        while i < n
            invariant
                v@ == contents@,
                n == v@.len(),
                start <= i <= n,
                split_lines(v@.take(i as int)) == done.push(v@.subrange(start as int, i as int)),
                entries@.map_values(|e: (Vec<char>, String)| (e.0@, e.1@)) == line_entries(done),
            decreases n - i,
        {
            let ghost prev = v@.take(i as int);
            assert(v@.take(i + 1).drop_last() =~= prev);
            assert(v@.take(i + 1).last() == v@[i as int]);
            if v[i] == '\n' {
                let ghost line = v@.subrange(start as int, i as int);
                let ghost old_entries = entries@;
                match parse_line_at(contents, &v, start, i) {
                    Some(e) => {
                        entries.push(e);
                        assert(entries@.map_values(|e: (Vec<char>, String)| (e.0@, e.1@))
                            =~= old_entries.map_values(|e: (Vec<char>, String)| (e.0@, e.1@)).push(
                            (e.0@, e.1@),
                        ));
                    },
                    None => {},
                }
                proof {
                    assert(done.push(line).drop_last() =~= done);
                    done = done.push(line);
                }
                start = i + 1;
                assert(v@.subrange(start as int, i + 1) =~= Seq::<char>::empty());
            } else {
                assert(v@.subrange(start as int, i + 1) =~= v@.subrange(start as int, i as int).push(
                    v@[i as int],
                ));
                assert(done.push(v@.subrange(start as int, i as int)).update(
                    done.len() as int,
                    v@.subrange(start as int, i + 1),
                ) =~= done.push(v@.subrange(start as int, i + 1)));
            }
            i = i + 1;
        }
        assert(v@.take(n as int) =~= v@);
        let ghost last = v@.subrange(start as int, n as int);
        let ghost old_entries = entries@;
        match parse_line_at(contents, &v, start, n) {
            Some(e) => {
                entries.push(e);
                assert(entries@.map_values(|e: (Vec<char>, String)| (e.0@, e.1@))
                    =~= old_entries.map_values(|e: (Vec<char>, String)| (e.0@, e.1@)).push(
                    (e.0@, e.1@),
                ));
            },
            None => {},
        }
        assert(done.push(last).drop_last() =~= done);
        Catalog { entries }
    }
}


impl Catalog {
    /// The position of the last entry with key `key`, which holds the value
    /// that the catalog gives for it.
    fn position(&self, key: &str) -> (r: Option<usize>)
        ensures
            match r {
                Some(i) => {
                    &&& i < self.entry_views().len()
                    &&& self@.dom().contains(key@)
                    &&& self@[key@] == self.entry_views()[i as int].1
                },
                None => !self@.dom().contains(key@),
            },
    {
        let k = chars_of(key);
        let ghost es = self.entry_views();
        let mut i = self.entries.len();
        assert(es.take(i as int) =~= es);
        while i > 0
            invariant
                es == self.entry_views(),
                i <= es.len(),
                k@ == key@,
                entries_map(es.take(i as int)).dom().contains(key@) == entries_map(
                    es,
                ).dom().contains(key@),
                entries_map(es).dom().contains(key@) ==> entries_map(es.take(i as int))[key@]
                    == entries_map(es)[key@],
            decreases i,
        {
            assert(es.take(i as int).drop_last() =~= es.take(i - 1));
            assert(es.take(i as int).last() == es[i - 1]);
            if chars_eq(&self.entries[i - 1].0, &k) {
                return Some(i - 1);
            }
            i = i - 1;
        }
        None
    }

    /// Whether the catalog holds a message for `key`.
    pub fn contains(&self, key: &str) -> (r: bool)
        ensures
            r == self@.dom().contains(key@),
    {
        self.position(key).is_some()
    }

    /// The message for `key`, if the catalog holds one.
    pub fn get(&self, key: &str) -> (r: Option<&str>)
        ensures
            match r {
                Some(m) => self@.dom().contains(key@) && m@ == self@[key@],
                None => !self@.dom().contains(key@),
            },
    {
        match self.position(key) {
            Some(i) => Some(self.entries[i].1.as_str()),
            None => None,
        }
    }
}


/// Each argument, the last one too, is put into the text that the arguments
/// before it give: every `{name}` of the last argument is then replaced by
/// its value, whatever the number of arguments.
pub proof fn lemma_interpolate_last_argument(template: Seq<char>, args: Seq<(Seq<char>, Seq<char>)>)
    requires
        args.len() > 0,
    ensures
        interpolate(template, Seq::empty()) == template,
        interpolate(template, args) == replace_all(
            interpolate(template, args.drop_last()),
            seq!['{'] + args[args.len() - 1].0 + seq!['}'],
            args[args.len() - 1].1,
        ),
        interpolate(template, args.take(1)) == replace_all(
            template,
            seq!['{'] + args[0].0 + seq!['}'],
            args[0].1,
        ),
{
    let first = args.take(1);
    assert(first.drop_last() =~= Seq::<(Seq<char>, Seq<char>)>::empty());
    assert(interpolate(template, first.drop_last()) == template);
    assert(first.last() == args[0]);
    assert(placeholder(args[0].0) == seq!['{'] + args[0].0 + seq!['}']);
}

/// A message holding the placeholder `{name}` once, with one argument
/// `name`: the placeholder is replaced by the value and the rest of the
/// message is kept.
pub proof fn lemma_interpolate_one_argument(
    before: Seq<char>,
    name: Seq<char>,
    after: Seq<char>,
    value: Seq<char>,
)
    requires
        !occurs_in(seq!['{'] + name + seq!['}'], before + seq!['{'] + name),
        !occurs_in(seq!['{'] + name + seq!['}'], after),
    ensures
        interpolate(before + (seq!['{'] + name + seq!['}']) + after, seq![(name, value)]) == before
            + value + after,
{
    let p = seq!['{'] + name + seq!['}'];
    let s = before + p + after;
    let head = before + seq!['{'] + name;
    assert(head.len() + 1 == before.len() + p.len());
    assert(head =~= s.subrange(0, head.len() as int));
    assert forall|i: int| 0 <= i < before.len() implies #[trigger] s.subrange(i, i + p.len())
        != p by {
        assert(head.subrange(i, i + p.len()) =~= s.subrange(i, i + p.len()));
        assert(!(head.subrange(i, i + p.len()) == p));
    }
    lemma_replace_leftmost(before, p, value, after);
    lemma_replace_absent(after, p, value);
    let args = seq![(name, value)];
    assert(args.drop_last() =~= Seq::<(Seq<char>, Seq<char>)>::empty());
    assert(args.last() == (name, value));
    assert(interpolate(s, args.drop_last()) == s);
}

/// The characters of `{name}`.
fn placeholder_chars(name: &str) -> (r: Vec<char>)
    ensures
        r@ == placeholder(name@),
{
    let inner = chars_of(name);
    let mut r: Vec<char> = Vec::new();
    r.push('{');
    let mut i: usize = 0;
    while i < inner.len()
        invariant
            i <= inner@.len(),
            r@ == seq!['{'] + inner@.take(i as int),
        decreases inner@.len() - i,
    {
        r.push(inner[i]);
        i = i + 1;
        assert(r@ =~= seq!['{'] + inner@.take(i as int));
    }
    r.push('}');
    assert(inner@.take(i as int) =~= name@);
    assert(r@ =~= placeholder(name@));
    r
}

/// `template` with the named arguments put in, in the order given.
pub fn format_template(template: &str, args: &[(&str, &str)]) -> (r: String)
    ensures
        r@ == interpolate(template@, arg_views(args@)),
{
    let mut output = template.to_owned();
    let mut i: usize = 0;
    assert(arg_views(args@).take(0) =~= Seq::empty());
    while i < args.len()
        invariant
            i <= args@.len(),
            output@ == interpolate(template@, arg_views(args@).take(i as int)),
        decreases args@.len() - i,
    {
        let (name, value) = args[i];
        let pat = placeholder_chars(name);
        assert(arg_views(args@).take(i + 1).drop_last() =~= arg_views(args@).take(i as int));
        output = replace(output.as_str(), &pat, value);
        i = i + 1;
    }
    assert(arg_views(args@).take(i as int) =~= arg_views(args@));
    output
}

impl Catalog {
    /// The message for `key` with the named arguments put in, if the catalog
    /// holds a message for `key`.
    pub fn format(&self, key: &str, args: &[(&str, &str)]) -> (r: Option<String>)
        ensures
            match r {
                Some(m) => self@.dom().contains(key@) && m@ == interpolate(
                    self@[key@],
                    arg_views(args@),
                ),
                None => !self@.dom().contains(key@),
            },
    {
        let template = self.get(key)?;
        Some(format_template(template, args))
    }
}


/// A message is left as it is by arguments whose placeholders it does not
/// hold; in particular by no arguments at all.
pub proof fn lemma_interpolate_keeps_unfilled(template: Seq<char>, args: Seq<(Seq<char>, Seq<char>)>)
    requires
        forall|i: int| 0 <= i < args.len() ==> !occurs_in(placeholder(#[trigger] args[i].0), template),
    ensures
        interpolate(template, args) == template,
    decreases args.len(),
{
    if args.len() > 0 {
        lemma_interpolate_keeps_unfilled(template, args.drop_last());
        assert(!occurs_in(placeholder(args[args.len() - 1].0), template));
        lemma_replace_absent(template, placeholder(args.last().0), args.last().1);
    }
}

/// The entries of consecutive lines are those of the first lines followed
/// by those of the others.
proof fn lemma_line_entries_concat(x: Seq<Seq<char>>, y: Seq<Seq<char>>)
    ensures
        line_entries(x + y) == line_entries(x) + line_entries(y),
    decreases y.len(),
{
    if y.len() == 0 {
        assert(x + y =~= x);
        assert(line_entries(x) + line_entries(y) =~= line_entries(x));
    } else {
        assert((x + y).drop_last() =~= x + y.drop_last());
        lemma_line_entries_concat(x, y.drop_last());
        match parse_line(y.last()) {
            Some(e) => {
                assert((line_entries(x) + line_entries(y.drop_last())).push(e) =~= line_entries(x)
                    + line_entries(y.drop_last()).push(e));
            },
            None => {},
        }
    }
}

/// Inserting entries one after another: the later ones win.
proof fn lemma_entries_map_concat(x: Seq<(Seq<char>, Seq<char>)>, y: Seq<(Seq<char>, Seq<char>)>)
    ensures
        entries_map(x + y) == entries_map(x).union_prefer_right(entries_map(y)),
    decreases y.len(),
{
    if y.len() == 0 {
        assert(x + y =~= x);
        assert(entries_map(x).union_prefer_right(entries_map(y)) =~= entries_map(x));
    } else {
        assert((x + y).drop_last() =~= x + y.drop_last());
        lemma_entries_map_concat(x, y.drop_last());
        assert(entries_map(x).union_prefer_right(entries_map(y.drop_last())).insert(
            y.last().0,
            y.last().1,
        ) =~= entries_map(x).union_prefer_right(entries_map(y)));
    }
}

/// A resource of one line `k = v` defines exactly one message: `v` trimmed,
/// under the key `k` trimmed, whatever `v` holds besides newlines (`=`,
/// `#`, commas and the like are part of the message). The key holds no `=`
/// and does not start with `#` once trimmed.
pub proof fn lemma_single_line_resource(k: Seq<char>, v: Seq<char>)
    requires
        !k.contains('='),
        !k.contains('\n'),
        !v.contains('\n'),
        trim(k).len() == 0 || trim(k)[0] != '#',
    ensures
        resource_messages(k + seq!['='] + v) == map![trim(k) => trim(v)],
{
    let line = k + seq!['='] + v;
    let kl = k.len() as int;
    assert(!line.contains('\n')) by {
        assert forall|m: int| 0 <= m < line.len() implies line[m] != '\n' by {
            if m < kl {
                assert(line[m] == k[m]);
            } else if m > kl {
                assert(line[m] == v[m - kl - 1]);
            }
        }
    }
    lemma_split_lines_single(line);
    let (i, j) = lemma_trim_shape(line);
    let t = trim(line);
    assert(line[kl] == '=');
    assert(!is_white_space('='));
    assert(i <= kl < j);
    assert(t[0] == line[i]);
    // The key part: the characters of `k` from the first that is not white space.
    let kp = k.subrange(i, kl);
    assert forall|m: int| 0 <= m < i implies is_white_space(k[m]) by {
        assert(line[m] == k[m]);
    }
    lemma_trim_margins(k, i, kl);
    if i < kl {
        assert(line[i] == k[i]);
        let (a, b) = lemma_trim_shape(kp);
        assert(kp[0] == k[i]);
        if a > 0 {
            assert(is_white_space(kp[0]));
        }
        if a == b {
            assert(is_white_space(kp[0]));
        }
        assert(trim(k)[0] == k[i]);
    }
    assert(t[0] != '#');
    // The first `=` of the trimmed line is the one after `k`.
    let x = kl - i;
    assert(is_first_index(t, '=', x)) by {
        assert forall|y: int| 0 <= y < x implies t[y] != '=' by {
            assert(t[y] == line[i + y]);
            assert(line[i + y] == k[i + y]);
        }
    }
    assert(split_once(t, '=') == Some((t.take(x), t.skip(x + 1)))) by {
        let y = choose|y: int| is_first_index(t, '=', y);
        assert(is_first_index(t, '=', y));
        if y < x {
            assert(t[y] == '=');
        } else if x < y {
            assert(t[x] == '=');
        }
    }
    assert(t.take(x) =~= kp);
    // The value part: `v` up to the trailing white space of the line.
    let vl = j - kl - 1;
    let vp = v.subrange(0, vl);
    assert(t.skip(x + 1) =~= vp);
    assert forall|m: int| vl <= m < v.len() implies is_white_space(v[m]) by {
        assert(v[m] == line[kl + 1 + m]);
    }
    lemma_trim_margins(v, 0, vl);
    assert(parse_line(line) == Some((trim(k), trim(v))));
    let e = (trim(k), trim(v));
    let lines = seq![line];
    assert(lines.drop_last() =~= Seq::<Seq<char>>::empty());
    assert(line_entries(lines.drop_last()) == Seq::<(Seq<char>, Seq<char>)>::empty());
    assert(lines.last() == line);
    assert(line_entries(lines) == Seq::<(Seq<char>, Seq<char>)>::empty().push(e));
    assert(line_entries(lines) =~= seq![e]);
    let es = seq![e];
    assert(es.drop_last() =~= Seq::<(Seq<char>, Seq<char>)>::empty());
    assert(entries_map(es.drop_last()) == Map::<Seq<char>, Seq<char>>::empty());
    assert(es.last() == e);
    assert(entries_map(es) =~= map![trim(k) => trim(v)]);
}

/// Two resources joined by a newline define the messages of the first,
/// overridden by those of the second where both define a key.
pub proof fn lemma_joined_resources(a: Seq<char>, b: Seq<char>)
    ensures
        resource_messages(a + seq!['\n'] + b) == resource_messages(a).union_prefer_right(
            resource_messages(b),
        ),
{
    lemma_split_lines_concat(a, b);
    lemma_line_entries_concat(split_lines(a), split_lines(b));
    lemma_entries_map_concat(line_entries(split_lines(a)), line_entries(split_lines(b)));
}

/// Keys and messages as a resource gives them: trimmed, and keys free of `=`.
pub open spec fn well_shaped(key: Seq<char>, message: Seq<char>) -> bool {
    &&& trim(key) == key
    &&& trim(message) == message
    &&& !key.contains('=')
}

proof fn lemma_parse_line_well_shaped(line: Seq<char>)
    ensures
        parse_line(line) matches Some(e) ==> well_shaped(e.0, e.1),
{
    let t = trim(line);
    if t.len() > 0 && t[0] != '#' && exists|i: int| is_first_index(t, '=', i) {
        let i = choose|i: int| is_first_index(t, '=', i);
        let before = t.take(i);
        let k = trim(before);
        lemma_trim_idempotent(before);
        lemma_trim_idempotent(t.skip(i + 1));
        let (r0, r1) = lemma_trim_shape(before);
        assert(!k.contains('=')) by {
            assert forall|j: int| 0 <= j < k.len() implies k[j] != '=' by {
                assert(k[j] == before[r0 + j]);
                assert(before[r0 + j] == t[r0 + j]);
            }
        }
    }
}

proof fn lemma_line_entries_well_shaped(lines: Seq<Seq<char>>)
    ensures
        forall|j: int|
            0 <= j < line_entries(lines).len() ==> well_shaped(
                #[trigger] line_entries(lines)[j].0,
                line_entries(lines)[j].1,
            ),
    decreases lines.len(),
{
    if lines.len() > 0 {
        let init = line_entries(lines.drop_last());
        lemma_line_entries_well_shaped(lines.drop_last());
        lemma_parse_line_well_shaped(lines.last());
        assert forall|j: int| 0 <= j < line_entries(lines).len() implies well_shaped(
            #[trigger] line_entries(lines)[j].0,
            line_entries(lines)[j].1,
        ) by {
            if j < init.len() {
                assert(line_entries(lines)[j] == init[j]);
            }
        }
    }
}

proof fn lemma_entries_map_well_shaped(es: Seq<(Seq<char>, Seq<char>)>)
    requires
        forall|j: int| 0 <= j < es.len() ==> well_shaped(#[trigger] es[j].0, es[j].1),
    ensures
        forall|k: Seq<char>| #[trigger]
            entries_map(es).dom().contains(k) ==> well_shaped(k, entries_map(es)[k]),
    decreases es.len(),
{
    if es.len() > 0 {
        let init = es.drop_last();
        assert forall|j: int| 0 <= j < init.len() implies well_shaped(
            #[trigger] init[j].0,
            init[j].1,
        ) by {
            assert(init[j] == es[j]);
        }
        lemma_entries_map_well_shaped(init);
        let last = es[es.len() - 1];
        assert(well_shaped(last.0, last.1));
        assert forall|k: Seq<char>| #[trigger]
            entries_map(es).dom().contains(k) implies well_shaped(k, entries_map(es)[k]) by {
            if k != last.0 {
                assert(entries_map(init).dom().contains(k));
            }
        }
    }
}

/// Every key that a resource defines is trimmed and holds no `=`, and every
/// message it defines is trimmed.
pub proof fn lemma_resource_messages_well_shaped(contents: Seq<char>)
    ensures
        forall|k: Seq<char>| #[trigger]
            resource_messages(contents).dom().contains(k) ==> well_shaped(
                k,
                resource_messages(contents)[k],
            ),
{
    lemma_line_entries_well_shaped(split_lines(contents));
    lemma_entries_map_well_shaped(line_entries(split_lines(contents)));
}

} // verus!
