//! The named placeholders of a message, and those that a set of arguments
//! leaves unfilled.

use vstd::prelude::*;

use crate::text::{chars_eq, chars_of, copy_range};

verus! {

/// Whether `c` opens or closes a placeholder.
pub open spec fn is_brace(c: char) -> bool {
    c == '{' || c == '}'
}

/// Whether `i` is the position of the first brace in `s`.
pub open spec fn is_first_brace(s: Seq<char>, i: int) -> bool {
    &&& 0 <= i < s.len()
    &&& is_brace(s[i])
    &&& forall|k: int| 0 <= k < i ==> !is_brace(s[k])
}

/// The length of the name that `s` starts with, where the first brace of
/// `s` is a closing one; `None` otherwise.
pub open spec fn name_length(s: Seq<char>) -> Option<int> {
    if exists|i: int| is_first_brace(s, i) {
        let i = choose|i: int| is_first_brace(s, i);
        if s[i] == '}' {
            Some(i)
        } else {
            None
        }
    } else {
        None
    }
}

/// The names of the placeholders in `t`, in order: each `{name}` whose
/// name holds no brace, read from the left, a placeholder's text not being
/// read again. These are the places where `{name}` is replaced when an
/// argument `name` is given.
pub open spec fn placeholder_names(t: Seq<char>) -> Seq<Seq<char>>
    decreases t.len(),
{
    if t.len() == 0 {
        Seq::empty()
    } else if t[0] == '{' && name_length(t.skip(1)) is Some {
        let k = name_length(t.skip(1))->0;
        if 0 <= k && k + 2 <= t.len() {
            seq![t.subrange(1, 1 + k)] + placeholder_names(t.skip(k + 2))
        } else {
            Seq::empty()
        }
    } else {
        placeholder_names(t.skip(1))
    }
}

/// Whether an argument named `name` is given.
pub open spec fn has_argument(args: Seq<(Seq<char>, Seq<char>)>, name: Seq<char>) -> bool {
    exists|i: int| 0 <= i < args.len() && #[trigger] args[i].0 == name
}

/// The names, of those in `names`, for which no argument is given, in order.
pub open spec fn without_arguments(names: Seq<Seq<char>>, args: Seq<(Seq<char>, Seq<char>)>) -> Seq<
    Seq<char>,
>
    decreases names.len(),
{
    if names.len() == 0 {
        Seq::empty()
    } else {
        let init = without_arguments(names.drop_last(), args);
        if has_argument(args, names.last()) {
            init
        } else {
            init.push(names.last())
        }
    }
}

/// The placeholder that starts at `t[i]`, if one does: the end of its name.
fn placeholder_at(t: &Vec<char>, i: usize) -> (r: Option<usize>)
    requires
        i < t@.len(),
    ensures
        match r {
            Some(j) => {
                &&& t@[i as int] == '{'
                &&& name_length(t@.skip(i + 1)) == Some(j - (i + 1))
                &&& i < j < t@.len()
            },
            None => !(t@[i as int] == '{' && name_length(t@.skip(i + 1)) is Some),
        },
{
    let n = t.len();
    let ghost s = t@.skip(i + 1);
    if t[i] != '{' {
        return None;
    }
    let mut j = i + 1;
    while j < n && t[j] != '{' && t[j] != '}'
        invariant
            i < j <= n,
            n == t@.len(),
            s == t@.skip(i + 1),
            forall|k: int| i + 1 <= k < j ==> !is_brace(t@[k]),
        decreases n - j,
    {
        j = j + 1;
    }
    if j == n {
        assert(!exists|x: int| is_first_brace(s, x)) by {
            assert forall|x: int| !is_first_brace(s, x) by {
                if 0 <= x < s.len() {
                    assert(s[x] == t@[i + 1 + x]);
                }
            }
        }
        return None;
    }
    let ghost x = j - (i + 1);
    assert(is_first_brace(s, x)) by {
        assert forall|k: int| 0 <= k < x implies !is_brace(s[k]) by {
            assert(s[k] == t@[i + 1 + k]);
        }
    }
    assert((choose|y: int| is_first_brace(s, y)) == x) by {
        let y = choose|y: int| is_first_brace(s, y);
        assert(is_first_brace(s, y));
        if y < x {
            assert(s[y] == t@[i + 1 + y]);
        } else if x < y {
            assert(is_brace(s[x]));
        }
    }
    if t[j] == '}' {
        Some(j)
    } else {
        None
    }
}

/// The names of the placeholders of `template` for which `args` gives no
/// argument, in the order they stand in the template, each occurrence once.
pub fn unfilled_placeholders(template: &str, args: &[(&str, &str)]) -> (r: Vec<String>)
    ensures
        r@.map_values(|s: String| s@) == without_arguments(
            placeholder_names(template@),
            crate::catalog::arg_views(args@),
        ),
{
    let t = chars_of(template);
    let n = t.len();
    let ghost views = crate::catalog::arg_views(args@);
    let mut names: Vec<(usize, usize)> = Vec::new();
    let ghost mut found: Seq<Seq<char>> = Seq::empty();
    let mut i: usize = 0;
    assert(t@.skip(0) =~= t@);
    while i < n
        invariant
            n == t@.len(),
            t@ == template@,
            i <= n,
            found.len() == names@.len(),
            forall|k: int|
                #![trigger names@[k]]
                0 <= k < names@.len() ==> names@[k].0 <= names@[k].1 <= n && found[k]
                    == t@.subrange(names@[k].0 as int, names@[k].1 as int),
            placeholder_names(t@) == found + placeholder_names(t@.skip(i as int)),
        decreases n - i,
    {
        let ghost rest = t@.skip(i as int);
        assert(rest[0] == t@[i as int]);
        assert(rest.skip(1) =~= t@.skip(i + 1));
        match placeholder_at(&t, i) {
            Some(j) => {
                let ghost k = j - (i + 1);
                assert(rest.subrange(1, 1 + k) =~= t@.subrange(i + 1, j as int));
                assert(rest.skip(k + 2) =~= t@.skip(j + 1));
                proof {
                    assert(found.push(t@.subrange(i + 1, j as int)) + placeholder_names(
                        t@.skip(j + 1),
                    ) =~= found + (seq![t@.subrange(i + 1, j as int)] + placeholder_names(
                        t@.skip(j + 1),
                    )));
                    found = found.push(t@.subrange(i + 1, j as int));
                }
                let ghost old_names = names@;
                names.push((i + 1, j));
                assert(forall|q: int| 0 <= q < old_names.len() ==> names@[q] == old_names[q]);
                i = j + 1;
            },
            None => {
                i = i + 1;
            },
        }
    }
    assert(t@.skip(n as int).len() == 0);
    assert(found + Seq::<Seq<char>>::empty() =~= found);
    let mut r: Vec<String> = Vec::new();
    let mut m: usize = 0;
    assert(found.take(0) =~= Seq::<Seq<char>>::empty());
    assert(r@.map_values(|s: String| s@) =~= Seq::<Seq<char>>::empty());
    while m < names.len()
        invariant
            n == t@.len(),
            t@ == template@,
            m <= names@.len(),
            found.len() == names@.len(),
            found == placeholder_names(template@),
            views == crate::catalog::arg_views(args@),
            forall|k: int|
                #![trigger names@[k]]
                0 <= k < names@.len() ==> names@[k].0 <= names@[k].1 <= n && found[k]
                    == t@.subrange(names@[k].0 as int, names@[k].1 as int),
            r@.map_values(|s: String| s@) == without_arguments(found.take(m as int), views),
        decreases names@.len() - m,
    {
        let (a, b) = names[m];
        let name = copy_range(&t, a, b);
        assert(name@ == found[m as int]);
        let mut given = false;
        let mut q: usize = 0;
        while q < args.len()
            invariant
                q <= args@.len(),
                views == crate::catalog::arg_views(args@),
                given ==> has_argument(views, name@),
                !given ==> forall|p: int| 0 <= p < q ==> views[p].0 != name@,
            decreases args@.len() - q,
        {
            let (key, _) = args[q];
            let kc = chars_of(key);
            if chars_eq(&kc, &name) {
                given = true;
                assert(views[q as int].0 == name@);
            }
            q = q + 1;
        }
        assert(found.take(m + 1).drop_last() =~= found.take(m as int));
        assert(found.take(m + 1).last() == found[m as int]);
        if !given {
            let ghost before = r@;
            let s = template.substring_char(a, b).to_owned();
            r.push(s);
            assert(r@.map_values(|s: String| s@) =~= before.map_values(|s: String| s@).push(
                name@,
            ));
        }
        m = m + 1;
    }
    assert(found.take(names@.len() as int) =~= found);
    r
}

} // verus!
