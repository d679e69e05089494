//! Path templates and request paths, cut into segments at each `/`.
//!
//! A segment of a template that stands in braces, as in `/users/{user_id}`,
//! is a placeholder: it takes whatever the request holds at that place.

use vstd::prelude::*;
use crate::text::views;

verus! {

/// The place of the first `/` in `s`, or the length of `s` where it holds none.
pub open spec fn first_slash(s: Seq<char>) -> nat
    decreases s.len(),
{
    if s.len() == 0 || s[0] == '/' {
        0
    } else {
        1 + first_slash(s.skip(1))
    }
}

/// The pieces of `s` between its `/` characters, empty ones included.
pub open spec fn segments(s: Seq<char>) -> Seq<Seq<char>>
    decreases s.len(),
{
    let k = first_slash(s);
    if k >= s.len() {
        seq![s]
    } else {
        seq![s.take(k as int)] + segments(s.skip(k as int + 1))
    }
}

/// A segment that opens with `{` and closes with `}`.
pub open spec fn is_placeholder(segment: Seq<char>) -> bool {
    segment.len() >= 2 && segment[0] == '{' && segment.last() == '}'
}

/// The name between the braces of a placeholder.
pub open spec fn placeholder_name(segment: Seq<char>) -> Seq<char> {
    segment.subrange(1, segment.len() - 1)
}

/// The names of the placeholders among `segs`, in their order.
pub open spec fn placeholder_names(segs: Seq<Seq<char>>) -> Seq<Seq<char>>
    decreases segs.len(),
{
    if segs.len() == 0 {
        Seq::empty()
    } else if is_placeholder(segs.last()) {
        placeholder_names(segs.drop_last()).push(placeholder_name(segs.last()))
    } else {
        placeholder_names(segs.drop_last())
    }
}

/// A request path fits a template where both have as many segments, every
/// placeholder meets a segment that is not empty, and every other segment of
/// the template meets its equal.
pub open spec fn path_matches(template: Seq<Seq<char>>, path: Seq<Seq<char>>) -> bool {
    template.len() == path.len() && forall|i: int|
        0 <= i < template.len() ==> if is_placeholder(#[trigger] template[i]) {
            path[i].len() > 0
        } else {
            template[i] == path[i]
        }
}

/// What the request holds at the template's placeholders, in their order.
pub open spec fn captures(template: Seq<Seq<char>>, path: Seq<Seq<char>>) -> Seq<Seq<char>>
    decreases template.len(),
{
    if template.len() == 0 || path.len() != template.len() {
        Seq::empty()
    } else if is_placeholder(template.last()) {
        captures(template.drop_last(), path.drop_last()).push(path.last())
    } else {
        captures(template.drop_last(), path.drop_last())
    }
}

/// A template has as many captures as placeholders.
pub proof fn lemma_captures_len(template: Seq<Seq<char>>, path: Seq<Seq<char>>)
    requires
        template.len() == path.len(),
    ensures
        captures(template, path).len() == placeholder_names(template).len(),
    decreases template.len(),
{
    if template.len() > 0 {
        lemma_captures_len(template.drop_last(), path.drop_last());
    }
}

proof fn lemma_first_slash(s: Seq<char>, k: nat)
    requires
        k <= s.len(),
        forall|j: int| 0 <= j < k ==> s[j] != '/',
        k == s.len() || s[k as int] == '/',
    ensures
        first_slash(s) == k,
    decreases k,
{
    if k > 0 {
        lemma_first_slash(s.skip(1), (k - 1) as nat);
    }
}

/// Cuts `path` at each `/`.
pub fn split_path(path: &str) -> (segs: Vec<String>)
    ensures
        views(segs@) == segments(path@),
{
    let n = path.unicode_len();
    let mut segs: Vec<String> = Vec::new();
    let mut start: usize = 0;
    let mut i: usize = 0;
    proof {
        assert(path@.skip(0) =~= path@);
        assert(views(segs@) + segments(path@) =~= segments(path@));
    }
    while i < n
        invariant
            n == path@.len(),
            start <= i <= n,
            forall|j: int| start <= j < i ==> path@[j] != '/',
            segments(path@) == views(segs@) + segments(path@.skip(start as int)),
        decreases n - i,
    {
        if path.get_char(i) == '/' {
            let piece = String::from_str(path.substring_char(start, i));
            proof {
                let rest = path@.skip(start as int);
                lemma_first_slash(rest, (i - start) as nat);
                assert(rest.take(i - start) =~= path@.subrange(start as int, i as int));
                assert(rest.skip(i - start + 1) =~= path@.skip(i + 1));
                assert(views(segs@.push(piece)) =~= views(segs@).push(piece@));
                assert(views(segs@) + (seq![piece@] + segments(path@.skip(i + 1)))
                    =~= views(segs@).push(piece@) + segments(path@.skip(i + 1)));
            }
            segs.push(piece);
            start = i + 1;
        }
        i += 1;
    }
    let piece = String::from_str(path.substring_char(start, n));
    proof {
        let rest = path@.skip(start as int);
        lemma_first_slash(rest, (n - start) as nat);
        assert(rest =~= path@.subrange(start as int, n as int));
        assert(views(segs@.push(piece)) =~= views(segs@).push(piece@));
        assert(views(segs@) + seq![piece@] =~= views(segs@).push(piece@));
    }
    segs.push(piece);
    segs
}

/// The name in a placeholder, or `None` for any other segment.
pub fn placeholder_of(segment: &String) -> (name: Option<String>)
    ensures
        match name {
            Some(n) => is_placeholder(segment@) && n@ == placeholder_name(segment@),
            None => !is_placeholder(segment@),
        },
{
    let s = segment.as_str();
    let n = s.unicode_len();
    if n >= 2 && s.get_char(0) == '{' && s.get_char(n - 1) == '}' {
        Some(String::from_str(s.substring_char(1, n - 1)))
    } else {
        None
    }
}

/// The names of the placeholders of a template, in their order.
pub fn path_placeholders(template: &str) -> (names: Vec<String>)
    ensures
        views(names@) == placeholder_names(segments(template@)),
{
    let segs = split_path(template);
    let mut names: Vec<String> = Vec::new();
    let mut i: usize = 0;
    proof {
        assert(views(segs@).take(0) =~= Seq::<Seq<char>>::empty());
        assert(views(names@) =~= Seq::<Seq<char>>::empty());
    }
    while i < segs.len()
        invariant
            i <= segs.len(),
            views(names@) == placeholder_names(views(segs@).take(i as int)),
        decreases segs.len() - i,
    {
        proof {
            assert(views(segs@).take(i + 1).drop_last() =~= views(segs@).take(i as int));
        }
        match placeholder_of(&segs[i]) {
            Some(name) => {
                proof {
                    assert(views(names@.push(name)) =~= views(names@).push(name@));
                }
                names.push(name);
            },
            None => {},
        }
        i += 1;
    }
    proof {
        assert(views(segs@).take(segs.len() as int) =~= views(segs@));
    }
    names
}

/// The number of placeholders among the segments of a template.
pub fn count_placeholders(template: &Vec<String>) -> (n: usize)
    ensures
        n == placeholder_names(views(template@)).len(),
{
    let mut n: usize = 0;
    let mut i: usize = 0;
    proof {
        assert(views(template@).take(0) =~= Seq::<Seq<char>>::empty());
    }
    while i < template.len()
        invariant
            i <= template.len(),
            n <= i,
            n == placeholder_names(views(template@).take(i as int)).len(),
        decreases template.len() - i,
    {
        proof {
            assert(views(template@).take(i + 1).drop_last() =~= views(template@).take(i as int));
        }
        if placeholder_of(&template[i]).is_some() {
            n += 1;
        }
        i += 1;
    }
    proof {
        assert(views(template@).take(template.len() as int) =~= views(template@));
    }
    n
}

/// Holds a request path against a template: what the placeholders take, or
/// `None` where the path does not fit.
pub fn match_path(template: &Vec<String>, path: &Vec<String>) -> (taken: Option<Vec<String>>)
    ensures
        match taken {
            Some(values) => path_matches(views(template@), views(path@)) && views(values@)
                == captures(views(template@), views(path@)),
            None => !path_matches(views(template@), views(path@)),
        },
{
    if template.len() != path.len() {
        return None;
    }
    let mut values: Vec<String> = Vec::new();
    let mut i: usize = 0;
    proof {
        assert(views(values@) =~= Seq::<Seq<char>>::empty());
    }
    while i < template.len()
        invariant
            i <= template.len(),
            template.len() == path.len(),
            path_matches(views(template@).take(i as int), views(path@).take(i as int)),
            views(values@) == captures(views(template@).take(i as int), views(path@).take(i as int)),
        decreases template.len() - i,
    {
        let ghost t = views(template@);
        let ghost p = views(path@);
        proof {
            assert(t.take(i + 1).drop_last() =~= t.take(i as int));
            assert(p.take(i + 1).drop_last() =~= p.take(i as int));
        }
        match placeholder_of(&template[i]) {
            Some(_name) => {
                if path[i].as_str().unicode_len() == 0 {
                    assert(is_placeholder(t[i as int]));
                    return None;
                }
                let value = path[i].clone();
                proof {
                    assert(views(values@.push(value)) =~= views(values@).push(value@));
                }
                values.push(value);
            },
            None => {
                if template[i] != path[i] {
                    assert(!is_placeholder(t[i as int]));
                    return None;
                }
            },
        }
        proof {
            assert forall|k: int| 0 <= k < i + 1 implies if is_placeholder(
                #[trigger] t.take(i + 1)[k],
            ) {
                p.take(i + 1)[k].len() > 0
            } else {
                t.take(i + 1)[k] == p.take(i + 1)[k]
            } by {
                if k < i {
                    assert(t.take(i as int)[k] == t[k]);
                }
            }
        }
        i += 1;
    }
    proof {
        assert(views(template@).take(template.len() as int) =~= views(template@));
        assert(views(path@).take(path.len() as int) =~= views(path@));
    }
    Some(values)
}

} // verus!
