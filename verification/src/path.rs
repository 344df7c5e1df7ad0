//! Path grammar: a path is text split on `/` into components.
//!
//! Repeated and trailing separators are ignored and a `.` segment is dropped
//! unless it leads a relative path. A leading `/` is the root component.
//! Nothing else is normalised: `..` stays a component of its own.

use vstd::prelude::*;
use vstd::string::*;

verus! {

/// The separator between path segments.
pub open spec fn is_sep(c: char) -> bool {
    c == '/'
}

/// The segment `.`.
pub open spec fn dot() -> Seq<char> {
    seq!['.']
}

/// The segment `..`.
pub open spec fn dot_dot() -> Seq<char> {
    seq!['.', '.']
}

/// The name of the root component.
pub open spec fn root_name() -> Seq<char> {
    seq!['/']
}

/// The non-empty maximal runs of non-separator characters of `s`, in order.
pub open spec fn segments(s: Seq<char>) -> Seq<Seq<char>>
    decreases s.len(),
{
    if s.len() == 0 {
        Seq::empty()
    } else {
        let before = segments(s.drop_last());
        if is_sep(s.last()) {
            before
        } else if s.len() >= 2 && !is_sep(s[s.len() - 2]) {
            before.drop_last().push(before.last().push(s.last()))
        } else {
            before.push(seq![s.last()])
        }
    }
}

/// What `segments` is on a prefix of `s` that ends inside or just after a
/// run starting at `start`.
spec fn segments_with_run(done: Seq<Seq<char>>, s: Seq<char>, start: int, i: int) -> Seq<
    Seq<char>,
> {
    if start < i {
        done.push(s.subrange(start, i))
    } else {
        done
    }
}

proof fn lemma_segments_step(done: Seq<Seq<char>>, s: Seq<char>, start: int, i: int)
    requires
        0 <= start <= i < s.len(),
        start == 0 || is_sep(s[start - 1]),
        forall|k: int| start <= k < i ==> !is_sep(s[k]),
        segments(s.take(i)) == segments_with_run(done, s, start, i),
    ensures
        is_sep(s[i]) ==> segments(s.take(i + 1)) == segments_with_run(done, s, start, i),
        !is_sep(s[i]) ==> segments(s.take(i + 1)) == segments_with_run(done, s, start, i + 1),
{
    let t = s.take(i + 1);
    assert(t.drop_last() =~= s.take(i));
    assert(t.last() == s[i]);
    if !is_sep(s[i]) {
        if start < i {
            assert(t[t.len() - 2] == s[i - 1]);
            let before = segments(s.take(i));
            assert(before.last() == s.subrange(start, i));
            assert(before.drop_last() =~= done);
            assert(s.subrange(start, i).push(s[i]) =~= s.subrange(start, i + 1));
        } else {
            assert(seq![s[i]] =~= s.subrange(start, i + 1));
            if i >= 1 {
                assert(t[t.len() - 2] == s[i - 1]);
            }
        }
    }
}

/// Splits `path` into its segments.
pub fn split_segments(path: &str) -> (out: Vec<String>)
    ensures
        out.deep_view() == segments(path@),
{
    let n: usize = path.unicode_len();
    let mut out: Vec<String> = Vec::new();
    let mut start: usize = 0;
    let mut i: usize = 0;
    assert(path@.take(0) =~= Seq::<char>::empty());
    assert(out.deep_view() =~= Seq::<Seq<char>>::empty());
    while i < n
        invariant
            n == path@.len(),
            0 <= start <= i <= n,
            start == 0 || is_sep(path@[start - 1]),
            forall|k: int| start <= k < i ==> !is_sep(path@[k]),
            segments(path@.take(i as int)) == segments_with_run(
                out.deep_view(),
                path@,
                start as int,
                i as int,
            ),
        decreases n - i,
    {
        let c: char = path.get_char(i);
        proof {
            lemma_segments_step(out.deep_view(), path@, start as int, i as int);
        }
        if c == '/' {
            if start < i {
                let ghost before = out.deep_view();
                let piece: &str = path.substring_char(start, i);
                out.push(String::from_str(piece));
                assert(out.deep_view() =~= before.push(path@.subrange(start as int, i as int)));
            }
            start = i + 1;
        }
        i = i + 1;
    }
    if start < n {
        let ghost before = out.deep_view();
        let piece: &str = path.substring_char(start, n);
        out.push(String::from_str(piece));
        assert(out.deep_view() =~= before.push(path@.subrange(start as int, n as int)));
    }
    assert(path@.take(n as int) =~= path@);
    out
}

/// Whether `s` starts at the root.
pub open spec fn is_absolute(s: Seq<char>) -> bool {
    s.len() > 0 && is_sep(s[0])
}

/// `segs` without its `.` segments.
pub open spec fn without_dots(segs: Seq<Seq<char>>) -> Seq<Seq<char>>
    decreases segs.len(),
{
    if segs.len() == 0 {
        Seq::empty()
    } else {
        let before = without_dots(segs.drop_last());
        if segs.last() == dot() {
            before
        } else {
            before.push(segs.last())
        }
    }
}

/// The components of `s`: the root, where `s` is absolute, then its
/// segments without `.`; a relative path keeps its first segment as it is.
pub open spec fn components(s: Seq<char>) -> Seq<Seq<char>> {
    let segs = segments(s);
    if is_absolute(s) {
        seq![root_name()] + without_dots(segs)
    } else if segs.len() == 0 {
        Seq::empty()
    } else {
        seq![segs[0]] + without_dots(segs.skip(1))
    }
}

/// All but the first of `c`.
pub open spec fn tail(c: Seq<Seq<char>>) -> Seq<Seq<char>> {
    if c.len() == 0 {
        c
    } else {
        c.skip(1)
    }
}

/// The names that resolution follows for `s`: its components after the first.
pub open spec fn walk(s: Seq<char>) -> Seq<Seq<char>> {
    tail(components(s))
}

/// Whether `s` has a last component other than the root.
pub open spec fn has_parent(s: Seq<char>) -> bool {
    let c = components(s);
    c.len() > 0 && !(is_absolute(s) && c.len() == 1)
}

/// The final segment of `s`: its last component, unless that is the root,
/// `.` or `..`.
pub open spec fn file_name(s: Seq<char>) -> Option<Seq<char>> {
    let c = components(s);
    if !has_parent(s) || c.last() == dot() || c.last() == dot_dot() {
        None
    } else {
        Some(c.last())
    }
}

/// The names that resolution follows for the parent of `s`.
pub open spec fn parent_walk(s: Seq<char>) -> Option<Seq<Seq<char>>> {
    if has_parent(s) {
        Some(tail(components(s).drop_last()))
    } else {
        None
    }
}

/// The position of the last `c` in `s`.
pub open spec fn last_index_of(s: Seq<char>, c: char) -> Option<int>
    decreases s.len(),
{
    if s.len() == 0 {
        None
    } else if s.last() == c {
        Some(s.len() - 1)
    } else {
        last_index_of(s.drop_last(), c)
    }
}

/// The extension of a file name: what follows its last `.`, unless the name
/// has none or only starts with it.
pub open spec fn name_extension(name: Seq<char>) -> Option<Seq<char>> {
    match last_index_of(name, '.') {
        Some(i) => if i == 0 {
            None
        } else {
            Some(name.skip(i + 1))
        },
        None => None,
    }
}

/// The extension of the final segment of `s`.
pub open spec fn extension(s: Seq<char>) -> Option<Seq<char>> {
    match file_name(s) {
        Some(name) => name_extension(name),
        None => None,
    }
}

/// The view of an optional string.
pub open spec fn text_of(s: Option<String>) -> Option<Seq<char>> {
    match s {
        Some(t) => Some(t@),
        None => None,
    }
}

/// The views of optional steps.
pub open spec fn steps_of(s: Option<Vec<String>>) -> Option<Seq<Seq<char>>> {
    match s {
        Some(v) => Some(v.deep_view()),
        None => None,
    }
}

fn is_dot(t: &String) -> (b: bool)
    ensures
        b == (t@ == dot()),
{
    let s: &str = t.as_str();
    let b = s.unicode_len() == 1 && s.get_char(0) == '.';
    assert(b ==> t@ =~= dot());
    b
}

fn is_dot_dot(t: &String) -> (b: bool)
    ensures
        b == (t@ == dot_dot()),
{
    let s: &str = t.as_str();
    let b = s.unicode_len() == 2 && s.get_char(0) == '.' && s.get_char(1) == '.';
    assert(b ==> t@ =~= dot_dot());
    b
}

fn starts_at_root(path: &str) -> (b: bool)
    ensures
        b == is_absolute(path@),
{
    path.unicode_len() > 0 && path.get_char(0) == '/'
}

/// Splits `path` into its components.
pub fn split_components(path: &str) -> (out: Vec<String>)
    ensures
        out.deep_view() == components(path@),
{
    let segs = split_segments(path);
    let absolute = starts_at_root(path);
    let mut out: Vec<String> = Vec::new();
    let mut k: usize = 0;
    if absolute {
        proof {
            reveal_strlit("/");
        }
        let root = String::from_str("/");
        assert(root@ =~= root_name());
        out.push(root);
    } else if segs.len() > 0 {
        out.push(segs[0].clone());
        k = 1;
    } else {
        assert(out.deep_view() =~= Seq::<Seq<char>>::empty());
        return out;
    }
    let ghost first = out.deep_view();
    let ghost from: int = k as int;
    let ghost all = segs.deep_view();
    assert(all.subrange(from, from) =~= Seq::<Seq<char>>::empty());
    assert(out.deep_view() =~= first + without_dots(all.subrange(from, k as int)));
    while k < segs.len()
        invariant
            all == segs.deep_view(),
            0 <= from <= k <= segs.len(),
            out.deep_view() == first + without_dots(all.subrange(from, k as int)),
        decreases segs.len() - k,
    {
        let ghost before = out.deep_view();
        assert(all.subrange(from, k + 1).drop_last() =~= all.subrange(from, k as int));
        assert(all.subrange(from, k + 1).last() == segs[k as int]@);
        if !is_dot(&segs[k]) {
            out.push(segs[k].clone());
            assert(out.deep_view() =~= before.push(segs[k as int]@));
            assert(out.deep_view() =~= first + without_dots(all.subrange(from, k + 1)));
        }
        k = k + 1;
    }
    proof {
        assert(all.subrange(0, all.len() as int) =~= all);
        if !absolute {
            assert(first =~= seq![all[0]]);
            assert(all.subrange(1, all.len() as int) =~= all.skip(1));
        }
    }
    out
}

/// Copies of `v[from..to]`.
fn copy_range(v: &Vec<String>, from: usize, to: usize) -> (out: Vec<String>)
    requires
        from <= to <= v.len(),
    ensures
        out.deep_view() == v.deep_view().subrange(from as int, to as int),
{
    let mut out: Vec<String> = Vec::new();
    let mut k: usize = from;
    assert(out.deep_view() =~= v.deep_view().subrange(from as int, from as int));
    while k < to
        invariant
            from <= k <= to <= v.len(),
            out.deep_view() == v.deep_view().subrange(from as int, k as int),
        decreases to - k,
    {
        let ghost before = out.deep_view();
        out.push(v[k].clone());
        assert(out.deep_view() =~= before.push(v[k as int]@));
        assert(out.deep_view() =~= v.deep_view().subrange(from as int, k + 1));
        k = k + 1;
    }
    out
}

/// The names that resolution follows for `path`.
pub fn walk_steps(path: &str) -> (out: Vec<String>)
    ensures
        out.deep_view() == walk(path@),
{
    let comps = split_components(path);
    if comps.len() == 0 {
        assert(comps.deep_view() =~= Seq::<Seq<char>>::empty());
        let out = copy_range(&comps, 0, 0);
        assert(out.deep_view() =~= comps.deep_view());
        out
    } else {
        let out = copy_range(&comps, 1, comps.len());
        assert(out.deep_view() =~= comps.deep_view().skip(1));
        out
    }
}

/// The final segment of `path`, if it has one.
pub fn base_name(path: &str) -> (out: Option<String>)
    ensures
        text_of(out) == file_name(path@),
{
    let comps = split_components(path);
    let absolute = starts_at_root(path);
    let n: usize = comps.len();
    if n == 0 || (absolute && n == 1) {
        return None;
    }
    assert(comps.deep_view().last() == comps[n - 1]@);
    if is_dot(&comps[n - 1]) || is_dot_dot(&comps[n - 1]) {
        return None;
    }
    Some(comps[n - 1].clone())
}

/// The names that resolution follows for the parent of `path`, if it has one.
pub fn parent_steps(path: &str) -> (out: Option<Vec<String>>)
    ensures
        steps_of(out) == parent_walk(path@),
{
    let comps = split_components(path);
    let absolute = starts_at_root(path);
    let n: usize = comps.len();
    if n == 0 || (absolute && n == 1) {
        return None;
    }
    let ghost upper = comps.deep_view().drop_last();
    if n == 1 {
        let out = copy_range(&comps, 0, 0);
        assert(out.deep_view() =~= tail(upper));
        Some(out)
    } else {
        let out = copy_range(&comps, 1, n - 1);
        assert(out.deep_view() =~= tail(upper));
        Some(out)
    }
}

/// The extension of the final segment of `path`, if it has one.
pub fn file_extension(path: &str) -> (out: Option<String>)
    ensures
        text_of(out) == extension(path@),
{
    let name = match base_name(path) {
        Some(name) => name,
        None => {
            return None;
        },
    };
    let text: &str = name.as_str();
    let n: usize = text.unicode_len();
    let mut i: usize = n;
    assert(text@.take(n as int) =~= text@);
    while i > 0
        invariant
            n == text@.len(),
            i <= n,
            file_name(path@) == Some(text@),
            last_index_of(text@, '.') == last_index_of(text@.take(i as int), '.'),
        decreases i,
    {
        let ghost prefix = text@.take(i as int);
        assert(prefix.drop_last() =~= text@.take(i - 1));
        assert(prefix.last() == text@[i - 1]);
        if text.get_char(i - 1) == '.' {
            if i == 1 {
                return None;
            }
            let ext: &str = text.substring_char(i, n);
            assert(text@.subrange(i as int, n as int) =~= text@.skip(i as int));
            return Some(String::from_str(ext));
        }
        i = i - 1;
    }
    None
}

/// Whether `s` can be a segment: it is not empty and holds no separator.
pub open spec fn is_segment(s: Seq<char>) -> bool {
    s.len() > 0 && forall|i: int| 0 <= i < s.len() ==> !is_sep(#[trigger] s[i])
}

/// Text without a separator is one segment.
pub proof fn lemma_segments_single(s: Seq<char>)
    requires
        is_segment(s),
    ensures
        segments(s) == seq![s],
    decreases s.len(),
{
    let shorter = s.drop_last();
    if shorter.len() == 0 {
        assert(segments(shorter) =~= Seq::<Seq<char>>::empty());
        assert(seq![s.last()] =~= s);
        assert(segments(s) =~= seq![s]);
    } else {
        assert(shorter[shorter.len() - 1] == s[s.len() - 2]);
        assert forall|i: int| 0 <= i < shorter.len() implies !is_sep(#[trigger] shorter[i]) by {
            assert(shorter[i] == s[i]);
        }
        lemma_segments_single(shorter);
        assert(shorter.push(s.last()) =~= s);
        assert(seq![shorter].drop_last().push(s) =~= seq![s]);
    }
}

/// Text that does not end in a separator has a last segment.
pub proof fn lemma_segments_nonempty(s: Seq<char>)
    requires
        s.len() > 0,
        !is_sep(s.last()),
    ensures
        segments(s).len() > 0,
{
}

/// The segments of text around a separator are those before it, then those
/// after it.
pub proof fn lemma_segments_split(a: Seq<char>, b: Seq<char>)
    ensures
        segments(a + seq!['/'] + b) == segments(a) + segments(b),
    decreases b.len(),
{
    let s = a + seq!['/'] + b;
    if b.len() == 0 {
        assert(s.drop_last() =~= a);
        assert(segments(a) + segments(b) =~= segments(a));
    } else {
        let shorter = b.drop_last();
        let c = b.last();
        assert(s.drop_last() =~= a + seq!['/'] + shorter);
        assert(s.last() == c);
        lemma_segments_split(a, shorter);
        let before = segments(a) + segments(shorter);
        if is_sep(c) {
        } else if shorter.len() >= 1 && !is_sep(shorter.last()) {
            assert(s[s.len() - 2] == shorter.last());
            assert(b[b.len() - 2] == shorter.last());
            lemma_segments_nonempty(shorter);
            let grown = segments(shorter).last().push(c);
            assert(before.last() == segments(shorter).last());
            assert(before.drop_last().push(grown) =~= segments(a) + segments(
                shorter,
            ).drop_last().push(grown));
        } else {
            if shorter.len() >= 1 {
                assert(s[s.len() - 2] == shorter.last());
                assert(b[b.len() - 2] == shorter.last());
            } else {
                assert(s[s.len() - 2] == '/');
            }
            assert(before.push(seq![c]) =~= segments(a) + segments(shorter).push(seq![c]));
        }
    }
}

/// A segment other than `.` and `..` is the final segment of itself: what
/// is told from the final segment of a path is told as well from the path.
pub proof fn lemma_file_name_of_segment(name: Seq<char>)
    requires
        is_segment(name),
        name != dot(),
        name != dot_dot(),
    ensures
        components(name) == seq![name],
        file_name(name) == Some(name),
        extension(name) == name_extension(name),
{
    lemma_segments_single(name);
    assert(segments(name).skip(1) =~= Seq::<Seq<char>>::empty());
    assert(seq![name] + without_dots(Seq::<Seq<char>>::empty()) =~= seq![name]);
}

/// Every segment of a text is a segment: not empty and without separator.
pub proof fn lemma_segments_are_segments(s: Seq<char>)
    ensures
        forall|i: int| 0 <= i < segments(s).len() ==> is_segment(#[trigger] segments(s)[i]),
    decreases s.len(),
{
    if s.len() > 0 {
        lemma_segments_are_segments(s.drop_last());
        let before = segments(s.drop_last());
        if is_sep(s.last()) {
        } else if s.len() >= 2 && !is_sep(s[s.len() - 2]) {
            assert(s.drop_last().last() == s[s.len() - 2]);
            lemma_segments_nonempty(s.drop_last());
            let grown = before.last().push(s.last());
            assert(is_segment(before.last()));
            assert forall|k: int| 0 <= k < grown.len() implies !is_sep(#[trigger] grown[k]) by {
                if k < before.last().len() {
                    assert(grown[k] == before.last()[k]);
                }
            }
            assert forall|i: int| 0 <= i < segments(s).len() implies is_segment(
                #[trigger] segments(s)[i],
            ) by {
                if i < before.len() - 1 {
                    assert(segments(s)[i] == before[i]);
                }
            }
        } else {
            assert(is_segment(seq![s.last()]));
            assert forall|i: int| 0 <= i < segments(s).len() implies is_segment(
                #[trigger] segments(s)[i],
            ) by {
                if i < before.len() {
                    assert(segments(s)[i] == before[i]);
                }
            }
        }
    }
}

/// Dropping `.` segments leaves segments.
pub proof fn lemma_without_dots_are_segments(segs: Seq<Seq<char>>)
    requires
        forall|i: int| 0 <= i < segs.len() ==> is_segment(#[trigger] segs[i]),
    ensures
        forall|i: int|
            0 <= i < without_dots(segs).len() ==> is_segment(#[trigger] without_dots(segs)[i])
                && without_dots(segs)[i] != dot(),
    decreases segs.len(),
{
    if segs.len() > 0 {
        assert forall|i: int| 0 <= i < segs.drop_last().len() implies is_segment(
            #[trigger] segs.drop_last()[i],
        ) by {
            assert(segs.drop_last()[i] == segs[i]);
        }
        lemma_without_dots_are_segments(segs.drop_last());
        assert(segs.last() == segs[segs.len() - 1]);
        let before = without_dots(segs.drop_last());
        let after = without_dots(segs);
        assert forall|i: int| 0 <= i < after.len() implies is_segment(#[trigger] after[i])
            && after[i] != dot() by {
            if i < before.len() {
                assert(after[i] == before[i]);
            } else {
                assert(after[i] == segs.last());
            }
        }
    }
}

/// The final segment of a path is a segment other than `.` and `..`, so
/// that it names itself, and the extension of a path is that of its final
/// segment.
pub proof fn lemma_file_name_is_segment(path: Seq<char>)
    requires
        file_name(path) is Some,
    ensures
        is_segment(file_name(path).unwrap()),
        file_name(file_name(path).unwrap()) == file_name(path),
        extension(file_name(path).unwrap()) == extension(path),
{
    let segs = segments(path);
    let c = components(path);
    let name = c.last();
    lemma_segments_are_segments(path);
    if is_absolute(path) {
        lemma_without_dots_are_segments(segs);
        assert(name == without_dots(segs)[without_dots(segs).len() - 1]);
    } else {
        let rest = segs.skip(1);
        assert forall|i: int| 0 <= i < rest.len() implies is_segment(#[trigger] rest[i]) by {
            assert(rest[i] == segs[i + 1]);
        }
        lemma_without_dots_are_segments(rest);
        if without_dots(rest).len() > 0 {
            assert(name == without_dots(rest)[without_dots(rest).len() - 1]);
        } else {
            assert(name == segs[0]);
        }
    }
    lemma_file_name_of_segment(name);
}

/// Whether `name` can be the name of a node: a segment other than `.` and
/// `..`.
pub open spec fn is_name(name: Seq<char>) -> bool {
    is_segment(name) && name != dot() && name != dot_dot()
}

/// Dropping `.` segments goes through a sequence piece by piece.
pub proof fn lemma_without_dots_push(segs: Seq<Seq<char>>, name: Seq<char>)
    requires
        name != dot(),
    ensures
        without_dots(segs.push(name)) == without_dots(segs).push(name),
{
    assert(segs.push(name).drop_last() =~= segs);
}

/// The path of a name directly under the root: its components are the root
/// and the name.
pub proof fn lemma_top_level_path(name: Seq<char>)
    requires
        is_name(name),
    ensures
        ({
            let path = seq!['/'] + name;
            &&& is_absolute(path)
            &&& components(path) == seq![root_name(), name]
            &&& file_name(path) == Some(name)
            &&& parent_walk(path) == Some(Seq::<Seq<char>>::empty())
            &&& walk(path) == seq![name]
        }),
{
    let path = seq!['/'] + name;
    let none = Seq::<char>::empty();
    assert(path =~= none + seq!['/'] + name);
    lemma_segments_split(none, name);
    lemma_segments_single(name);
    assert(segments(none) =~= Seq::<Seq<char>>::empty());
    assert(segments(path) =~= seq![name]);
    assert(seq![name] =~= Seq::<Seq<char>>::empty().push(name));
    lemma_without_dots_push(Seq::<Seq<char>>::empty(), name);
    assert(without_dots(Seq::<Seq<char>>::empty()) =~= Seq::<Seq<char>>::empty());
    let c = components(path);
    assert(c =~= seq![root_name(), name]);
    assert(c.drop_last() =~= seq![root_name()]);
    assert(c.drop_last().skip(1) =~= Seq::<Seq<char>>::empty());
    assert(c.skip(1) =~= seq![name]);
}

/// The path of a name under an absolute path: its components are those of
/// the path, then the name, and its parent is resolved as the path is.
pub proof fn lemma_child_path(base: Seq<char>, name: Seq<char>)
    requires
        is_absolute(base),
        is_name(name),
    ensures
        ({
            let path = base + seq!['/'] + name;
            &&& is_absolute(path)
            &&& components(path) == components(base).push(name)
            &&& file_name(path) == Some(name)
            &&& parent_walk(path) == Some(walk(base))
            &&& walk(path) == walk(base).push(name)
        }),
{
    let path = base + seq!['/'] + name;
    lemma_segments_split(base, name);
    lemma_segments_single(name);
    assert(segments(base) + seq![name] =~= segments(base).push(name));
    lemma_without_dots_push(segments(base), name);
    let cb = components(base);
    let c = components(path);
    assert(path[0] == base[0]);
    assert(c =~= cb.push(name));
    assert(c.drop_last() =~= cb);
    assert(c.skip(1) =~= cb.skip(1).push(name));
}

} // verus!
