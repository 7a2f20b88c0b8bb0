//! Text as the requests carry it: comparing, splitting at a separator, and lists of
//! names without repetitions.

use vstd::prelude::*;

verus! {

/// The texts of `names`, in order.
pub open spec fn texts(names: Seq<String>) -> Seq<Seq<char>> {
    names.map_values(|s: String| s@)
}

/// The text of `s`, if there is one.
pub open spec fn text_of(s: Option<String>) -> Option<Seq<char>> {
    match s {
        Some(s) => Some(s@),
        None => None,
    }
}

/// The texts of `pieces` in a row, with `sep` between each two.
pub open spec fn joined(pieces: Seq<Seq<char>>, sep: Seq<char>) -> Seq<char>
    decreases pieces.len(),
{
    if pieces.len() == 0 {
        Seq::empty()
    } else if pieces.len() == 1 {
        pieces[0]
    } else {
        joined(pieces.drop_last(), sep) + sep + pieces.last()
    }
}

/// The pieces of `s` between the occurrences of `sep`. There is always at least
/// one piece, and a piece is empty where two separators meet or where `s` begins
/// or ends with one.
pub open spec fn split(s: Seq<char>, sep: char) -> Seq<Seq<char>>
    decreases s.len(),
{
    if s.len() == 0 {
        seq![Seq::empty()]
    } else {
        let before = split(s.drop_last(), sep);
        if s.last() == sep {
            before.push(Seq::empty())
        } else {
            before.drop_last().push(before.last().push(s.last()))
        }
    }
}

/// One of `names` has the text `t`.
pub open spec fn has_text(names: Seq<String>, t: Seq<char>) -> bool {
    exists|i: int| 0 <= i < names.len() && (#[trigger] names[i])@ == t
}

/// `names` without repetitions: of names with the same text the first stays.
pub open spec fn distinct(names: Seq<String>) -> Seq<String>
    decreases names.len(),
{
    if names.len() == 0 {
        Seq::empty()
    } else {
        let before = distinct(names.drop_last());
        if has_text(before, names.last()@) {
            before
        } else {
            before.push(names.last())
        }
    }
}

/// No two of `names` have the same text.
pub open spec fn all_different(names: Seq<String>) -> bool {
    forall|i: int, j: int|
        0 <= i < j < names.len() ==> (#[trigger] names[i])@ != (#[trigger] names[j])@
}

/// Whether two pieces of text are the same.
pub fn same_text(a: &str, b: &str) -> (r: bool)
    ensures
        r == (a@ == b@),
{
    let x = a.to_owned();
    let y = b.to_owned();
    x == y
}

/// Whether one of `names` has the text `name`.
pub fn has_name(names: &Vec<String>, name: &str) -> (r: bool)
    ensures
        r == has_text(names@, name@),
{
    let mut i: usize = 0;
    while i < names.len()
        invariant
            i <= names.len(),
            forall|k: int| 0 <= k < i ==> (#[trigger] names[k])@ != name@,
        decreases names.len() - i,
    {
        if same_text(names[i].as_str(), name) {
            return true;
        }
        i += 1;
    }
    false
}

/// `distinct` keeps a name of each text, and no text twice.
pub proof fn lemma_distinct(names: Seq<String>)
    ensures
        all_different(distinct(names)),
        distinct(names).len() <= names.len(),
        forall|t: Seq<char>| #[trigger] has_text(distinct(names), t) <==> has_text(names, t),
    decreases names.len(),
{
    if names.len() > 0 {
        let init = names.drop_last();
        let last = names.last();
        let before = distinct(init);
        lemma_distinct(init);
        let after = distinct(names);
        assert forall|t: Seq<char>| #[trigger] has_text(after, t) <==> has_text(names, t) by {
            if has_text(after, t) {
                let i = choose|i: int| 0 <= i < after.len() && (#[trigger] after[i])@ == t;
                if i < before.len() {
                    assert(has_text(before, t));
                }
            }
            if has_text(names, t) {
                let k = choose|k: int| 0 <= k < names.len() && (#[trigger] names[k])@ == t;
                if k < init.len() {
                    assert(init[k]@ == t);
                    assert(has_text(before, t));
                    let i = choose|i: int| 0 <= i < before.len() && (#[trigger] before[i])@ == t;
                    assert(after[i]@ == t);
                } else {
                    if !has_text(before, last@) {
                        assert(after[after.len() - 1]@ == t);
                    }
                }
            }
        }
    }
}

/// The names of `names` without repetitions, the first of each text.
pub fn dedup(names: Vec<String>) -> (out: Vec<String>)
    ensures
        out@ == distinct(names@),
{
    let mut out: Vec<String> = Vec::new();
    let ghost all = names@;
    for name in it: names
        invariant
            it.seq() == all,
            out@ == distinct(all.subrange(0, it.index() as int)),
    {
        proof {
            let upto = all.subrange(0, it.index() + 1);
            assert(upto.drop_last() =~= all.subrange(0, it.index() as int));
        }
        if !has_name(&out, name.as_str()) {
            out.push(name);
        }
    }
    assert(all.subrange(0, all.len() as int) =~= all);
    out
}

/// Splits `s` at each occurrence of `sep`.
pub fn split_at(s: &str, sep: char) -> (pieces: Vec<String>)
    ensures
        texts(pieces@) == split(s@, sep),
{
    let n = s.unicode_len();
    let mut pieces: Vec<String> = Vec::new();
    let mut start: usize = 0;
    let mut i: usize = 0;
    assert(s@.subrange(0, 0) =~= Seq::<char>::empty());
    while i < n
        invariant
            n == s@.len(),
            start <= i <= n,
            texts(pieces@).push(s@.subrange(start as int, i as int)) == split(
                s@.subrange(0, i as int),
                sep,
            ),
        decreases n - i,
    {
        let c = s.get_char(i);
        proof {
            let upto = s@.subrange(0, i + 1);
            assert(upto.drop_last() =~= s@.subrange(0, i as int));
        }
        if c == sep {
            let piece = s.substring_char(start, i).to_owned();
            pieces.push(piece);
            start = i + 1;
            assert(s@.subrange(start as int, start as int) =~= Seq::<char>::empty());
        } else {
            assert(s@.subrange(start as int, i + 1) =~= s@.subrange(start as int, i as int).push(c));
        }
        i += 1;
    }
    let piece = s.substring_char(start, n).to_owned();
    pieces.push(piece);
    assert(s@.subrange(0, n as int) =~= s@);
    pieces
}

/// Whether `c` is white space: a character with the Unicode property
/// `White_Space`.
pub open spec fn is_space(c: char) -> bool {
    let n = c as u32;
    ||| 0x09 <= n <= 0x0d
    ||| n == 0x20
    ||| n == 0x85
    ||| n == 0xa0
    ||| n == 0x1680
    ||| 0x2000 <= n <= 0x200a
    ||| n == 0x2028
    ||| n == 0x2029
    ||| n == 0x202f
    ||| n == 0x205f
    ||| n == 0x3000
}

/// `s` without the white space at its beginning.
pub open spec fn trimmed_start(s: Seq<char>) -> Seq<char>
    decreases s.len(),
{
    if s.len() > 0 && is_space(s[0]) {
        trimmed_start(s.drop_first())
    } else {
        s
    }
}

/// `s` without the white space at its end.
pub open spec fn trimmed_end(s: Seq<char>) -> Seq<char>
    decreases s.len(),
{
    if s.len() > 0 && is_space(s.last()) {
        trimmed_end(s.drop_last())
    } else {
        s
    }
}

/// `s` without the white space at its beginning and at its end.
pub open spec fn trimmed(s: Seq<char>) -> Seq<char> {
    trimmed_end(trimmed_start(s))
}

/// Whether `c` is white space.
pub fn is_whitespace(c: char) -> (b: bool)
    ensures
        b == is_space(c),
{
    let n = c as u32;
    (0x09 <= n && n <= 0x0d) || n == 0x20 || n == 0x85 || n == 0xa0 || n == 0x1680 || (0x2000 <= n
        && n <= 0x200a) || n == 0x2028 || n == 0x2029 || n == 0x202f || n == 0x205f || n == 0x3000
}

/// The part of `s` between the white space at its beginning and at its end.
pub fn trim(s: &str) -> (t: &str)
    ensures
        t@ == trimmed(s@),
{
    let n = s.unicode_len();
    let mut from: usize = 0;
    assert(s@.subrange(0, n as int) =~= s@);
    while from < n && is_whitespace(s.get_char(from))
        invariant
            n == s@.len(),
            from <= n,
            trimmed_start(s@) == trimmed_start(s@.subrange(from as int, n as int)),
        decreases n - from,
    {
        assert(s@.subrange(from as int, n as int).drop_first() =~= s@.subrange(from + 1, n as int));
        from += 1;
    }
    let ghost front = s@.subrange(from as int, n as int);
    let mut to: usize = n;
    while to > from && is_whitespace(s.get_char(to - 1))
        invariant
            n == s@.len(),
            from <= to <= n,
            trimmed_end(front) == trimmed_end(s@.subrange(from as int, to as int)),
        decreases to - from,
    {
        assert(s@.subrange(from as int, to as int).drop_last() =~= s@.subrange(
            from as int,
            to - 1,
        ));
        to -= 1;
    }
    s.substring_char(from, to)
}

/// The place of the first of `names` that has the text `t`, or the length of
/// `names` where none has.
pub open spec fn position(names: Seq<String>, t: Seq<char>) -> int
    decreases names.len(),
{
    if names.len() == 0 || names[0]@ == t {
        0
    } else {
        1 + position(names.drop_first(), t)
    }
}

/// The first of `names` with the text `t` is at `position`, which is within
/// `names` exactly where some name has that text.
pub proof fn lemma_position(names: Seq<String>, t: Seq<char>)
    ensures
        0 <= position(names, t) <= names.len(),
        has_text(names, t) <==> position(names, t) < names.len(),
        position(names, t) < names.len() ==> names[position(names, t)]@ == t,
        forall|k: int| 0 <= k < position(names, t) ==> (#[trigger] names[k])@ != t,
    decreases names.len(),
{
    if names.len() > 0 && names[0]@ != t {
        let rest = names.drop_first();
        lemma_position(rest, t);
        assert forall|k: int| 0 <= k < position(names, t) implies (#[trigger] names[k])@ != t by {
            if k > 0 {
                assert(rest[k - 1] == names[k]);
            }
        }
    }
}

/// The place of the first of `names` that has the text `name`.
pub fn find(names: &Vec<String>, name: &str) -> (i: usize)
    ensures
        i == position(names@, name@),
{
    let mut i: usize = 0;
    while i < names.len()
        invariant
            i <= names.len(),
            forall|k: int| 0 <= k < i ==> (#[trigger] names@[k])@ != name@,
        decreases names.len() - i,
    {
        if same_text(names[i].as_str(), name) {
            proof {
                lemma_position(names@, name@);
            }
            return i;
        }
        i += 1;
    }
    proof {
        lemma_position(names@, name@);
    }
    i
}

} // verus!
