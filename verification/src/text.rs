//! Working on texts character by character: comparing, searching, replacing,
//! splitting and joining.

use vstd::prelude::*;
use vstd::string::*;

verus! {

/// The characters of `s`, in order.
pub fn chars_of(s: &str) -> (v: Vec<char>)
    ensures
        v@ == s@,
{
    let mut v: Vec<char> = Vec::new();
    for c in it: s.chars()
        invariant
            v@ == it.seq().take(it.index() as int),
            it.seq() == s@,
    {
        v.push(c);
    }
    v
}

/// Whether two strings hold the same characters.
pub fn str_eq(a: &str, b: &str) -> (same: bool)
    ensures
        same == (a@ == b@),
{
    let x = a.as_bytes();
    let y = b.as_bytes();
    proof {
        vstd::utf8::encode_utf8_decode_utf8(a@);
        vstd::utf8::encode_utf8_decode_utf8(b@);
    }
    if x.len() != y.len() {
        return false;
    }
    let mut i: usize = 0;
    while i < x.len()
        invariant
            i <= x.len(),
            x.len() == y.len(),
            x@ == a.spec_bytes(),
            y@ == b.spec_bytes(),
            forall|k: int| 0 <= k < i ==> x@[k] == y@[k],
        decreases x.len() - i,
    {
        if x[i] != y[i] {
            return false;
        }
        i += 1;
    }
    assert(x@ =~= y@);
    true
}

/// Whether `needle` stands in `hay` at position `i`.
pub open spec fn occurs_at(hay: Seq<char>, needle: Seq<char>, i: int) -> bool {
    0 <= i && i + needle.len() <= hay.len() && hay.subrange(i, i + needle.len()) == needle
}

/// Whether `needle` stands somewhere in `hay`.
pub open spec fn occurs_in(hay: Seq<char>, needle: Seq<char>) -> bool {
    exists|i: int| occurs_at(hay, needle, i)
}

/// Whether `i` is the leftmost position at which `needle` stands in `hay`.
pub open spec fn is_first_occurrence(hay: Seq<char>, needle: Seq<char>, i: int) -> bool {
    occurs_at(hay, needle, i) && forall|j: int| 0 <= j < i ==> !occurs_at(hay, needle, j)
}

/// `s` with its leftmost occurrence of `pat` replaced by `to`; `s` itself
/// where `pat` does not occur.
pub open spec fn replace_first(s: Seq<char>, pat: Seq<char>, to: Seq<char>) -> Seq<char> {
    if occurs_in(s, pat) {
        let i = choose|i: int| is_first_occurrence(s, pat, i);
        s.subrange(0, i) + to + s.subrange(i + pat.len(), s.len() as int)
    } else {
        s
    }
}

/// Whether `needle` stands in `hay` at position `at`.
fn matches_at(hay: &Vec<char>, needle: &Vec<char>, at: usize) -> (hit: bool)
    requires
        at + needle.len() <= hay.len(),
    ensures
        hit == occurs_at(hay@, needle@, at as int),
{
    let mut k: usize = 0;
    while k < needle.len()
        invariant
            k <= needle.len(),
            at + needle.len() <= hay.len(),
            forall|j: int| 0 <= j < k ==> hay@[at + j] == needle@[j],
        decreases needle.len() - k,
    {
        if hay[at + k] != needle[k] {
            return false;
        }
        k += 1;
    }
    assert(hay@.subrange(at as int, at + needle.len()) =~= needle@);
    true
}

/// The leftmost position at which `needle` stands in `hay`.
pub fn find_first(hay: &Vec<char>, needle: &Vec<char>) -> (at: Option<usize>)
    ensures
        match at {
            Some(i) => is_first_occurrence(hay@, needle@, i as int),
            None => !occurs_in(hay@, needle@),
        },
{
    if needle.len() > hay.len() {
        return None;
    }
    let last = hay.len() - needle.len();
    let mut i: usize = 0;
    loop
        invariant
            i <= last,
            last + needle.len() == hay.len(),
            forall|j: int| 0 <= j < i ==> !occurs_at(hay@, needle@, j),
        decreases last - i,
    {
        if matches_at(hay, needle, i) {
            return Some(i);
        }
        if i == last {
            return None;
        }
        i += 1;
    }
}

/// `s` with its leftmost occurrence of `pat` replaced by `to`.
pub fn replace_first_in(s: &str, pat: &str, to: &str) -> (r: String)
    ensures
        r@ == replace_first(s@, pat@, to@),
{
    let hay = chars_of(s);
    let needle = chars_of(pat);
    match find_first(&hay, &needle) {
        Some(i) => {
            assert(i + needle.len() <= hay.len());
            let mut r = s.substring_char(0, i).to_owned();
            r.append(to);
            r.append(s.substring_char(i + needle.len(), hay.len()));
            r
        },
        None => s.to_owned(),
    }
}

/// `s` without the copies of `prefix` that it starts with.
pub open spec fn strip_leading(s: Seq<char>, prefix: Seq<char>) -> Seq<char>
    decreases s.len(),
{
    if prefix.len() > 0 && prefix.is_prefix_of(s) {
        strip_leading(s.skip(prefix.len() as int), prefix)
    } else {
        s
    }
}

/// Whether `s` starts with `prefix`.
pub fn starts_with(s: &Vec<char>, prefix: &Vec<char>) -> (yes: bool)
    ensures
        yes == prefix@.is_prefix_of(s@),
{
    if prefix.len() > s.len() {
        return false;
    }
    let hit = matches_at(s, prefix, 0);
    hit
}

/// `s` without the copies of `prefix` that it starts with.
pub fn strip_leading_of<'a>(s: &'a str, prefix: &str) -> (r: &'a str)
    ensures
        r@ == strip_leading(s@, prefix@),
{
    let hay = chars_of(s);
    let needle = chars_of(prefix);
    if needle.len() == 0 {
        return s;
    }
    let mut off: usize = 0;
    assert(s@.skip(0) =~= s@);
    while needle.len() <= hay.len() - off && matches_at(&hay, &needle, off)
        invariant
            off <= hay.len(),
            needle.len() > 0,
            hay@ == s@,
            needle@ == prefix@,
            strip_leading(s@, prefix@) == strip_leading(s@.skip(off as int), prefix@),
        decreases hay.len() - off,
    {
        proof {
            let rest = s@.skip(off as int);
            assert(rest.subrange(0, needle@.len() as int) =~= hay@.subrange(
                off as int,
                off + needle.len(),
            ));
            assert(rest.skip(needle@.len() as int) =~= s@.skip(off + needle.len()));
        }
        off += needle.len();
    }
    proof {
        let rest = s@.skip(off as int);
        if needle@.len() <= rest.len() {
            assert(rest.subrange(0, needle@.len() as int) =~= hay@.subrange(
                off as int,
                off + needle.len(),
            ));
        }
    }
    s.substring_char(off, hay.len())
}

/// The characters of each of a sequence of strings.
pub open spec fn texts(items: Seq<String>) -> Seq<Seq<char>> {
    items.map_values(|s: String| s@)
}

/// The items one after the other, with `sep` between each two.
pub open spec fn joined(items: Seq<Seq<char>>, sep: Seq<char>) -> Seq<char>
    decreases items.len(),
{
    if items.len() == 0 {
        Seq::empty()
    } else if items.len() == 1 {
        items[0]
    } else {
        joined(items.drop_last(), sep) + sep + items.last()
    }
}

/// The items one after the other, with `sep` between each two.
pub fn join(items: &Vec<String>, sep: &str) -> (r: String)
    ensures
        r@ == joined(texts(items@), sep@),
{
    let ghost all = texts(items@);
    let mut r = String::new();
    let mut i: usize = 0;
    while i < items.len()
        invariant
            i <= items.len(),
            all == texts(items@),
            r@ == joined(all.take(i as int), sep@),
        decreases items.len() - i,
    {
        assert(all.take(i + 1).drop_last() =~= all.take(i as int));
        if i > 0 {
            r.append(sep);
        }
        r.append(items[i].as_str());
        assert(r@ =~= joined(all.take(i + 1), sep@));
        i += 1;
    }
    assert(all.take(i as int) =~= all);
    r
}

/// The parts of `s` between the occurrences of `sep`. There is always one
/// part more than there are separators.
pub open spec fn split_on(s: Seq<char>, sep: char) -> Seq<Seq<char>>
    decreases s.len(),
{
    if s.len() == 0 {
        seq![Seq::empty()]
    } else {
        let before = split_on(s.drop_last(), sep);
        if s.last() == sep {
            before.push(Seq::empty())
        } else {
            before.drop_last().push(before.last().push(s.last()))
        }
    }
}

/// The models of a sequence of parts.
pub open spec fn parts_models(parts: Seq<Vec<char>>) -> Seq<Seq<char>> {
    parts.map_values(|p: Vec<char>| p@)
}

/// A split always has a part.
pub proof fn lemma_split_nonempty(s: Seq<char>, sep: char)
    ensures
        split_on(s, sep).len() >= 1,
    decreases s.len(),
{
    if s.len() > 0 {
        lemma_split_nonempty(s.drop_last(), sep);
    }
}

/// The parts of `s` between the occurrences of `sep`.
pub fn split_chars(s: &Vec<char>, sep: char) -> (parts: Vec<Vec<char>>)
    ensures
        parts_models(parts@) == split_on(s@, sep),
        parts.len() >= 1,
{
    let mut done: Vec<Vec<char>> = Vec::new();
    let mut current: Vec<char> = Vec::new();
    let mut i: usize = 0;
    while i < s.len()
        invariant
            i <= s.len(),
            split_on(s@.take(i as int), sep) == parts_models(done@).push(current@),
        decreases s.len() - i,
    {
        assert(s@.take(i + 1).drop_last() =~= s@.take(i as int));
        let c = s[i];
        if c == sep {
            done.push(current);
            current = Vec::new();
        } else {
            current.push(c);
        }
        i += 1;
    }
    assert(s@.take(i as int) =~= s@);
    done.push(current);
    done
}

/// Every character of a string is a separator or stands in one of the parts.
pub proof fn lemma_split_charset(s: Seq<char>, sep: char, i: int)
    requires
        0 <= i < s.len(),
    ensures
        s[i] == sep || exists|p: int, k: int|
            0 <= p < split_on(s, sep).len() && 0 <= k < split_on(s, sep)[p].len() && split_on(
                s,
                sep,
            )[p][k] == s[i],
    decreases s.len(),
{
    let parts = split_on(s, sep);
    let before = split_on(s.drop_last(), sep);
    lemma_split_nonempty(s.drop_last(), sep);
    if i == s.len() - 1 {
        if s[i] != sep {
            let p = parts.len() - 1;
            let k = parts[p].len() - 1;
            assert(parts[p][k] == s[i]);
        }
    } else {
        lemma_split_charset(s.drop_last(), sep, i);
        if s[i] != sep {
            let (p, k) = choose|p: int, k: int|
                0 <= p < before.len() && 0 <= k < before[p].len() && before[p][k] == s[i];
            assert(parts[p][k] == s[i]);
        }
    }
}

/// A string without a separator is its own and only part.
pub proof fn lemma_split_single(a: Seq<char>, sep: char)
    requires
        forall|i: int| 0 <= i < a.len() ==> a[i] != sep,
    ensures
        split_on(a, sep) == seq![a],
    decreases a.len(),
{
    if a.len() == 0 {
        assert(a =~= Seq::empty());
    } else {
        lemma_split_single(a.drop_last(), sep);
        let before = split_on(a.drop_last(), sep);
        assert(before.drop_last().push(before.last().push(a.last())) =~= seq![a]) by {
            assert(before.last().push(a.last()) =~= a);
        }
    }
}

/// What follows the last separator is the last part.
pub proof fn lemma_split_last_part(a: Seq<char>, b: Seq<char>, sep: char)
    requires
        forall|i: int| 0 <= i < b.len() ==> b[i] != sep,
    ensures
        split_on(a + seq![sep] + b, sep) == split_on(a, sep).push(b),
    decreases b.len(),
{
    let s = a + seq![sep] + b;
    if b.len() == 0 {
        assert(s.drop_last() =~= a);
        assert(b =~= Seq::empty());
    } else {
        assert(s.drop_last() =~= a + seq![sep] + b.drop_last());
        lemma_split_last_part(a, b.drop_last(), sep);
        let before = split_on(s.drop_last(), sep);
        assert(before.last().push(s.last()) =~= b);
    }
}

} // verus!
