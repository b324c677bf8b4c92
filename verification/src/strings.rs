//! Character-level text primitives: searching, trimming and slicing, each with
//! a mathematical model over `Seq<char>`.

use vstd::prelude::*;

verus! {

/// The characters of `s`, in order.
pub fn chars_of(s: &str) -> (v: Vec<char>)
    ensures
        v@ == s@,
{
    let mut v: Vec<char> = Vec::new();
    for c in it: s.chars()
        invariant
            it.seq() == s@,
            v.len() == it.index(),
            forall|j: int| 0 <= j < v.len() ==> v@[j] == it.seq()[j],
    {
        v.push(c);
    }
    v
}

/// Unicode white space (the `White_Space` property).
pub open spec fn is_space(c: char) -> bool {
    let n = c as u32;
    ||| 0x09 <= n <= 0x0D
    ||| n == 0x20
    ||| n == 0x85
    ||| n == 0xA0
    ||| n == 0x1680
    ||| 0x2000 <= n <= 0x200A
    ||| n == 0x2028
    ||| n == 0x2029
    ||| n == 0x202F
    ||| n == 0x205F
    ||| n == 0x3000
}

pub fn is_space_char(c: char) -> (b: bool)
    ensures
        b == is_space(c),
{
    let n: u32 = c as u32;
    (0x09 <= n && n <= 0x0D) || n == 0x20 || n == 0x85 || n == 0xA0 || n == 0x1680 || (0x2000 <= n
        && n <= 0x200A) || n == 0x2028 || n == 0x2029 || n == 0x202F || n == 0x205F || n == 0x3000
}

/// `needle` stands in `hay` at index `at`.
pub open spec fn occurs_at(hay: Seq<char>, needle: Seq<char>, at: int) -> bool {
    &&& 0 <= at
    &&& at + needle.len() <= hay.len()
    &&& forall|k: int| 0 <= k < needle.len() ==> hay[at + k] == #[trigger] needle[k]
}

/// The least index at or after `from` where `needle` stands in `hay`.
pub open spec fn find_from(hay: Seq<char>, needle: Seq<char>, from: int) -> Option<int>
    decreases hay.len() - from,
{
    if from < 0 || from + needle.len() > hay.len() {
        None
    } else if occurs_at(hay, needle, from) {
        Some(from)
    } else {
        find_from(hay, needle, from + 1)
    }
}

/// The least index where `needle` stands in `hay`.
pub open spec fn find_first(hay: Seq<char>, needle: Seq<char>) -> Option<int> {
    find_from(hay, needle, 0)
}

/// `find_from` returns the least occurrence at or after `from`, and `None`
/// exactly when there is none.
pub proof fn lemma_find_from(hay: Seq<char>, needle: Seq<char>, from: int)
    requires
        0 <= from,
    ensures
        match find_from(hay, needle, from) {
            Some(i) => {
                &&& from <= i
                &&& occurs_at(hay, needle, i)
                &&& forall|j: int| from <= j < i ==> !occurs_at(hay, needle, j)
            },
            None => forall|j: int| from <= j ==> !occurs_at(hay, needle, j),
        },
    decreases hay.len() - from,
{
    if from + needle.len() > hay.len() {
    } else if occurs_at(hay, needle, from) {
    } else {
        lemma_find_from(hay, needle, from + 1);
    }
}

/// An occurrence at `at` with nothing between `from` and `at` is what
/// `find_from` returns.
pub proof fn lemma_find_from_is(hay: Seq<char>, needle: Seq<char>, from: int, at: int)
    requires
        0 <= from <= at,
        occurs_at(hay, needle, at),
        forall|j: int| from <= j < at ==> !occurs_at(hay, needle, j),
    ensures
        find_from(hay, needle, from) == Some(at),
    decreases at - from,
{
    if from < at {
        lemma_find_from_is(hay, needle, from + 1, at);
    }
}

/// Whether `needle` stands in `hay` at `at`.
pub fn occurs(hay: &Vec<char>, needle: &Vec<char>, at: usize) -> (b: bool)
    ensures
        b == occurs_at(hay@, needle@, at as int),
{
    let n: usize = needle.len();
    if n > hay.len() || at > hay.len() - n {
        return false;
    }
    let mut k: usize = 0;
    while k < n
        invariant
            k <= n,
            n == needle.len(),
            at + n <= hay.len(),
            forall|j: int| 0 <= j < k ==> hay@[at + j] == needle@[j],
        decreases n - k,
    {
        if hay[at + k] != needle[k] {
            return false;
        }
        k += 1;
    }
    true
}

/// The least index at or after `from` where `needle` stands in `hay`.
pub fn find(hay: &Vec<char>, needle: &Vec<char>, from: usize) -> (r: Option<usize>)
    ensures
        match r {
            Some(i) => find_from(hay@, needle@, from as int) == Some(i as int) && i + needle@.len()
                <= usize::MAX,
            None => find_from(hay@, needle@, from as int) is None,
        },
{
    let n: usize = needle.len();
    if n > hay.len() {
        return None;
    }
    let last: usize = hay.len() - n;
    let mut i: usize = from;
    while i <= last
        invariant
            from <= i,
            last + n == hay.len(),
            n == needle.len(),
            find_from(hay@, needle@, from as int) == find_from(hay@, needle@, i as int),
        decreases last + 1 - i,
    {
        if occurs(hay, needle, i) {
            return Some(i);
        }
        if i == last {
            assert(find_from(hay@, needle@, i + 1) is None);
            return None;
        }
        i += 1;
    }
    None
}

/// `s` without its leading white space.
pub open spec fn trim_start(s: Seq<char>) -> Seq<char>
    decreases s.len(),
{
    if s.len() > 0 && is_space(s[0]) {
        trim_start(s.drop_first())
    } else {
        s
    }
}

/// `s` without its trailing white space.
pub open spec fn trim_end(s: Seq<char>) -> Seq<char>
    decreases s.len(),
{
    if s.len() > 0 && is_space(s.last()) {
        trim_end(s.drop_last())
    } else {
        s
    }
}

/// `s` without leading and trailing white space.
pub open spec fn trim(s: Seq<char>) -> Seq<char> {
    trim_end(trim_start(s))
}

/// The bounds of the trimmed part of `v[lo..hi]`.
pub fn trim_bounds(v: &Vec<char>, lo: usize, hi: usize) -> (r: (usize, usize))
    requires
        lo <= hi <= v.len(),
    ensures
        lo <= r.0 <= r.1 <= hi,
        v@.subrange(r.0 as int, r.1 as int) == trim(v@.subrange(lo as int, hi as int)),
{
    let a: usize = skip_spaces(v, lo, hi);
    let mut b: usize = hi;
    while b > a && is_space_char(v[b - 1])
        invariant
            a <= b <= hi <= v.len(),
            trim_end(v@.subrange(a as int, hi as int)) == trim_end(v@.subrange(a as int, b as int)),
        decreases b,
    {
        assert(v@.subrange(a as int, b as int).last() == v@[b - 1]);
        assert(v@.subrange(a as int, b as int).drop_last() =~= v@.subrange(a as int, b - 1));
        b -= 1;
    }
    proof {
        if b > a {
            assert(v@.subrange(a as int, b as int).last() == v@[b - 1]);
        }
    }
    (a, b)
}

/// The first index in `lo..hi` that holds no white space, or `hi`.
pub fn skip_spaces(v: &Vec<char>, lo: usize, hi: usize) -> (a: usize)
    requires
        lo <= hi <= v.len(),
    ensures
        lo <= a <= hi,
        forall|k: int| lo <= k < a ==> is_space(v@[k]),
        a < hi ==> !is_space(v@[a as int]),
        v@.subrange(a as int, hi as int) == trim_start(v@.subrange(lo as int, hi as int)),
{
    let mut a: usize = lo;
    while a < hi && is_space_char(v[a])
        invariant
            lo <= a <= hi <= v.len(),
            forall|k: int| lo <= k < a ==> is_space(v@[k]),
            trim_start(v@.subrange(lo as int, hi as int)) == trim_start(
                v@.subrange(a as int, hi as int),
            ),
        decreases hi - a,
    {
        assert(v@.subrange(a as int, hi as int)[0] == v@[a as int]);
        assert(v@.subrange(a as int, hi as int).drop_first() =~= v@.subrange(a + 1, hi as int));
        a += 1;
    }
    proof {
        if a < hi {
            assert(v@.subrange(a as int, hi as int)[0] == v@[a as int]);
        }
    }
    a
}

/// The greatest index of `c` in `s`.
pub open spec fn last_index_of(s: Seq<char>, c: char) -> Option<int>
    decreases s.len(),
{
    if s.len() == 0 {
        None
    } else if s.last() == c {
        Some(s.len() - 1)
    } else {
        last_index_of(s.drop_last(), c)
    }
}

/// The greatest index of `c` in `v`.
pub fn rfind_char(v: &Vec<char>, c: char) -> (r: Option<usize>)
    ensures
        match r {
            Some(i) => last_index_of(v@, c) == Some(i as int) && i < v.len(),
            None => last_index_of(v@, c) is None,
        },
{
    let mut b: usize = v.len();
    assert(v@.subrange(0, b as int) =~= v@);
    while b > 0
        invariant
            b <= v.len(),
            last_index_of(v@, c) == last_index_of(v@.subrange(0, b as int), c),
        decreases b,
    {
        assert(v@.subrange(0, b as int).last() == v@[b - 1]);
        if v[b - 1] == c {
            return Some(b - 1);
        }
        assert(v@.subrange(0, b as int).drop_last() =~= v@.subrange(0, b - 1));
        b -= 1;
    }
    None
}

/// The part `lo..hi` of `s`, counted in characters.
pub fn slice_of(s: &str, lo: usize, hi: usize) -> (r: String)
    requires
        lo <= hi <= s@.len(),
    ensures
        r@ == s@.subrange(lo as int, hi as int),
{
    s.substring_char(lo, hi).to_owned()
}

/// Whether two vectors hold the same characters.
pub fn same_chars(a: &Vec<char>, b: &Vec<char>) -> (r: bool)
    ensures
        r == (a@ == b@),
{
    if a.len() != b.len() {
        return false;
    }
    let n: usize = a.len();
    let mut i: usize = 0;
    while i < n
        invariant
            i <= n,
            n == a.len(),
            n == b.len(),
            forall|k: int| 0 <= k < i ==> a@[k] == b@[k],
        decreases n - i,
    {
        if a[i] != b[i] {
            return false;
        }
        i += 1;
    }
    assert(a@ =~= b@);
    true
}

/// Whether two texts hold the same characters.
pub fn text_eq(a: &str, b: &str) -> (r: bool)
    ensures
        r == (a@ == b@),
{
    let x = chars_of(a);
    let y = chars_of(b);
    same_chars(&x, &y)
}

/// `s` without leading and trailing white space.
pub fn trimmed(s: &str) -> (r: String)
    ensures
        r@ == trim(s@),
{
    let v = chars_of(s);
    let (a, b) = trim_bounds(&v, 0, v.len());
    assert(v@.subrange(0, v@.len() as int) =~= v@);
    slice_of(s, a, b)
}

/// What `str::to_lowercase` returns for a text: its lower-case form by the
/// Unicode tables of the standard library.
pub uninterp spec fn lowercase_of(s: Seq<char>) -> Seq<char>;

/// Calls `str::to_lowercase`.
#[verifier::external_body]
pub(crate) fn lowercase(s: &str) -> (r: String)
    ensures
        r@ == lowercase_of(s@),
{
    s.to_lowercase()
}

/// What `str::replace` returns: the text with every occurrence of `from`
/// replaced by `to`, the occurrences taken from the left without overlap.
pub uninterp spec fn replaced(text: Seq<char>, from: Seq<char>, to: Seq<char>) -> Seq<char>;

/// Calls `str::replace`.
#[verifier::external_body]
pub(crate) fn replace_all(text: &str, from: &str, to: &str) -> (r: String)
    ensures
        r@ == replaced(text@, from@, to@),
{
    text.replace(from, to)
}

/// Calls `std::path::Path::file_name` on the path that `path` spells: the
/// last component of the path, as the system at hand splits paths; `None`
/// where the path ends in `..` or has no component. Nothing is promised of
/// the result, which differs between systems.
#[verifier::external_body]
pub(crate) fn file_name(path: &str) -> (r: Option<String>) {
    std::path::Path::new(path).file_name().and_then(|n| n.to_str()).map(|n| n.to_string())
}

/// The first index at or after `from` that holds no white space; the length
/// of `t` where only white space follows.
pub open spec fn spaces_end(t: Seq<char>, from: int) -> int
    decreases t.len() - from,
{
    if 0 <= from < t.len() && is_space(t[from]) {
        spaces_end(t, from + 1)
    } else {
        from
    }
}

/// `spaces_end` is the index where a run of white space stops.
pub proof fn lemma_spaces_end(t: Seq<char>, from: int, end: int)
    requires
        0 <= from <= end <= t.len(),
        forall|k: int| from <= k < end ==> is_space(t[k]),
        end < t.len() ==> !is_space(t[end]),
    ensures
        spaces_end(t, from) == end,
    decreases end - from,
{
    if from < end {
        lemma_spaces_end(t, from + 1, end);
    }
}

/// A run of white space stops at or after the index where it starts.
pub proof fn lemma_spaces_end_bounds(t: Seq<char>, from: int)
    ensures
        from <= spaces_end(t, from),
        from <= t.len() ==> spaces_end(t, from) <= t.len(),
    decreases t.len() - from,
{
    if 0 <= from < t.len() && is_space(t[from]) {
        lemma_spaces_end_bounds(t, from + 1);
    }
}

/// A run of white space that stops inside `t` stops at the same index when
/// text is added behind `t`.
pub proof fn lemma_spaces_end_extends(t: Seq<char>, more: Seq<char>, from: int)
    requires
        0 <= from,
        spaces_end(t, from) < t.len(),
    ensures
        spaces_end(t + more, from) == spaces_end(t, from),
    decreases t.len() - from,
{
    if from < t.len() && is_space(t[from]) {
        assert((t + more)[from] == t[from]);
        lemma_spaces_end_extends(t, more, from + 1);
    } else {
        assert((t + more)[from] == t[from]);
    }
}

/// The first index at or after `from` that holds white space; the length of
/// `t` where none follows.
pub open spec fn word_end(t: Seq<char>, from: int) -> int
    decreases t.len() - from,
{
    if 0 <= from < t.len() && !is_space(t[from]) {
        word_end(t, from + 1)
    } else {
        from
    }
}

/// A word ends at or after the index where it starts, and behind it where
/// that index holds no white space.
pub proof fn lemma_word_end_bounds(t: Seq<char>, from: int)
    ensures
        from <= word_end(t, from),
        from <= t.len() ==> word_end(t, from) <= t.len(),
        0 <= from < t.len() && !is_space(t[from]) ==> from < word_end(t, from),
    decreases t.len() - from,
{
    if 0 <= from < t.len() && !is_space(t[from]) {
        lemma_word_end_bounds(t, from + 1);
    }
}

/// `word_end` is the index where a run of other characters than white space
/// stops.
pub proof fn lemma_word_end(t: Seq<char>, from: int, end: int)
    requires
        0 <= from <= end <= t.len(),
        forall|k: int| from <= k < end ==> !is_space(t[k]),
        end < t.len() ==> is_space(t[end]),
    ensures
        word_end(t, from) == end,
    decreases end - from,
{
    if from < end {
        lemma_word_end(t, from + 1, end);
    }
}

/// The words of `t` from `from` on: the runs of characters between white
/// space.
pub open spec fn words_from(t: Seq<char>, from: int) -> Seq<Seq<char>>
    decreases t.len() - from,
{
    let start = spaces_end(t, from);
    if from < 0 || start >= t.len() {
        Seq::empty()
    } else {
        let end = word_end(t, start);
        proof {
            lemma_spaces_end_bounds(t, from);
            lemma_spaces_end_stops(t, from);
            lemma_word_end_bounds(t, start);
        }
        seq![t.subrange(start, end)] + words_from(t, end)
    }
}

/// A run of white space stops at a character that is none.
pub proof fn lemma_spaces_end_stops(t: Seq<char>, from: int)
    requires
        0 <= from,
    ensures
        spaces_end(t, from) < t.len() ==> !is_space(t[spaces_end(t, from)]),
    decreases t.len() - from,
{
    if from < t.len() && is_space(t[from]) {
        lemma_spaces_end_stops(t, from + 1);
    }
}

/// The words of a text.
pub open spec fn words_of(t: Seq<char>) -> Seq<Seq<char>> {
    words_from(t, 0)
}

/// The texts of some strings.
pub open spec fn texts_of(v: Seq<String>) -> Seq<Seq<char>> {
    v.map_values(|s: String| s@)
}

/// The first index in `lo..hi` that holds white space, or `hi`.
pub fn skip_word(v: &Vec<char>, lo: usize, hi: usize) -> (a: usize)
    requires
        lo <= hi <= v.len(),
    ensures
        lo <= a <= hi,
        forall|k: int| lo <= k < a ==> !is_space(v@[k]),
        a < hi ==> is_space(v@[a as int]),
{
    let mut a: usize = lo;
    while a < hi && !is_space_char(v[a])
        invariant
            lo <= a <= hi <= v.len(),
            forall|k: int| lo <= k < a ==> !is_space(v@[k]),
        decreases hi - a,
    {
        a += 1;
    }
    a
}

/// Splits a text into its words.
pub fn split_words(text: &str) -> (r: Vec<String>)
    ensures
        texts_of(r@) == words_of(text@),
{
    let t = chars_of(text);
    let n: usize = t.len();
    let mut r: Vec<String> = Vec::new();
    let mut pos: usize = 0;
    assert(texts_of(r@) + words_from(t@, 0) =~= words_from(t@, 0));
    loop
        invariant
            pos <= n,
            n == t.len(),
            t@ == text@,
            words_of(t@) == texts_of(r@) + words_from(t@, pos as int),
        ensures
            texts_of(r@) == words_of(text@),
        decreases n - pos,
    {
        let start: usize = skip_spaces(&t, pos, n);
        proof {
            lemma_spaces_end(t@, pos as int, start as int);
        }
        if start >= n {
            assert(texts_of(r@) + Seq::<Seq<char>>::empty() =~= texts_of(r@));
            break ;
        }
        let end: usize = skip_word(&t, start, n);
        proof {
            lemma_word_end(t@, start as int, end as int);
            lemma_word_end_bounds(t@, start as int);
        }
        let ghost before = texts_of(r@);
        r.push(slice_of(text, start, end));
        assert(texts_of(r@) =~= before.push(t@.subrange(start as int, end as int)));
        assert(before.push(t@.subrange(start as int, end as int)) + words_from(t@, end as int)
            =~= before + (seq![t@.subrange(start as int, end as int)] + words_from(
            t@,
            end as int,
        )));
        pos = end;
    }
    r
}

/// The lines of `t` from `from` on: the parts between line feeds. A line
/// feed at the very end opens no further line; a carriage return before a
/// line feed stays with its line.
pub open spec fn lines_from(t: Seq<char>, from: int) -> Seq<Seq<char>>
    decreases t.len() - from,
{
    if from < 0 || from >= t.len() {
        Seq::empty()
    } else {
        match find_from(t, "\n"@, from) {
            Some(at) => {
                proof {
                    lemma_find_from(t, "\n"@, from);
                }
                seq![t.subrange(from, at)] + lines_from(t, at + 1)
            },
            None => seq![t.subrange(from, t.len() as int)],
        }
    }
}

/// The lines of a text.
pub open spec fn lines_of(t: Seq<char>) -> Seq<Seq<char>> {
    lines_from(t, 0)
}

/// Splits a text into its lines.
pub fn split_lines(text: &str) -> (r: Vec<String>)
    ensures
        texts_of(r@) == lines_of(text@),
{
    let t = chars_of(text);
    let feed = chars_of("\n");
    let n: usize = t.len();
    let mut r: Vec<String> = Vec::new();
    let mut pos: usize = 0;
    assert(texts_of(r@) + lines_from(t@, 0) =~= lines_from(t@, 0));
    while pos < n
        invariant
            pos <= n,
            n == t.len(),
            t@ == text@,
            feed@ == "\n"@,
            lines_of(t@) == texts_of(r@) + lines_from(t@, pos as int),
        decreases n - pos,
    {
        let ghost before = texts_of(r@);
        match find(&t, &feed, pos) {
            Some(at) => {
                proof {
                    lemma_find_from(t@, feed@, pos as int);
                    reveal_strlit("\n");
                }
                r.push(slice_of(text, pos, at));
                assert(texts_of(r@) =~= before.push(t@.subrange(pos as int, at as int)));
                assert(before.push(t@.subrange(pos as int, at as int)) + lines_from(t@, at + 1)
                    =~= before + (seq![t@.subrange(pos as int, at as int)] + lines_from(
                    t@,
                    at + 1,
                )));
                pos = at + 1;
            },
            None => {
                r.push(slice_of(text, pos, n));
                assert(texts_of(r@) =~= before.push(t@.subrange(pos as int, n as int)));
                assert(before.push(t@.subrange(pos as int, n as int)) + lines_from(t@, n as int)
                    =~= before + seq![t@.subrange(pos as int, n as int)]);
                pos = n;
            },
        }
    }
    assert(texts_of(r@) + Seq::<Seq<char>>::empty() =~= texts_of(r@));
    r
}

/// Whether `text` starts with `prefix`.
pub fn starts_with(text: &str, prefix: &str) -> (r: bool)
    ensures
        r == occurs_at(text@, prefix@, 0),
{
    let t = chars_of(text);
    let p = chars_of(prefix);
    occurs(&t, &p, 0)
}

/// `text` without its first `count` characters, trimmed.
pub fn trimmed_after(text: &str, count: usize) -> (r: String)
    requires
        count <= text@.len(),
    ensures
        r@ == trim(text@.skip(count as int)),
{
    let t = chars_of(text);
    let n: usize = t.len();
    let rest = slice_of(text, count, n);
    assert(t@.subrange(count as int, n as int) =~= t@.skip(count as int));
    trimmed(rest.as_str())
}

} // verus!
