//! The width of text on a terminal, and the wrapping of text into lines.

use crate::strings::{chars_of, skip_spaces, slice_of, trim_start};
use vstd::prelude::*;

verus! {

/// Whether a character takes two columns: the East Asian scripts and forms.
pub open spec fn is_wide(c: char) -> bool {
    let n = c as u32;
    ||| 0x1100 <= n <= 0x115F
    ||| 0x2E80 <= n <= 0x2EFF
    ||| 0x2F00 <= n <= 0x2FDF
    ||| 0x3000 <= n <= 0x303F
    ||| 0x3040 <= n <= 0x309F
    ||| 0x30A0 <= n <= 0x30FF
    ||| 0x3100 <= n <= 0x312F
    ||| 0x3130 <= n <= 0x318F
    ||| 0x3190 <= n <= 0x319F
    ||| 0x31A0 <= n <= 0x31BF
    ||| 0x31C0 <= n <= 0x31EF
    ||| 0x31F0 <= n <= 0x31FF
    ||| 0x3200 <= n <= 0x32FF
    ||| 0x3300 <= n <= 0x33FF
    ||| 0x3400 <= n <= 0x4DBF
    ||| 0x4E00 <= n <= 0x9FFF
    ||| 0xA000 <= n <= 0xA48F
    ||| 0xA490 <= n <= 0xA4CF
    ||| 0xAC00 <= n <= 0xD7AF
    ||| 0xF900 <= n <= 0xFAFF
    ||| 0xFE10 <= n <= 0xFE19
    ||| 0xFE30 <= n <= 0xFE4F
    ||| 0xFE50 <= n <= 0xFE6F
    ||| 0xFF00 <= n <= 0xFFEF
    ||| 0x20000 <= n <= 0x2A6DF
    ||| 0x2A700 <= n <= 0x2B73F
    ||| 0x2B740 <= n <= 0x2B81F
    ||| 0x2B820 <= n <= 0x2CEAF
    ||| 0x2CEB0 <= n <= 0x2EBEF
}

/// The columns that a character takes: two if it is wide, else one.
pub open spec fn char_width(c: char) -> nat {
    if is_wide(c) {
        2
    } else {
        1
    }
}

/// The columns that a text takes.
pub open spec fn width_of(s: Seq<char>) -> nat
    decreases s.len(),
{
    if s.len() == 0 {
        0
    } else {
        char_width(s[0]) + width_of(s.drop_first())
    }
}

/// The columns that `c` takes.
pub fn width_of_char(c: char) -> (w: usize)
    ensures
        w == char_width(c),
{
    let n: u32 = c as u32;
    if (0x1100 <= n && n <= 0x115F) || (0x2E80 <= n && n <= 0x2EFF) || (0x2F00 <= n && n <= 0x2FDF)
        || (0x3000 <= n && n <= 0x303F) || (0x3040 <= n && n <= 0x309F) || (0x30A0 <= n && n
        <= 0x30FF) || (0x3100 <= n && n <= 0x312F) || (0x3130 <= n && n <= 0x318F) || (0x3190 <= n
        && n <= 0x319F) || (0x31A0 <= n && n <= 0x31BF) || (0x31C0 <= n && n <= 0x31EF) || (0x31F0
        <= n && n <= 0x31FF) || (0x3200 <= n && n <= 0x32FF) || (0x3300 <= n && n <= 0x33FF) || (
    0x3400 <= n && n <= 0x4DBF) || (0x4E00 <= n && n <= 0x9FFF) || (0xA000 <= n && n <= 0xA48F) || (
    0xA490 <= n && n <= 0xA4CF) || (0xAC00 <= n && n <= 0xD7AF) || (0xF900 <= n && n <= 0xFAFF) || (
    0xFE10 <= n && n <= 0xFE19) || (0xFE30 <= n && n <= 0xFE4F) || (0xFE50 <= n && n <= 0xFE6F) || (
    0xFF00 <= n && n <= 0xFFEF) || (0x20000 <= n && n <= 0x2A6DF) || (0x2A700 <= n && n <= 0x2B73F)
        || (0x2B740 <= n && n <= 0x2B81F) || (0x2B820 <= n && n <= 0x2CEAF) || (0x2CEB0 <= n && n
        <= 0x2EBEF) {
        2
    } else {
        1
    }
}

/// A text takes at most two columns for each of its characters.
pub proof fn lemma_width_bound(s: Seq<char>)
    ensures
        s.len() <= width_of(s) <= 2 * s.len(),
    decreases s.len(),
{
    if s.len() > 0 {
        lemma_width_bound(s.drop_first());
    }
}

/// The columns that `s` takes; the greatest number where the width is above
/// all numbers of the machine.
pub fn display_width(s: &str) -> (w: usize)
    ensures
        w == if width_of(s@) <= usize::MAX {
            width_of(s@)
        } else {
            usize::MAX as nat
        },
{
    let t = chars_of(s);
    let n: usize = t.len();
    let mut total: u128 = 0;
    let mut i: usize = 0;
    assert(t@.skip(0) =~= t@);
    while i < n
        invariant
            i <= n,
            n == t.len(),
            total <= 2 * i,
            width_of(t@) == total + width_of(t@.skip(i as int)),
        decreases n - i,
    {
        assert(t@.skip(i as int)[0] == t@[i as int]);
        assert(t@.skip(i as int).drop_first() =~= t@.skip(i + 1));
        let w: usize = width_of_char(t[i]);
        total = total + (w as u128);
        i += 1;
    }
    if total > (usize::MAX as u128) {
        usize::MAX
    } else {
        total as usize
    }
}

/// How many characters at the start of `s` fit into `budget` columns.
pub open spec fn fit_count(s: Seq<char>, budget: nat) -> nat
    decreases s.len(),
{
    if s.len() == 0 || char_width(s[0]) > budget {
        0
    } else {
        1 + fit_count(s.drop_first(), (budget - char_width(s[0])) as nat)
    }
}

/// The index of the last blank among the first `k` characters of `s`; `0`
/// where there is none.
pub open spec fn last_blank_before(s: Seq<char>, k: int) -> int
    decreases k,
{
    if k <= 0 || k > s.len() {
        0
    } else if s[k - 1] == ' ' {
        k - 1
    } else {
        last_blank_before(s, k - 1)
    }
}

/// The lines that `s` is wrapped into, none of them wider than `max`.
///
/// A text that fits is one line. Else the line takes the characters that
/// fit; where a blank stands among them, other than at the very start, the
/// line ends before the last such blank, and the text goes on behind it
/// without its leading white space; else the line is cut where the width is
/// used up. A text of which not even the first character fits stays whole.
pub open spec fn wrapped(s: Seq<char>, max: nat) -> Seq<Seq<char>>
    decreases s.len(),
{
    if s.len() == 0 {
        Seq::empty()
    } else if width_of(s) <= max {
        seq![s]
    } else {
        let fit = fit_count(s, max);
        let at = last_blank_before(s, fit as int);
        if at > 0 {
            proof {
                lemma_blank_bounds(s, fit as int);
                lemma_fit_bounds(s, max);
                lemma_trim_start_len(s.skip(at + 1));
            }
            seq![s.take(at)] + wrapped(trim_start(s.skip(at + 1)), max)
        } else if fit > 0 {
            proof {
                lemma_fit_bounds(s, max);
            }
            seq![s.take(fit as int)] + wrapped(s.skip(fit as int), max)
        } else {
            seq![s]
        }
    }
}

/// No more characters fit than there are.
pub proof fn lemma_fit_bounds(s: Seq<char>, budget: nat)
    ensures
        fit_count(s, budget) <= s.len(),
    decreases s.len(),
{
    if s.len() > 0 && char_width(s[0]) <= budget {
        lemma_fit_bounds(s.drop_first(), (budget - char_width(s[0])) as nat);
    }
}

/// The last blank before `k` stands before `k`.
pub proof fn lemma_blank_bounds(s: Seq<char>, k: int)
    ensures
        0 <= last_blank_before(s, k),
        k > 0 ==> last_blank_before(s, k) < k,
        last_blank_before(s, k) > 0 ==> k <= s.len(),
    decreases k,
{
    if 0 < k <= s.len() && s[k - 1] != ' ' {
        lemma_blank_bounds(s, k - 1);
    }
}

/// Trimming makes a text no longer.
pub proof fn lemma_trim_start_len(s: Seq<char>)
    ensures
        trim_start(s).len() <= s.len(),
    decreases s.len(),
{
    if s.len() > 0 && crate::strings::is_space(s[0]) {
        lemma_trim_start_len(s.drop_first());
    }
}

/// A text fits into `max` columns exactly when all its characters fit.
pub proof fn lemma_fits_whole(s: Seq<char>, max: nat)
    ensures
        width_of(s) <= max <==> fit_count(s, max) == s.len(),
    decreases s.len(),
{
    if s.len() > 0 {
        if char_width(s[0]) <= max {
            lemma_fits_whole(s.drop_first(), (max - char_width(s[0])) as nat);
        } else {
            lemma_width_bound(s.drop_first());
        }
    }
}

/// Whether `s` can be wrapped into lines of at most `max` columns: every
/// character has to fit into a line by itself.
pub open spec fn can_wrap(s: Seq<char>, max: nat) -> bool {
    forall|i: int| 0 <= i < s.len() ==> char_width(#[trigger] s[i]) <= max
}

/// Whether `text` can be wrapped into lines of at most `max_line_len`
/// columns.
pub fn can_wrap_text(text: &str, max_line_len: usize) -> (r: bool)
    ensures
        r == can_wrap(text@, max_line_len as nat),
{
    let t = chars_of(text);
    let n: usize = t.len();
    let mut i: usize = 0;
    while i < n
        invariant
            i <= n,
            n == t.len(),
            t@ == text@,
            forall|k: int| 0 <= k < i ==> char_width(#[trigger] t@[k]) <= max_line_len,
        decreases n - i,
    {
        if width_of_char(t[i]) > max_line_len {
            assert(char_width(text@[i as int]) > max_line_len);
            return false;
        }
        i += 1;
    }
    true
}

/// The texts of some lines.
pub open spec fn line_texts(lines: Seq<String>) -> Seq<Seq<char>> {
    lines.map_values(|l: String| l@)
}

/// Counts the characters from `pos` on that fit into `max` columns, and
/// finds the last blank among them.
fn scan_line(t: &Vec<char>, pos: usize, max: usize) -> (r: (usize, usize))
    requires
        pos <= t.len(),
    ensures
        r.0 == fit_count(t@.skip(pos as int), max as nat),
        r.1 == last_blank_before(t@.skip(pos as int), r.0 as int),
        pos + r.0 <= t.len(),
        r.1 <= r.0,
{
    let ghost s = t@.skip(pos as int);
    let n: usize = t.len();
    let mut budget: usize = max;
    let mut i: usize = 0;
    let mut at: usize = 0;
    assert(s.skip(0) =~= s);
    while pos + i < n
        invariant
            pos + i <= n,
            n == t.len(),
            s == t@.skip(pos as int),
            at <= i,
            fit_count(s, max as nat) == i + fit_count(s.skip(i as int), budget as nat),
            at == last_blank_before(s, i as int),
        decreases n - pos - i,
    {
        let c = t[pos + i];
        assert(s.skip(i as int)[0] == c);
        assert(s.skip(i as int).drop_first() =~= s.skip(i + 1));
        assert(s[i as int] == c);
        let w: usize = width_of_char(c);
        if w > budget {
            return (i, at);
        }
        if c == ' ' {
            at = i;
        }
        budget = budget - w;
        i += 1;
    }
    (i, at)
}

/// Wraps `text` into lines of at most `max_line_len` columns.
pub fn wrap_text(text: &str, max_line_len: usize) -> (lines: Vec<String>)
    requires
        can_wrap(text@, max_line_len as nat),
    ensures
        line_texts(lines@) == wrapped(text@, max_line_len as nat),
{
    let t = chars_of(text);
    let n: usize = t.len();
    let ghost max = max_line_len as nat;
    let mut lines: Vec<String> = Vec::new();
    let mut pos: usize = 0;
    assert(t@.skip(0) =~= t@);
    assert(line_texts(lines@) + wrapped(t@, max) =~= wrapped(t@, max));
    while pos < n
        invariant
            pos <= n,
            n == t.len(),
            t@ == text@,
            max == max_line_len as nat,
            can_wrap(t@, max),
            wrapped(t@, max) == line_texts(lines@) + wrapped(t@.skip(pos as int), max),
        decreases n - pos,
    {
        let ghost s = t@.skip(pos as int);
        let ghost before = line_texts(lines@);
        let (fit, at) = scan_line(&t, pos, max_line_len);
        proof {
            lemma_fits_whole(s, max);
            assert(s[0] == t@[pos as int]);
            assert(char_width(t@[pos as int]) <= max);
        }
        if pos + fit == n {
            lines.push(slice_of(text, pos, n));
            assert(t@.subrange(pos as int, n as int) =~= s);
            assert(line_texts(lines@) =~= before.push(s));
            assert(t@.skip(n as int) =~= Seq::<char>::empty());
            assert(before.push(s) + wrapped(t@.skip(n as int), max) =~= before + seq![s]);
            pos = n;
        } else if at > 0 {
            let line = slice_of(text, pos, pos + at);
            lines.push(line);
            let next: usize = skip_spaces(&t, pos + at + 1, n);
            proof {
                assert(t@.subrange(pos as int, pos + at) =~= s.take(at as int));
                assert(t@.subrange(pos + at + 1, n as int) =~= s.skip(at + 1));
                assert(t@.subrange(next as int, n as int) =~= t@.skip(next as int));
                assert(line_texts(lines@) =~= before.push(s.take(at as int)));
                assert(before.push(s.take(at as int)) + wrapped(t@.skip(next as int), max)
                    =~= before + (seq![s.take(at as int)] + wrapped(t@.skip(next as int), max)));
            }
            pos = next;
        } else {
            let line = slice_of(text, pos, pos + fit);
            lines.push(line);
            proof {
                assert(fit > 0);
                assert(t@.subrange(pos as int, pos + fit) =~= s.take(fit as int));
                assert(t@.skip(pos + fit) =~= s.skip(fit as int));
                assert(line_texts(lines@) =~= before.push(s.take(fit as int)));
                assert(before.push(s.take(fit as int)) + wrapped(t@.skip(pos + fit), max)
                    =~= before + (seq![s.take(fit as int)] + wrapped(t@.skip(pos + fit), max)));
            }
            pos = pos + fit;
        }
    }
    assert(t@.skip(n as int) =~= Seq::<char>::empty());
    assert(line_texts(lines@) + Seq::<Seq<char>>::empty() =~= line_texts(lines@));
    lines
}

/// The characters that fit take no more columns than the budget.
pub proof fn lemma_fit_width(s: Seq<char>, budget: nat)
    ensures
        width_of(s.take(fit_count(s, budget) as int)) <= budget,
    decreases s.len(),
{
    if s.len() > 0 && char_width(s[0]) <= budget {
        let rest = (budget - char_width(s[0])) as nat;
        let k = fit_count(s.drop_first(), rest) as int;
        lemma_fit_width(s.drop_first(), rest);
        lemma_fit_bounds(s.drop_first(), rest);
        assert(s.take(1 + k)[0] == s[0]);
        assert(s.take(1 + k).drop_first() =~= s.drop_first().take(k));
    } else {
        assert(s.take(0) =~= Seq::<char>::empty());
    }
}

/// A shorter start of a text takes no more columns than a longer one.
pub proof fn lemma_width_prefix(s: Seq<char>, a: int, b: int)
    requires
        0 <= a <= b <= s.len(),
    ensures
        width_of(s.take(a)) <= width_of(s.take(b)),
    decreases s.len(),
{
    if a == 0 {
        assert(s.take(0) =~= Seq::<char>::empty());
    } else {
        assert(s.take(a)[0] == s[0]);
        assert(s.take(b)[0] == s[0]);
        assert(s.take(a).drop_first() =~= s.drop_first().take(a - 1));
        assert(s.take(b).drop_first() =~= s.drop_first().take(b - 1));
        lemma_width_prefix(s.drop_first(), a - 1, b - 1);
    }
}

/// A trimmed text is what is left of the text behind some of its
/// characters.
pub proof fn lemma_trim_start_suffix(s: Seq<char>) -> (k: int)
    ensures
        0 <= k <= s.len(),
        trim_start(s) == s.skip(k),
    decreases s.len(),
{
    if s.len() > 0 && crate::strings::is_space(s[0]) {
        let k = lemma_trim_start_suffix(s.drop_first());
        assert(s.drop_first().skip(k) =~= s.skip(k + 1));
        k + 1
    } else {
        assert(s.skip(0) =~= s);
        0
    }
}

/// Wrapping keeps its promise: where every character fits into a line by
/// itself, no line is wider than asked for, and no line is empty.
pub proof fn law_wrapped_lines_fit(s: Seq<char>, max: nat)
    requires
        can_wrap(s, max),
    ensures
        forall|i: int|
            0 <= i < wrapped(s, max).len() ==> width_of(#[trigger] wrapped(s, max)[i]) <= max
                && wrapped(s, max)[i].len() > 0,
    decreases s.len(),
{
    if s.len() > 0 && width_of(s) > max {
        let fit = fit_count(s, max);
        let at = last_blank_before(s, fit as int);
        lemma_fit_bounds(s, max);
        lemma_fit_width(s, max);
        lemma_blank_bounds(s, fit as int);
        assert(char_width(s[0]) <= max);
        assert(fit > 0);
        if at > 0 {
            let behind = s.skip(at + 1);
            let k = lemma_trim_start_suffix(behind);
            let rest = trim_start(behind);
            assert(rest =~= s.skip(at + 1 + k));
            assert(can_wrap(rest, max)) by {
                assert forall|i: int| 0 <= i < rest.len() implies char_width(
                    #[trigger] rest[i],
                ) <= max by {
                    assert(rest[i] == s[at + 1 + k + i]);
                }
            }
            law_wrapped_lines_fit(rest, max);
            lemma_width_prefix(s, at, fit as int);
            let tail = wrapped(rest, max);
            assert forall|i: int| 0 <= i < wrapped(s, max).len() implies width_of(
                #[trigger] wrapped(s, max)[i],
            ) <= max && wrapped(s, max)[i].len() > 0 by {
                if i > 0 {
                    assert(wrapped(s, max)[i] == tail[i - 1]);
                }
            }
        } else {
            let rest = s.skip(fit as int);
            assert(can_wrap(rest, max)) by {
                assert forall|i: int| 0 <= i < rest.len() implies char_width(
                    #[trigger] rest[i],
                ) <= max by {
                    assert(rest[i] == s[fit + i]);
                }
            }
            law_wrapped_lines_fit(rest, max);
            let tail = wrapped(rest, max);
            assert forall|i: int| 0 <= i < wrapped(s, max).len() implies width_of(
                #[trigger] wrapped(s, max)[i],
            ) <= max && wrapped(s, max)[i].len() > 0 by {
                if i > 0 {
                    assert(wrapped(s, max)[i] == tail[i - 1]);
                }
            }
        }
    }
}

} // verus!
