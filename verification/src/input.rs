//! The completion of slash commands on the input line.

use crate::strings::{chars_of, occurs, occurs_at, slice_of, texts_of};
use vstd::prelude::*;

verus! {

/// Whether `name` starts with `prefix`.
pub open spec fn starts_with(name: Seq<char>, prefix: Seq<char>) -> bool {
    occurs_at(name, prefix, 0)
}

/// Those of `names` that start with `prefix`, in their order.
pub open spec fn with_prefix(names: Seq<Seq<char>>, prefix: Seq<char>) -> Seq<Seq<char>>
    decreases names.len(),
{
    if names.len() == 0 {
        Seq::empty()
    } else if starts_with(names.last(), prefix) {
        with_prefix(names.drop_last(), prefix).push(names.last())
    } else {
        with_prefix(names.drop_last(), prefix)
    }
}

/// The commands that complete a line, with the cursor behind `pos`
/// characters. A line that starts with a slash is completed by the commands
/// that start with what stands between the slash and the cursor; `None`
/// where the line is no command, where the cursor stands before the slash or
/// behind the line, and where no command fits.
pub open spec fn completions_of(line: Seq<char>, pos: int, names: Seq<Seq<char>>) -> Option<
    Seq<Seq<char>>,
> {
    if line.len() > 0 && line[0] == '/' && 1 <= pos <= line.len() {
        let found = with_prefix(names, line.subrange(1, pos));
        if found.len() > 0 {
            Some(found)
        } else {
            None
        }
    } else {
        None
    }
}

/// The commands among `names` that complete `line`; where there are some,
/// they replace the line from its second character on.
pub fn complete_command(line: &str, pos: usize, names: &Vec<String>) -> (r: Option<Vec<String>>)
    ensures
        match completions_of(line@, pos as int, texts_of(names@)) {
            Some(found) => r matches Some(v) && texts_of(v@) == found,
            None => r is None,
        },
{
    let t = chars_of(line);
    if t.len() == 0 || t[0] != '/' || pos < 1 || pos > t.len() {
        return None;
    }
    let prefix = chars_of(slice_of(line, 1, pos).as_str());
    let ghost all = texts_of(names@);
    let mut found: Vec<String> = Vec::new();
    let n: usize = names.len();
    let mut i: usize = 0;
    assert(texts_of(found@) =~= with_prefix(all.take(0), prefix@));
    while i < n
        invariant
            i <= n,
            n == names.len(),
            all == texts_of(names@),
            texts_of(found@) == with_prefix(all.take(i as int), prefix@),
        decreases n - i,
    {
        assert(all.take(i + 1).drop_last() =~= all.take(i as int));
        assert(all.take(i + 1).last() == names@[i as int]@);
        let name = chars_of(names[i].as_str());
        if occurs(&name, &prefix, 0) {
            let ghost before = texts_of(found@);
            found.push(names[i].clone());
            assert(texts_of(found@) =~= before.push(names@[i as int]@));
        }
        i += 1;
    }
    assert(all.take(n as int) =~= all);
    if found.len() > 0 {
        Some(found)
    } else {
        None
    }
}

} // verus!
