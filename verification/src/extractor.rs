//! Finds a tool call in the text of a model's response: the name of the tool
//! and the JSON arguments that go with it.

use crate::json::{empty_object_tree, json_document, member_of, JsonDoc, JsonValue};
use crate::strings::{
    chars_of, find, find_first, find_from, last_index_of, lemma_find_from, lemma_find_from_is,
    lemma_spaces_end, lemma_spaces_end_bounds, lemma_spaces_end_extends, occurs, occurs_at,
    rfind_char, skip_spaces, slice_of, spaces_end,
};
use vstd::prelude::*;

verus! {

/// The key that announces a tool call, quotes included.
pub open spec fn tool_key() -> Seq<char> {
    "\"tool\""@
}

/// One double quote.
pub open spec fn quote() -> Seq<char> {
    "\""@
}

/// The tool name that is announced at index `at`: there stands the key, then
/// a colon and an opening quote, each after optional white space, then the
/// name, which is not empty and runs up to the next quote.
pub open spec fn tool_name_at(t: Seq<char>, at: int) -> Option<Seq<char>> {
    let colon = spaces_end(t, at + tool_key().len());
    let open = spaces_end(t, colon + 1);
    if occurs_at(t, tool_key(), at) && colon < t.len() && t[colon] == ':' && open < t.len()
        && t[open] == '"' {
        match find_from(t, quote(), open + 1) {
            Some(close) => if close > open + 1 {
                Some(t.subrange(open + 1, close))
            } else {
                None
            },
            None => None,
        }
    } else {
        None
    }
}

/// The tool name that is announced first at or after `from`.
pub open spec fn tool_name_from(t: Seq<char>, from: int) -> Option<Seq<char>>
    decreases t.len() - from,
{
    if from < 0 || from >= t.len() {
        None
    } else if tool_name_at(t, from) is Some {
        tool_name_at(t, from)
    } else {
        tool_name_from(t, from + 1)
    }
}

/// The tool name that a response announces, if it announces one: that of the
/// leftmost announcement.
pub open spec fn tool_name_of(t: Seq<char>) -> Option<Seq<char>> {
    tool_name_from(t, 0)
}

/// Whether a text announces a tool call.
pub open spec fn announces_tool(t: Seq<char>) -> bool {
    tool_name_of(t) is Some
}

/// The fence that opens a block of JSON.
pub open spec fn json_fence() -> Seq<char> {
    "```json"@
}

/// The fence that opens or closes any block.
pub open spec fn fence() -> Seq<char> {
    "```"@
}

/// The body of the first block that `opening` opens: what stands between it
/// and the next fence. `None` where the opening or the closing fence is
/// missing.
pub open spec fn fenced_body(t: Seq<char>, opening: Seq<char>) -> Option<Seq<char>> {
    match find_first(t, opening) {
        Some(start) => match find_from(t, fence(), start + opening.len()) {
            Some(end) => Some(t.subrange(start + opening.len(), end)),
            None => None,
        },
        None => None,
    }
}

/// The text from the first `{` (or the start) to the last `}` (or the end);
/// `None` where the last `}` stands before the first `{`.
pub open spec fn brace_slice(t: Seq<char>) -> Option<Seq<char>> {
    let start = match find_first(t, "{"@) {
        Some(i) => i,
        None => 0,
    };
    let end = match last_index_of(t, '}') {
        Some(i) => i + 1,
        None => t.len() as int,
    };
    if start <= end {
        Some(t.subrange(start, end))
    } else {
        None
    }
}

/// The document that a candidate text holds, if there is a candidate and it
/// is a JSON document.
pub open spec fn document_in(candidate: Option<Seq<char>>) -> Option<JsonValue> {
    match candidate {
        Some(text) => json_document(text),
        None => None,
    }
}

/// The JSON document of a tool call. Four candidates are tried in order and
/// the first that is a JSON document wins: the whole text, the body of the
/// first block fenced as JSON, the body of the first fenced block, the text
/// between the outermost braces.
pub open spec fn call_document(t: Seq<char>) -> Option<JsonValue> {
    if json_document(t) is Some {
        json_document(t)
    } else if document_in(fenced_body(t, json_fence())) is Some {
        document_in(fenced_body(t, json_fence()))
    } else if document_in(fenced_body(t, fence())) is Some {
        document_in(fenced_body(t, fence()))
    } else {
        document_in(brace_slice(t))
    }
}

/// The arguments of a tool call: the member `arguments` of its document, and
/// the empty object where the document or the member is missing.
pub open spec fn call_arguments(t: Seq<char>) -> JsonValue {
    match call_document(t) {
        Some(doc) => match member_of(doc, "arguments"@) {
            Some(arguments) => arguments,
            None => empty_object_tree(),
        },
        None => empty_object_tree(),
    }
}

/// A request to call a tool, as found in a response.
pub struct ToolInvocation {
    pub tool_name: String,
    pub arguments: JsonDoc,
}

/// Where no name is announced between `from` and `to`, the search from
/// `from` finds what the search from `to` finds.
pub proof fn lemma_tool_name_skip(t: Seq<char>, from: int, to: int)
    requires
        0 <= from <= to <= t.len(),
        forall|j: int| from <= j < to ==> tool_name_at(t, j) is None,
    ensures
        tool_name_from(t, from) == tool_name_from(t, to),
    decreases to - from,
{
    if from < to {
        lemma_tool_name_skip(t, from + 1, to);
    }
}

/// The bounds of the name that is announced at `at`.
fn name_bounds_at(t: &Vec<char>, key: &Vec<char>, mark: &Vec<char>, at: usize) -> (r: Option<
    (usize, usize),
>)
    requires
        key@ == tool_key(),
        mark@ == quote(),
    ensures
        match r {
            Some((a, b)) => a <= b <= t.len() && tool_name_at(t@, at as int) == Some(
                t@.subrange(a as int, b as int),
            ),
            None => tool_name_at(t@, at as int) is None,
        },
{
    if !occurs(t, key, at) {
        return None;
    }
    let n: usize = t.len();
    let colon: usize = skip_spaces(t, at + key.len(), n);
    proof {
        lemma_spaces_end(t@, at + key.len(), colon as int);
    }
    if colon >= n || t[colon] != ':' {
        return None;
    }
    let open: usize = skip_spaces(t, colon + 1, n);
    proof {
        lemma_spaces_end(t@, colon + 1, open as int);
    }
    if open >= n || t[open] != '"' {
        return None;
    }
    match find(t, mark, open + 1) {
        Some(close) => {
            proof {
                lemma_find_from(t@, mark@, open + 1);
            }
            if close > open + 1 {
                Some((open + 1, close))
            } else {
                None
            }
        },
        None => None,
    }
}

/// The bounds of the tool name that `t` announces.
pub fn find_tool_name(t: &Vec<char>) -> (r: Option<(usize, usize)>)
    ensures
        match r {
            Some((a, b)) => a <= b <= t.len() && tool_name_of(t@) == Some(
                t@.subrange(a as int, b as int),
            ),
            None => tool_name_of(t@) is None,
        },
{
    let key = chars_of("\"tool\"");
    let mark = chars_of("\"");
    proof {
        reveal_strlit("\"tool\"");
    }
    let n: usize = t.len();
    let mut i: usize = 0;
    while i < n
        invariant
            i <= n,
            n == t.len(),
            key@ == tool_key(),
            key@.len() == 6,
            mark@ == quote(),
            tool_name_of(t@) == tool_name_from(t@, i as int),
        decreases n - i,
    {
        match find(t, &key, i) {
            None => {
                proof {
                    lemma_find_from(t@, key@, i as int);
                    lemma_tool_name_skip(t@, i as int, n as int);
                }
                return None;
            },
            Some(p) => {
                proof {
                    lemma_find_from(t@, key@, i as int);
                    lemma_tool_name_skip(t@, i as int, p as int);
                }
                match name_bounds_at(t, &key, &mark, p) {
                    Some(bounds) => {
                        return Some(bounds);
                    },
                    None => {
                        i = p + 1;
                    },
                }
            },
        }
    }
    None
}

/// Whether `text` announces a tool call.
pub fn is_tool_call(text: &str) -> (b: bool)
    ensures
        b == announces_tool(text@),
{
    let t = chars_of(text);
    find_tool_name(&t).is_some()
}

/// The body of the first block of `t` that `opening` opens, as bounds.
fn fenced_bounds(t: &Vec<char>, opening: &Vec<char>, closing: &Vec<char>) -> (r: Option<
    (usize, usize),
>)
    requires
        closing@ == fence(),
    ensures
        match r {
            Some((a, b)) => a <= b <= t.len() && fenced_body(t@, opening@) == Some(
                t@.subrange(a as int, b as int),
            ),
            None => fenced_body(t@, opening@) is None,
        },
{
    match find(t, opening, 0) {
        None => None,
        Some(start) => {
            proof {
                lemma_find_from(t@, opening@, 0);
            }
            let body: usize = start + opening.len();
            match find(t, closing, body) {
                None => None,
                Some(end) => {
                    proof {
                        lemma_find_from(t@, closing@, body as int);
                    }
                    Some((body, end))
                },
            }
        },
    }
}

/// The bounds of the text between the outermost braces of `t`.
fn brace_bounds(t: &Vec<char>) -> (r: Option<(usize, usize)>)
    ensures
        match r {
            Some((a, b)) => a <= b <= t.len() && brace_slice(t@) == Some(
                t@.subrange(a as int, b as int),
            ),
            None => brace_slice(t@) is None,
        },
{
    let brace = chars_of("{");
    let start: usize = match find(t, &brace, 0) {
        Some(i) => {
            proof {
                lemma_find_from(t@, brace@, 0);
            }
            i
        },
        None => 0,
    };
    let end: usize = match rfind_char(t, '}') {
        Some(i) => i + 1,
        None => t.len(),
    };
    if start <= end {
        Some((start, end))
    } else {
        None
    }
}

/// Reads the candidate `bounds` of `text` as a JSON document.
fn parse_candidate(text: &str, t: &Vec<char>, bounds: Option<(usize, usize)>) -> (r: Option<
    JsonDoc,
>)
    requires
        t@ == text@,
        bounds matches Some((a, b)) ==> a <= b <= t.len(),
    ensures
        ({
            let candidate = match bounds {
                Some((a, b)) => Some(t@.subrange(a as int, b as int)),
                None => None,
            };
            &&& r is Some <==> document_in(candidate) is Some
            &&& r matches Some(doc) ==> document_in(candidate) == Some(doc@)
        }),
{
    match bounds {
        Some((a, b)) => {
            let part = slice_of(text, a, b);
            JsonDoc::parse(part.as_str())
        },
        None => None,
    }
}

/// The JSON document of the tool call in `text`.
pub fn parse_call_document(text: &str) -> (r: Option<JsonDoc>)
    ensures
        r is Some <==> call_document(text@) is Some,
        r matches Some(doc) ==> call_document(text@) == Some(doc@),
{
    let whole = JsonDoc::parse(text);
    if whole.is_some() {
        return whole;
    }
    let t = chars_of(text);
    let closing = chars_of("```");
    let json_opening = chars_of("```json");
    let tagged = parse_candidate(text, &t, fenced_bounds(&t, &json_opening, &closing));
    if tagged.is_some() {
        return tagged;
    }
    let fenced = parse_candidate(text, &t, fenced_bounds(&t, &closing, &closing));
    if fenced.is_some() {
        return fenced;
    }
    parse_candidate(text, &t, brace_bounds(&t))
}

/// The arguments of the tool call in `text`.
pub fn extract_arguments(text: &str) -> (r: JsonDoc)
    ensures
        r@ == call_arguments(text@),
{
    match parse_call_document(text) {
        Some(doc) => match doc.get("arguments") {
            Some(arguments) => arguments,
            None => JsonDoc::empty_object(),
        },
        None => JsonDoc::empty_object(),
    }
}

/// The tool call that `text` holds: `None` where it announces no tool, else
/// the announced name with the arguments.
pub fn extract_tool_call(text: &str) -> (r: Option<ToolInvocation>)
    ensures
        r is Some <==> announces_tool(text@),
        r matches Some(call) ==> tool_name_of(text@) == Some(call.tool_name@)
            && call.arguments@ == call_arguments(text@),
{
    let t = chars_of(text);
    match find_tool_name(&t) {
        None => None,
        Some((a, b)) => {
            let tool_name = slice_of(text, a, b);
            let arguments = extract_arguments(text);
            Some(ToolInvocation { tool_name, arguments })
        },
    }
}

/// What the extractor reports for a response: `None` where it announces no
/// tool, else the announced name with the arguments.
pub open spec fn extraction(t: Seq<char>) -> Option<(Seq<char>, JsonValue)> {
    match tool_name_of(t) {
        Some(name) => Some((name, call_arguments(t))),
        None => None,
    }
}

/// The key stands at `at` as a key does: followed, after optional white
/// space, by a colon.
pub open spec fn key_with_colon_at(t: Seq<char>, at: int) -> bool {
    let colon = spaces_end(t, at + tool_key().len());
    occurs_at(t, tool_key(), at) && colon < t.len() && t[colon] == ':'
}

/// A response in which the key `"tool"` stands nowhere with its colon holds
/// no tool call.
pub proof fn law_no_key_no_call(t: Seq<char>)
    requires
        forall|at: int| !key_with_colon_at(t, at),
    ensures
        !announces_tool(t),
        extraction(t) is None,
{
    assert forall|j: int| 0 <= j < t.len() implies tool_name_at(t, j) is None by {
        assert(!key_with_colon_at(t, j));
    }
    lemma_tool_name_skip(t, 0, t.len() as int);
}

/// The opening of a tool call in its plain form: the key, the colon and the
/// quote that opens the name.
pub open spec fn call_opening() -> Seq<char> {
    "\"tool\":\""@
}

/// A response whose first quote opens `"tool":"X"`, with a name `X` that is
/// not empty, announces `X`.
pub proof fn law_announced_name(lead: Seq<char>, name: Seq<char>, rest: Seq<char>)
    requires
        forall|i: int| 0 <= i < lead.len() ==> lead[i] != '"',
        forall|i: int| 0 <= i < name.len() ==> name[i] != '"',
        name.len() > 0,
    ensures
        tool_name_of(lead + call_opening() + name + quote() + rest) == Some(name),
{
    reveal_strlit("\"tool\":\"");
    reveal_strlit("\"tool\"");
    reveal_strlit("\"");
    let t = lead + call_opening() + name + quote() + rest;
    let at = lead.len() as int;
    let open = at + 7;
    let close = at + 8 + name.len();
    assert(tool_key()[0] == '"');
    assert forall|j: int| 0 <= j < at implies tool_name_at(t, j) is None by {
        assert(t[j + 0] == lead[j]);
    }
    lemma_tool_name_skip(t, 0, at);
    assert(occurs_at(t, tool_key(), at)) by {
        assert forall|k: int| 0 <= k < tool_key().len() implies t[at + k] == tool_key()[k] by {
            assert(t[at + k] == call_opening()[k]);
        }
    }
    assert(t[at + 6] == ':');
    assert(t[at + 7] == '"');
    assert(spaces_end(t, at + 6) == at + 6);
    assert(spaces_end(t, at + 7) == at + 7);
    assert(t[close] == '"');
    assert(quote()[0] == '"');
    assert(occurs_at(t, quote(), close));
    assert forall|j: int| open + 1 <= j < close implies !occurs_at(t, quote(), j) by {
        assert(t[j + 0] == name[j - at - 8]);
    }
    lemma_find_from_is(t, quote(), open + 1, close);
    assert(t.subrange(open + 1, close) =~= name);
    assert(tool_name_at(t, at) == Some(name));
}

/// A response that is one JSON document, and whose first quote opens
/// `"tool":"X"`, yields the name `X` with the member `arguments` of the
/// document.
pub proof fn law_bare_call(
    lead: Seq<char>,
    name: Seq<char>,
    rest: Seq<char>,
    doc: JsonValue,
    arguments: JsonValue,
)
    requires
        forall|i: int| 0 <= i < lead.len() ==> lead[i] != '"',
        forall|i: int| 0 <= i < name.len() ==> name[i] != '"',
        name.len() > 0,
        json_document(lead + call_opening() + name + quote() + rest) == Some(doc),
        member_of(doc, "arguments"@) == Some(arguments),
    ensures
        extraction(lead + call_opening() + name + quote() + rest) == Some((name, arguments)),
{
    law_announced_name(lead, name, rest);
}

/// A response that is no JSON document as a whole, whose first block fenced
/// as JSON holds a document, and whose first quote opens `"tool":"X"`, yields
/// the name `X` with the member `arguments` of that document.
pub proof fn law_fenced_call(
    lead: Seq<char>,
    name: Seq<char>,
    rest: Seq<char>,
    body: Seq<char>,
    doc: JsonValue,
    arguments: JsonValue,
)
    requires
        forall|i: int| 0 <= i < lead.len() ==> lead[i] != '"',
        forall|i: int| 0 <= i < name.len() ==> name[i] != '"',
        name.len() > 0,
        json_document(lead + call_opening() + name + quote() + rest) is None,
        fenced_body(lead + call_opening() + name + quote() + rest, json_fence()) == Some(body),
        json_document(body) == Some(doc),
        member_of(doc, "arguments"@) == Some(arguments),
    ensures
        extraction(lead + call_opening() + name + quote() + rest) == Some((name, arguments)),
{
    law_announced_name(lead, name, rest);
}

/// A tool call without the member `arguments`, or without a document, goes
/// with the empty object.
pub proof fn law_missing_arguments(t: Seq<char>)
    requires
        call_document(t) matches Some(doc) ==> member_of(doc, "arguments"@) is None,
    ensures
        call_arguments(t) == empty_object_tree(),
{
}

/// An announcement stays one when text is added behind it.
pub proof fn lemma_name_at_extends(t: Seq<char>, more: Seq<char>, at: int)
    requires
        tool_name_at(t, at) is Some,
    ensures
        tool_name_at(t + more, at) == tool_name_at(t, at),
{
    let u = t + more;
    let colon = spaces_end(t, at + tool_key().len());
    let open = spaces_end(t, colon + 1);
    assert(occurs_at(t, tool_key(), at));
    lemma_spaces_end_bounds(t, at + tool_key().len());
    lemma_spaces_end_bounds(t, colon + 1);
    assert(u[colon] == t[colon]);
    assert(u[open] == t[open]);
    assert(occurs_at(u, tool_key(), at)) by {
        assert forall|k: int| 0 <= k < tool_key().len() implies u[at + k] == tool_key()[k] by {
            assert(u[at + k] == t[at + k]);
        }
    }
    lemma_spaces_end_extends(t, more, at + tool_key().len());
    lemma_spaces_end_extends(t, more, colon + 1);
    let close = find_from(t, quote(), open + 1)->0;
    lemma_find_from(t, quote(), open + 1);
    assert(occurs_at(u, quote(), close)) by {
        assert forall|k: int| 0 <= k < quote().len() implies u[close + k] == quote()[k] by {
            assert(u[close + k] == t[close + k]);
        }
    }
    assert forall|j: int| open + 1 <= j < close implies !occurs_at(u, quote(), j) by {
        if occurs_at(u, quote(), j) {
            reveal_strlit("\"");
            assert(u[j + 0] == quote()[0]);
            assert(t[j + 0] == quote()[0]);
            assert(occurs_at(t, quote(), j));
        }
    }
    lemma_find_from_is(u, quote(), open + 1, close);
    assert(u.subrange(open + 1, close) =~= t.subrange(open + 1, close));
}

/// Where a name is announced at `at`, the response announces a tool.
pub proof fn lemma_announced_somewhere(t: Seq<char>, from: int, at: int)
    requires
        0 <= from <= at < t.len(),
        tool_name_at(t, at) is Some,
    ensures
        tool_name_from(t, from) is Some,
    decreases at - from,
{
    if from < at && tool_name_at(t, from) is None {
        lemma_announced_somewhere(t, from + 1, at);
    }
}

/// Where the search from `from` finds a name, it is announced at some index.
pub proof fn lemma_announced_at(t: Seq<char>, from: int) -> (at: int)
    requires
        0 <= from,
        tool_name_from(t, from) is Some,
    ensures
        from <= at < t.len(),
        tool_name_at(t, at) is Some,
    decreases t.len() - from,
{
    if tool_name_at(t, from) is Some {
        from
    } else {
        lemma_announced_at(t, from + 1)
    }
}

/// A response that announces a tool still announces one when text is added
/// behind it.
pub proof fn law_announcement_stays(t: Seq<char>, more: Seq<char>)
    requires
        announces_tool(t),
    ensures
        announces_tool(t + more),
{
    let at = lemma_announced_at(t, 0);
    lemma_name_at_extends(t, more, at);
    lemma_announced_somewhere(t + more, 0, at);
}

} // verus!
