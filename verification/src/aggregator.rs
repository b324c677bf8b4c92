//! Collects the fragments of a streamed response and decides, fragment by
//! fragment, what of them is shown.

use crate::display::DisplayMode;
use crate::error::SchatError;
use crate::extractor::{announces_tool, is_tool_call};
use crate::strings::chars_of;
use vstd::prelude::*;

verus! {

/// In hidden mode, text that announces no tool is held back until it is
/// longer than this many characters.
pub const FLUSH_THRESHOLD: usize = 500;

/// The state of an aggregation as a mathematical value.
pub struct AggregatorView {
    pub mode: DisplayMode,
    /// Everything received so far.
    pub full: Seq<char>,
    /// What is held back in hidden mode.
    pub held: Seq<char>,
}

/// The state after a fragment has arrived, and what is shown of it at once.
///
/// An empty fragment changes nothing. Outside hidden mode the fragment is
/// shown as it is. In hidden mode it joins the text held back; that text
/// stays back while it announces a tool, is shown and let go once it is
/// longer than the threshold, and is held on otherwise.
pub open spec fn after_fragment(s: AggregatorView, fragment: Seq<char>) -> (
    AggregatorView,
    Seq<char>,
) {
    if fragment.len() == 0 {
        (s, Seq::empty())
    } else if s.mode != DisplayMode::Hidden {
        (AggregatorView { mode: s.mode, full: s.full + fragment, held: s.held }, fragment)
    } else {
        let held = s.held + fragment;
        if announces_tool(held) || held.len() <= FLUSH_THRESHOLD {
            (AggregatorView { mode: s.mode, full: s.full + fragment, held }, Seq::empty())
        } else {
            (AggregatorView { mode: s.mode, full: s.full + fragment, held: Seq::empty() }, held)
        }
    }
}

/// Whether a text ends in a line feed.
pub open spec fn ends_in_newline(t: Seq<char>) -> bool {
    t.len() > 0 && t.last() == '\n'
}

/// What is shown when the stream has ended. In hidden mode: the text held
/// back, unless it announces a tool. In the other modes: a line feed, unless
/// the response ends in one.
pub open spec fn shown_at_end(s: AggregatorView) -> Seq<char> {
    if s.mode == DisplayMode::Hidden {
        if announces_tool(s.held) {
            Seq::empty()
        } else {
            s.held
        }
    } else if ends_in_newline(s.full) {
        Seq::empty()
    } else {
        "\n"@
    }
}

/// The state at the start of a stream.
pub open spec fn initial(mode: DisplayMode) -> AggregatorView {
    AggregatorView { mode, full: Seq::empty(), held: Seq::empty() }
}

/// The state after all of `fragments` have arrived, and what was shown while
/// they did.
pub open spec fn after_all(mode: DisplayMode, fragments: Seq<Seq<char>>) -> (
    AggregatorView,
    Seq<char>,
)
    decreases fragments.len(),
{
    if fragments.len() == 0 {
        (initial(mode), Seq::empty())
    } else {
        let (before, shown) = after_all(mode, fragments.drop_last());
        let (after, more) = after_fragment(before, fragments.last());
        (after, shown + more)
    }
}

/// Everything that is shown of a stream, its end included.
pub open spec fn shown_of(mode: DisplayMode, fragments: Seq<Seq<char>>) -> Seq<char> {
    let (end, shown) = after_all(mode, fragments);
    shown + shown_at_end(end)
}

/// The fragments put together.
pub open spec fn joined(fragments: Seq<Seq<char>>) -> Seq<char>
    decreases fragments.len(),
{
    if fragments.len() == 0 {
        Seq::empty()
    } else {
        joined(fragments.drop_last()) + fragments.last()
    }
}

/// The texts of a vector of fragments.
pub open spec fn texts(fragments: Seq<String>) -> Seq<Seq<char>> {
    fragments.map_values(|f: String| f@)
}

/// What follows an item of the stream.
#[derive(Debug)]
pub enum StreamStep {
    /// This is to be shown at once, and the stream goes on.
    Show(String),
    /// Reading has failed: this is to be logged, and the stream is to be
    /// ended.
    Stop(String),
}

/// Collects a streamed response.
pub struct StreamAggregator {
    pub mode: DisplayMode,
    pub full: String,
    pub held: String,
}

impl View for StreamAggregator {
    type V = AggregatorView;

    open spec fn view(&self) -> AggregatorView {
        AggregatorView { mode: self.mode, full: self.full@, held: self.held@ }
    }
}

impl StreamAggregator {
    /// An aggregator that has received nothing.
    pub fn new(mode: DisplayMode) -> (r: StreamAggregator)
        ensures
            r@ == initial(mode),
    {
        StreamAggregator { mode, full: String::new(), held: String::new() }
    }

    /// Takes the next fragment in and returns what is to be shown at once.
    pub fn push(&mut self, fragment: &str) -> (shown: String)
        ensures
            (final(self)@, shown@) == after_fragment(old(self)@, fragment@),
    {
        if fragment.is_empty() {
            return String::new();
        }
        self.full.append(fragment);
        match self.mode {
            DisplayMode::Hidden => {
                self.held.append(fragment);
                if is_tool_call(self.held.as_str()) || self.held.as_str().unicode_len()
                    <= FLUSH_THRESHOLD {
                    String::new()
                } else {
                    let shown = self.held.clone();
                    self.held = String::new();
                    shown
                }
            },
            _ => String::from_str(fragment),
        }
    }

    /// Takes in what the stream has handed out: a fragment, or the error
    /// with which reading it failed. A fragment is taken as by `push`. An
    /// error ends the stream as if it were over: nothing changes, and the
    /// words for the log are returned.
    pub fn accept(&mut self, item: &Result<String, SchatError>) -> (r: StreamStep)
        ensures
            match *item {
                Ok(fragment) => r matches StreamStep::Show(shown) && (final(self)@, shown@)
                    == after_fragment(old(self)@, fragment@),
                Err(e) => r matches StreamStep::Stop(logged) && final(self)@ == old(self)@
                    && logged@ == "Stream error: "@ + e.text(),
            },
    {
        match item {
            Ok(fragment) => StreamStep::Show(self.push(fragment.as_str())),
            Err(e) => {
                let mut logged = String::from_str("Stream error: ");
                logged.append(e.message().as_str());
                StreamStep::Stop(logged)
            },
        }
    }

    /// Ends the stream: returns the whole response, and what is still to be
    /// shown.
    pub fn finish(self) -> (r: (String, String))
        ensures
            r.0@ == self@.full,
            r.1@ == shown_at_end(self@),
    {
        let shown = match self.mode {
            DisplayMode::Hidden => {
                if is_tool_call(self.held.as_str()) {
                    String::new()
                } else {
                    self.held
                }
            },
            _ => {
                let t = chars_of(self.full.as_str());
                if t.len() > 0 && t[t.len() - 1] == '\n' {
                    String::new()
                } else {
                    String::from_str("\n")
                }
            },
        };
        (self.full, shown)
    }
}

/// Aggregates a whole stream: returns the response and all that is shown.
pub fn aggregate(mode: DisplayMode, fragments: &Vec<String>) -> (r: (String, String))
    ensures
        r.0@ == joined(texts(fragments@)),
        r.1@ == shown_of(mode, texts(fragments@)),
{
    let mut aggregator = StreamAggregator::new(mode);
    let mut shown = String::new();
    let n: usize = fragments.len();
    let mut i: usize = 0;
    while i < n
        invariant
            i <= n,
            n == fragments.len(),
            (aggregator@, shown@) == after_all(mode, texts(fragments@).take(i as int)),
            aggregator@.full == joined(texts(fragments@).take(i as int)),
        decreases n - i,
    {
        let ghost before = texts(fragments@).take(i as int);
        let ghost now = texts(fragments@).take(i + 1);
        assert(now.drop_last() =~= before);
        assert(now.last() == fragments@[i as int]@);
        let more = aggregator.push(fragments[i].as_str());
        shown.append(more.as_str());
        proof {
            if fragments@[i as int]@.len() == 0 {
                assert(joined(now) =~= joined(before));
            }
        }
        i += 1;
    }
    assert(texts(fragments@).take(n as int) =~= texts(fragments@));
    let (full, last) = aggregator.finish();
    shown.append(last.as_str());
    (full, shown)
}

/// Outside hidden mode every fragment is shown as it arrives: what is shown
/// while the stream runs is the fragments put together.
pub proof fn law_every_fragment_shown(mode: DisplayMode, fragments: Seq<Seq<char>>)
    requires
        mode != DisplayMode::Hidden,
    ensures
        after_all(mode, fragments).1 == joined(fragments),
        after_all(mode, fragments).0.mode == mode,
    decreases fragments.len(),
{
    if fragments.len() > 0 {
        law_every_fragment_shown(mode, fragments.drop_last());
        if fragments.last().len() == 0 {
            assert(joined(fragments) =~= joined(fragments.drop_last()));
        }
    }
}

/// The response is the fragments put together, whatever the mode.
pub proof fn law_full_response(mode: DisplayMode, fragments: Seq<Seq<char>>)
    ensures
        after_all(mode, fragments).0.full == joined(fragments),
        after_all(mode, fragments).0.mode == mode,
    decreases fragments.len(),
{
    if fragments.len() > 0 {
        law_full_response(mode, fragments.drop_last());
        if fragments.last().len() == 0 {
            assert(joined(fragments) =~= joined(fragments.drop_last()));
        }
    }
}

/// In hidden mode nothing at all is shown of a stream whose fragments, put
/// together, announce a tool, as long as the text received before the
/// announcement was complete never grew longer than the threshold.
pub proof fn law_hidden_tool_call_unseen(fragments: Seq<Seq<char>>)
    requires
        announces_tool(joined(fragments)),
        forall|k: int|
            0 <= k <= fragments.len() ==> announces_tool(#[trigger] joined(fragments.take(k)))
                || joined(fragments.take(k)).len() <= FLUSH_THRESHOLD,
    ensures
        shown_of(DisplayMode::Hidden, fragments) == Seq::<char>::empty(),
{
    lemma_hidden_holds_all(fragments, fragments.len() as int);
    assert(fragments.take(fragments.len() as int) =~= fragments);
}

/// While no text held back had to be let go, hidden mode shows nothing and
/// holds all that has arrived.
proof fn lemma_hidden_holds_all(fragments: Seq<Seq<char>>, n: int)
    requires
        0 <= n <= fragments.len(),
        forall|k: int|
            0 <= k <= n ==> announces_tool(#[trigger] joined(fragments.take(k))) || joined(
                fragments.take(k),
            ).len() <= FLUSH_THRESHOLD,
    ensures
        after_all(DisplayMode::Hidden, fragments.take(n)).1 == Seq::<char>::empty(),
        after_all(DisplayMode::Hidden, fragments.take(n)).0.held == joined(fragments.take(n)),
        after_all(DisplayMode::Hidden, fragments.take(n)).0.mode == DisplayMode::Hidden,
    decreases n,
{
    if n > 0 {
        lemma_hidden_holds_all(fragments, n - 1);
        assert(fragments.take(n).drop_last() =~= fragments.take(n - 1));
        assert(fragments.take(n).last() == fragments[n - 1]);
        let before = after_all(DisplayMode::Hidden, fragments.take(n - 1)).0;
        if fragments[n - 1].len() == 0 {
            assert(joined(fragments.take(n)) =~= joined(fragments.take(n - 1)));
        } else {
            assert(before.held + fragments[n - 1] == joined(fragments.take(n)));
        }
    }
}

/// In hidden mode nothing at all is shown of a stream of at most the
/// threshold's length whose fragments, put together, announce a tool.
pub proof fn law_hidden_short_tool_call_unseen(fragments: Seq<Seq<char>>)
    requires
        announces_tool(joined(fragments)),
        joined(fragments).len() <= FLUSH_THRESHOLD,
    ensures
        shown_of(DisplayMode::Hidden, fragments) == Seq::<char>::empty(),
{
    assert forall|k: int| 0 <= k <= fragments.len() implies joined(
        #[trigger] fragments.take(k),
    ).len() <= joined(fragments).len() by {
        lemma_joined_prefix_len(fragments, k);
    }
    law_hidden_tool_call_unseen(fragments);
}

/// A prefix of the fragments is no longer than all of them.
proof fn lemma_joined_prefix_len(fragments: Seq<Seq<char>>, k: int)
    requires
        0 <= k <= fragments.len(),
    ensures
        joined(fragments.take(k)).len() <= joined(fragments).len(),
    decreases fragments.len(),
{
    if k == fragments.len() {
        assert(fragments.take(k) =~= fragments);
    } else {
        lemma_joined_prefix_len(fragments.drop_last(), k);
        assert(fragments.drop_last().take(k) =~= fragments.take(k));
    }
}

} // verus!
