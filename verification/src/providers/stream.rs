//! What the lines of a streamed chunk add up to.

use vstd::prelude::*;

verus! {

/// What one line of a streamed chunk says.
#[derive(Debug)]
pub enum StreamEvent {
    /// Nothing that counts.
    Skip,
    /// More text of the response.
    Text(String),
    /// The stream is over.
    Done,
    /// The stream has failed; the words say how.
    Fail(String),
}

/// An event as a mathematical value.
pub enum EventView {
    Skip,
    Text(Seq<char>),
    Done,
    Fail(Seq<char>),
}

impl View for StreamEvent {
    type V = EventView;

    open spec fn view(&self) -> EventView {
        match self {
            StreamEvent::Skip => EventView::Skip,
            StreamEvent::Text(t) => EventView::Text(t@),
            StreamEvent::Done => EventView::Done,
            StreamEvent::Fail(w) => EventView::Fail(w@),
        }
    }
}

/// What a chunk adds up to, as a mathematical value: its text, nothing, or
/// the words of a failure.
pub enum ChunkView {
    Text(Seq<char>),
    Nothing,
    Failed(Seq<char>),
}

/// What the events of a chunk add up to, with `so_far` as the text before
/// them. The texts are put together. The end of the stream empties the
/// chunk, and a failure fails it, whatever came before and whatever
/// follows. A chunk without text is nothing.
pub open spec fn chunk_of(events: Seq<EventView>, so_far: Seq<char>) -> ChunkView
    decreases events.len(),
{
    if events.len() == 0 {
        if so_far.len() == 0 {
            ChunkView::Nothing
        } else {
            ChunkView::Text(so_far)
        }
    } else {
        match events[0] {
            EventView::Skip => chunk_of(events.drop_first(), so_far),
            EventView::Text(t) => chunk_of(events.drop_first(), so_far + t),
            EventView::Done => ChunkView::Nothing,
            EventView::Fail(words) => ChunkView::Failed(words),
        }
    }
}

/// The text that a chunk has added up to; nothing where it is empty.
pub fn finished_chunk(content: String) -> (r: Option<String>)
    ensures
        content@.len() == 0 ==> r is None,
        content@.len() > 0 ==> (r matches Some(t) && t@ == content@),
{
    if content.as_str().is_empty() {
        None
    } else {
        Some(content)
    }
}

/// What a parsed chunk means for the stream of fragments: a fragment, no
/// fragment, or an error in the place of one.
pub fn stream_item<E>(parsed: Result<Option<String>, E>) -> (r: Option<Result<String, E>>)
    ensures
        r == match parsed {
            Ok(Some(content)) => Some(Ok::<String, E>(content)),
            Ok(None) => None,
            Err(e) => Some(Err(e)),
        },
{
    match parsed {
        Ok(Some(content)) => Some(Ok(content)),
        Ok(None) => None,
        Err(e) => Some(Err(e)),
    }
}

} // verus!
