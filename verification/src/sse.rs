//! The framing of a streamed answer as server-sent events: each chunk is
//! an event `data: <chunk>` followed by an empty line, and the event
//! `data: [DONE]` ends the stream.

use vstd::prelude::*;
use crate::redis_info::{begins_with, copy_range, line_at, run_len, run_length, starts_with};
use crate::text::to_chars;

verus! {

/// What a line of a stream of events carries.
#[derive(Debug, Clone)]
pub enum SseItem {
    /// The mark that ends the stream.
    Done,
    /// The payload of an event.
    Data(String),
}

/// What a line of a stream of events carries, as a mathematical value.
pub enum SseView {
    Done,
    Data(Seq<char>),
}

impl View for SseItem {
    type V = SseView;

    open spec fn view(&self) -> SseView {
        match self {
            SseItem::Done => SseView::Done,
            SseItem::Data(payload) => SseView::Data(payload@),
        }
    }
}

/// The items of a list, each as a mathematical value.
pub open spec fn items_view(items: Seq<SseItem>) -> Seq<SseView> {
    Seq::new(items.len(), |i: int| items[i]@)
}

/// What a line carries: nothing unless it begins with `data: `, the end
/// mark where `[DONE]` follows, and else what follows as payload.
pub open spec fn line_item(line: Seq<char>) -> Option<SseView> {
    if !starts_with(line, "data: "@) {
        None
    } else if line.skip(6) == "[DONE]"@ {
        Some(SseView::Done)
    } else {
        Some(SseView::Data(line.skip(6)))
    }
}

/// What the lines of a text carry, from place `i` on, in order.
pub open spec fn items_from(s: Seq<char>, i: int) -> Seq<SseView>
    decreases s.len() - i,
{
    if i < 0 || i >= s.len() {
        seq![]
    } else {
        let first = match line_item(line_at(s, i)) {
            Some(item) => seq![item],
            None => seq![],
        };
        if i + run_len(s, i, '\n') >= s.len() {
            first
        } else {
            first + items_from(s, i + run_len(s, i, '\n') + 1)
        }
    }
}

/// The event that carries a payload.
pub fn sse_frame(payload: &str) -> (frame: String)
    ensures
        frame@ == "data: "@ + payload@ + "\n\n"@,
{
    let mut frame = String::from_str("data: ");
    frame.append(payload);
    frame.append("\n\n");
    frame
}

/// The event that ends a stream.
pub fn sse_done() -> (frame: String)
    ensures
        frame@ == "data: [DONE]\n\n"@,
{
    String::from_str("data: [DONE]\n\n")
}

/// What the lines of a text carry, in order.
pub fn parse_sse(text: &str) -> (items: Vec<SseItem>)
    ensures
        items_view(items@) == items_from(text@, 0),
{
    let v = to_chars(text);
    let prefix = to_chars("data: ");
    let done = to_chars("[DONE]");
    proof {
        reveal_strlit("data: ");
    }
    let mut items: Vec<SseItem> = Vec::new();
    let mut i: usize = 0;
    while i < v.len()
        invariant
            i <= v@.len(),
            v@ == text@,
            prefix@ == "data: "@,
            prefix@.len() == 6,
            done@ == "[DONE]"@,
            items_from(v@, 0) =~= items_view(items@) + items_from(v@, i as int),
        decreases v@.len() - i,
    {
        let n = run_length(&v, i, '\n');
        let e: usize = i + n;
        let end: usize = if e < v.len() && e > i && v[e - 1] == '\r' {
            e - 1
        } else {
            e
        };
        let line = copy_range(&v, i, end);
        assert(line@ == line_at(v@, i as int));
        let ghost so_far = items_view(items@);
        if begins_with(&line, &prefix) {
            let payload = copy_range(&line, 6, line.len());
            assert(payload@ =~= line@.skip(6));
            if payload.len() == done.len() && crate::text::matches_at(&payload, &done, 0) {
                assert(payload@.subrange(0, payload@.len() as int) =~= payload@);
                items.push(SseItem::Done);
                assert(items_view(items@) =~= so_far.push(SseView::Done));
            } else {
                proof {
                    if payload@ == done@ {
                        assert(payload@.subrange(0, payload@.len() as int) =~= done@);
                    }
                }
                let item = String::from_str(text.substring_char(i + 6, end));
                assert(item@ =~= payload@) by {
                    assert(v@.subrange(i + 6, end as int) =~= line@.skip(6));
                }
                items.push(SseItem::Data(item));
                assert(items_view(items@) =~= so_far.push(SseView::Data(payload@)));
            }
        }
        if e >= v.len() {
            return items;
        }
        i = e + 1;
    }
    items
}

} // verus!
