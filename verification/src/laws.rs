use vstd::prelude::*;

use crate::coordinator::{spec_step, spec_wf, CoordView, StreamEvent};

verus! {

/// The coordinator after the whole sequence `events`, applied in order.
pub open spec fn spec_run(v: CoordView, events: Seq<StreamEvent>) -> CoordView
    decreases events.len(),
{
    if events.len() == 0 {
        v
    } else {
        spec_run(spec_step(v, events.first()), events.drop_first())
    }
}

/// One step never removes a message nor changes the author of an existing
/// one.
pub proof fn lemma_step_append_only(v: CoordView, event: StreamEvent)
    ensures
        spec_step(v, event).messages.len() >= v.messages.len(),
        forall|i: int|
            0 <= i < v.messages.len() ==> (#[trigger] spec_step(v, event).messages[i]).author
                == v.messages[i].author,
{
}

/// Append-only: over every sequence of events, the number of messages is
/// non-decreasing and no existing message's author ever changes.
pub proof fn lemma_run_append_only(v: CoordView, events: Seq<StreamEvent>)
    ensures
        spec_run(v, events).messages.len() >= v.messages.len(),
        forall|i: int|
            0 <= i < v.messages.len() ==> (#[trigger] spec_run(v, events).messages[i]).author
                == v.messages[i].author,
    decreases events.len(),
{
    if events.len() > 0 {
        lemma_step_append_only(v, events.first());
        lemma_run_append_only(spec_step(v, events.first()), events.drop_first());
    }
}

/// Well-formedness is preserved by every step.
pub proof fn lemma_step_preserves_wf(v: CoordView, event: StreamEvent)
    requires
        spec_wf(v),
    ensures
        spec_wf(spec_step(v, event)),
{
}

/// Well-formedness is preserved by every sequence of events.
pub proof fn lemma_run_preserves_wf(v: CoordView, events: Seq<StreamEvent>)
    requires
        spec_wf(v),
    ensures
        spec_wf(spec_run(v, events)),
    decreases events.len(),
{
    if events.len() > 0 {
        lemma_step_preserves_wf(v, events.first());
        lemma_run_preserves_wf(spec_step(v, events.first()), events.drop_first());
    }
}

/// Whether the message at position `i` is open, that is, still receiving
/// fragments: exactly the reply placeholder while a reply streams.
pub open spec fn msg_open(v: CoordView, i: int) -> bool {
    v.state is StreamingReply && i == v.messages.len() - 1
}

/// Single open placeholder: in a well-formed coordinator, at most one message
/// is open, and if one is it is the last message and is assistant-authored.
pub proof fn lemma_single_open_placeholder(v: CoordView, i: int, j: int)
    requires
        spec_wf(v),
        msg_open(v, i),
        msg_open(v, j),
    ensures
        i == j,
        i == v.messages.len() - 1,
        0 <= i < v.messages.len(),
        v.messages[i].author is Assistant,
{
}

/// A message that is not open is frozen: no step changes its text. Only a
/// fragment arriving for the open placeholder changes any text at all.
pub proof fn lemma_step_text_frozen(v: CoordView, event: StreamEvent)
    ensures
        forall|i: int|
            0 <= i < v.messages.len() && !msg_open(v, i) ==> (#[trigger] spec_step(
                v,
                event,
            ).messages[i]).text == v.messages[i].text,
{
}

/// While a reply streams, every event other than a fragment arrival and the
/// stream's own termination leaves the conversation unchanged and the reply
/// still streaming: the timing of surrounding events cannot disturb the
/// reply's text.
pub proof fn lemma_stream_undisturbed(v: CoordView, event: StreamEvent)
    requires
        spec_wf(v),
        v.state is StreamingReply,
        !(event is FragmentArrived),
        !(event is StreamEnded),
        !(event is StreamFailed),
    ensures
        spec_step(v, event).messages == v.messages,
        spec_step(v, event).state is StreamingReply,
{
}

/// The concatenation `f1 ++ f2 ++ … ++ fn` of a sequence of fragments.
pub open spec fn concat_fragments(frags: Seq<Seq<char>>) -> Seq<char>
    decreases frags.len(),
{
    if frags.len() == 0 {
        Seq::empty()
    } else {
        frags.first() + concat_fragments(frags.drop_first())
    }
}

/// The events that deliver the fragments `frags`, in order, to the
/// placeholder named by `handle`.
pub open spec fn fragment_events(handle: int, frags: Seq<Seq<char>>) -> Seq<StreamEvent> {
    frags.map_values(|f: Seq<char>| (StreamEvent::FragmentArrived { handle, text: f }))
}

/// Ordering: while a reply streams, delivering fragments `f1, f2, …, fn` in
/// that order — with nothing else interleaved — appends exactly
/// `f1 ++ f2 ++ … ++ fn` to the open placeholder's text, drops or reorders
/// nothing, leaves every other message unchanged, and keeps the reply
/// streaming.
pub proof fn lemma_fragment_ordering(v: CoordView, frags: Seq<Seq<char>>)
    requires
        spec_wf(v),
        v.state is StreamingReply,
    ensures
        ({
            let w = spec_run(v, fragment_events(v.messages.len() - 1, frags));
            &&& w.state == v.state
            &&& w.link == v.link
            &&& w.pending_send == v.pending_send
            &&& w.messages.len() == v.messages.len()
            &&& w.messages.last().text == v.messages.last().text + concat_fragments(frags)
            &&& w.messages.last().author == v.messages.last().author
            &&& forall|i: int| 0 <= i < v.messages.len() - 1 ==> w.messages[i] == v.messages[i]
        }),
    decreases frags.len(),
{
    let h = v.messages.len() - 1;
    let events = fragment_events(h, frags);
    if frags.len() == 0 {
        assert(v.messages.last().text + concat_fragments(frags) =~= v.messages.last().text);
    } else {
        let v1 = spec_step(v, events.first());
        lemma_step_preserves_wf(v, events.first());
        assert(events.drop_first() =~= fragment_events(h, frags.drop_first()));
        lemma_fragment_ordering(v1, frags.drop_first());
        assert((v.messages.last().text + frags.first()) + concat_fragments(frags.drop_first())
            =~= v.messages.last().text + concat_fragments(frags));
    }
}

} // verus!
