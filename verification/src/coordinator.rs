use vstd::prelude::*;
use vstd::string::StringExecFns;

use crate::conversation::{spec_append_fragment, Conversation};
use crate::message::{Author, Message, MessageView};

verus! {

/// The fixed address of the streaming endpoint: the scheme and port never
/// vary, only the host — the page's own hostname — does.
pub fn endpoint_url(hostname: &str) -> (r: String)
    ensures
        r@ == "ws://"@ + hostname@ + ":3000/ws"@,
{
    let mut s = String::from_str("ws://");
    s.append(hostname);
    s.append(":3000/ws");
    s
}

/// Lifecycle of the single logical connection that the transport owns. A new
/// connection attempt supersedes the prior one; at most one is live.
#[derive(Clone, Copy, PartialEq, Eq, Structural, Debug)]
pub enum TransportState {
    Unconnected,
    Connecting,
    Open,
    Closed,
    Errored,
}

/// The coordinator's state machine.
#[derive(Clone, Copy, PartialEq, Eq, Structural, Debug)]
pub enum CoordState {
    Idle,
    AwaitingConnection,
    StreamingReply,
    Errored,
}

/// Why a submission was rejected.
#[derive(Clone, Copy, PartialEq, Eq, Structural, Debug)]
pub enum SubmitError {
    /// No open connection: the user's message is not appended.
    NotConnected,
    /// A reply is still streaming, or a send is still in flight: rejected to
    /// preserve the single-open-placeholder invariant.
    Busy,
}

/// Why an inbound fragment was not applied.
#[derive(Clone, Copy, PartialEq, Eq, Structural, Debug)]
pub enum ChunkError {
    /// No reply is streaming: there is no open placeholder to receive it.
    NoOpenStream,
    /// The handle does not name the open placeholder: the fragment belongs to
    /// a superseded stream.
    StaleHandle,
}

/// The mathematical value of a `Coordinator`.
pub struct CoordView {
    pub messages: Seq<MessageView>,
    pub state: CoordState,
    pub link: TransportState,
    pub pending_send: bool,
}

/// One event that the surrounding runtime reports to the coordinator: the
/// outcome of the connection handshake, a user submission, the outcome of
/// handing a frame to the transport, and the inbound fragment stream's
/// progress and termination.
pub enum StreamEvent {
    ConnectionOpened,
    ConnectionFailed,
    ConnectionClosed,
    Submitted { text: Seq<char> },
    SendAccepted,
    SendFailed,
    FragmentArrived { handle: int, text: Seq<char> },
    StreamEnded,
    StreamFailed,
}

/// The complete transition function of the coordinator: the value after
/// `event`, given the value `v` before it. Each executable method of
/// `Coordinator` ensures that it steps its view by exactly this function.
pub open spec fn spec_step(v: CoordView, event: StreamEvent) -> CoordView {
    match event {
        StreamEvent::ConnectionOpened => CoordView {
            link: TransportState::Open,
            state: if v.state is AwaitingConnection {
                CoordState::Idle
            } else {
                v.state
            },
            ..v
        },
        StreamEvent::ConnectionFailed => CoordView {
            link: TransportState::Errored,
            state: if v.state is AwaitingConnection {
                CoordState::Errored
            } else {
                v.state
            },
            ..v
        },
        StreamEvent::ConnectionClosed => CoordView { link: TransportState::Closed, ..v },
        StreamEvent::Submitted { text } => if v.state is StreamingReply || v.pending_send {
            v
        } else if v.link is Open {
            CoordView {
                messages: v.messages.push(MessageView { text, author: Author::User }),
                pending_send: true,
                ..v
            }
        } else if v.state is AwaitingConnection {
            v
        } else {
            CoordView { state: CoordState::Errored, ..v }
        },
        StreamEvent::SendAccepted => if v.pending_send {
            CoordView {
                messages: v.messages.push(
                    MessageView { text: Seq::empty(), author: Author::Assistant },
                ),
                state: CoordState::StreamingReply,
                pending_send: false,
                ..v
            }
        } else {
            v
        },
        StreamEvent::SendFailed => if v.pending_send {
            CoordView { state: CoordState::Errored, pending_send: false, ..v }
        } else {
            v
        },
        StreamEvent::FragmentArrived { handle, text } => if v.state is StreamingReply && handle
            == v.messages.len() - 1 {
            CoordView { messages: spec_append_fragment(v.messages, text), ..v }
        } else {
            v
        },
        StreamEvent::StreamEnded => if v.state is StreamingReply {
            CoordView { state: CoordState::Idle, ..v }
        } else {
            v
        },
        StreamEvent::StreamFailed => if v.state is StreamingReply {
            CoordView { state: CoordState::Errored, ..v }
        } else {
            v
        },
    }
}

/// Well-formedness of a coordinator value. While a reply streams, the open
/// placeholder is the last message and is assistant-authored; while a send is
/// in flight, the user's own message is already the last one and no reply is
/// streaming yet.
pub open spec fn spec_wf(v: CoordView) -> bool {
    &&& (v.state is StreamingReply ==> v.messages.len() > 0 && v.messages.last().author
        is Assistant && !v.pending_send)
    &&& (v.pending_send ==> v.messages.len() > 0 && v.messages.last().author is User && !(v.state
        is StreamingReply))
}

/// The stream coordinator: owns the conversation log, tracks the transport's
/// state, and turns runtime events into conversation updates. On submit it
/// appends the user's message and hands back the frame to send; once the
/// send is accepted it appends the empty assistant placeholder and routes
/// every inbound fragment into it until the stream ends or breaks.
pub struct Coordinator {
    pub conversation: Conversation,
    pub state: CoordState,
    pub link: TransportState,
    pub pending_send: bool,
}

impl View for Coordinator {
    type V = CoordView;

    open spec fn view(&self) -> CoordView {
        CoordView {
            messages: self.conversation@,
            state: self.state,
            link: self.link,
            pending_send: self.pending_send,
        }
    }
}

impl Coordinator {
    /// Well-formedness, established by `new` and preserved by every method.
    pub open spec fn wf(&self) -> bool {
        spec_wf(self@)
    }

    /// Session start: the conversation is empty and the transport has begun
    /// its handshake, so the coordinator awaits the connection.
    pub fn new() -> (c: Coordinator)
        ensures
            c@ == (CoordView {
                messages: Seq::<MessageView>::empty(),
                state: CoordState::AwaitingConnection,
                link: TransportState::Connecting,
                pending_send: false,
            }),
            c.wf(),
    {
        Coordinator {
            conversation: Conversation::new(),
            state: CoordState::AwaitingConnection,
            link: TransportState::Connecting,
            pending_send: false,
        }
    }

    /// The handshake resolved: the connection is open and, if the session was
    /// still awaiting it, the coordinator becomes idle and ready to submit.
    pub fn connection_opened(&mut self)
        requires
            old(self).wf(),
        ensures
            final(self).wf(),
            final(self)@ == spec_step(old(self)@, StreamEvent::ConnectionOpened),
    {
        self.link = TransportState::Open;
        if self.state == CoordState::AwaitingConnection {
            self.state = CoordState::Idle;
        }
    }

    /// The handshake failed: the connection is errored. The session stays
    /// usable for a later manual reconnect attempt.
    pub fn connection_failed(&mut self)
        requires
            old(self).wf(),
        ensures
            final(self).wf(),
            final(self)@ == spec_step(old(self)@, StreamEvent::ConnectionFailed),
    {
        self.link = TransportState::Errored;
        if self.state == CoordState::AwaitingConnection {
            self.state = CoordState::Errored;
        }
    }

    /// The peer closed the channel.
    pub fn connection_closed(&mut self)
        requires
            old(self).wf(),
        ensures
            final(self).wf(),
            final(self)@ == spec_step(old(self)@, StreamEvent::ConnectionClosed),
    {
        self.link = TransportState::Closed;
    }

    /// A user submitted `text`. Rejected with `Busy` while a reply is
    /// streaming or a send is in flight, and with `NotConnected` — appending
    /// nothing — while the transport is not open (a session still awaiting
    /// its connection keeps waiting; an idle or errored one becomes
    /// errored). Otherwise the user's message
    /// is appended first, so it is visible before any network round-trip, and
    /// the returned frame — exactly the submitted text, with no envelope —
    /// must be handed to the transport; the caller then reports the outcome
    /// through `send_accepted` or `send_failed`.
    pub fn submit(&mut self, text: String) -> (r: Result<String, SubmitError>)
        requires
            old(self).wf(),
        ensures
            final(self).wf(),
            final(self)@ == spec_step(old(self)@, (StreamEvent::Submitted { text: text@ })),
            old(self)@.state is StreamingReply || old(self)@.pending_send
                ==> r == Err::<String, SubmitError>(SubmitError::Busy),
            !(old(self)@.state is StreamingReply) && !old(self)@.pending_send
                && !(old(self)@.link is Open)
                ==> r == Err::<String, SubmitError>(SubmitError::NotConnected)
                    && final(self)@.messages == old(self)@.messages,
            !(old(self)@.state is StreamingReply) && !old(self)@.pending_send
                && old(self)@.link is Open
                ==> (r matches Ok(frame) && frame@ == text@)
                    && final(self)@.messages == old(self)@.messages.push(
                        (MessageView { text: text@, author: Author::User }),
                    ),
    {
        if self.state == CoordState::StreamingReply || self.pending_send {
            return Err(SubmitError::Busy);
        }
        if self.link != TransportState::Open {
            if self.state != CoordState::AwaitingConnection {
                self.state = CoordState::Errored;
            }
            return Err(SubmitError::NotConnected);
        }
        let frame = text.clone();
        self.conversation.append(Message::user(text));
        self.pending_send = true;
        Ok(frame)
    }

    /// The transport accepted the outbound frame: append the empty assistant
    /// placeholder and start streaming the reply into it. Returns the
    /// placeholder's handle, or `None` — changing nothing — if no send was in
    /// flight.
    pub fn send_accepted(&mut self) -> (r: Option<usize>)
        requires
            old(self).wf(),
        ensures
            final(self).wf(),
            final(self)@ == spec_step(old(self)@, StreamEvent::SendAccepted),
            old(self)@.pending_send ==> r == Some(old(self)@.messages.len() as usize),
            !old(self)@.pending_send ==> r is None,
    {
        if !self.pending_send {
            return None;
        }
        let n = self.conversation.append(Message::assistant_placeholder());
        self.pending_send = false;
        self.state = CoordState::StreamingReply;
        Some(n - 1)
    }

    /// The transport refused the outbound frame: the send is abandoned and
    /// the coordinator is errored. The user's message stays in the log; no
    /// placeholder was ever appended.
    pub fn send_failed(&mut self)
        requires
            old(self).wf(),
        ensures
            final(self).wf(),
            final(self)@ == spec_step(old(self)@, StreamEvent::SendFailed),
    {
        if self.pending_send {
            self.pending_send = false;
            self.state = CoordState::Errored;
        }
    }

    /// An inbound fragment arrived for the placeholder named by `handle`:
    /// append its text to that placeholder. Fails, changing nothing, when no
    /// reply is streaming or when the handle does not name the open
    /// placeholder.
    pub fn apply_chunk(&mut self, handle: usize, fragment: &str) -> (r: Result<(), ChunkError>)
        requires
            old(self).wf(),
        ensures
            final(self).wf(),
            final(self)@ == spec_step(
                old(self)@,
                (StreamEvent::FragmentArrived { handle: handle as int, text: fragment@ }),
            ),
            !(old(self)@.state is StreamingReply) ==> r == Err::<(), ChunkError>(
                ChunkError::NoOpenStream,
            ),
            old(self)@.state is StreamingReply && handle != old(self)@.messages.len() - 1 ==> r
                == Err::<(), ChunkError>(ChunkError::StaleHandle),
            old(self)@.state is StreamingReply && handle == old(self)@.messages.len() - 1 ==> r
                is Ok,
    {
        if self.state != CoordState::StreamingReply {
            return Err(ChunkError::NoOpenStream);
        }
        let n = self.conversation.len();
        if handle != n - 1 {
            return Err(ChunkError::StaleHandle);
        }
        match self.conversation.append_to_last(fragment) {
            Ok(_) => Ok(()),
            Err(_) => Err(ChunkError::NoOpenStream),
        }
    }

    /// The inbound stream ended cleanly: the placeholder's text is frozen and
    /// the coordinator is idle again. A later submission starts a new last
    /// message; nothing is ever appended to a frozen one.
    pub fn stream_end(&mut self)
        requires
            old(self).wf(),
        ensures
            final(self).wf(),
            final(self)@ == spec_step(old(self)@, StreamEvent::StreamEnded),
    {
        if self.state == CoordState::StreamingReply {
            self.state = CoordState::Idle;
        }
    }

    /// The inbound stream broke mid-reply: the partial placeholder text stays
    /// in the log as-is and the coordinator is errored.
    pub fn stream_error(&mut self)
        requires
            old(self).wf(),
        ensures
            final(self).wf(),
            final(self)@ == spec_step(old(self)@, StreamEvent::StreamFailed),
    {
        if self.state == CoordState::StreamingReply {
            self.state = CoordState::Errored;
        }
    }

    /// The busy flag the intent source observes: true exactly when a new
    /// submission would be rejected with `Busy`.
    pub fn is_busy(&self) -> (b: bool)
        ensures
            b == (self@.state is StreamingReply || self@.pending_send),
    {
        self.state == CoordState::StreamingReply || self.pending_send
    }

    /// The handle of the open placeholder, if a reply is currently streaming.
    pub fn open_handle(&self) -> (r: Option<usize>)
        requires
            self.wf(),
        ensures
            self@.state is StreamingReply ==> r == Some((self@.messages.len() - 1) as usize),
            !(self@.state is StreamingReply) ==> r is None,
    {
        if self.state == CoordState::StreamingReply {
            Some(self.conversation.len() - 1)
        } else {
            None
        }
    }
}

} // verus!
