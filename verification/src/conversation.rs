use vstd::prelude::*;
use vstd::string::StringExecFns;

use crate::message::{Message, MessageView};

verus! {

/// Returned by `append_to_last` when the conversation holds no message at
/// all: a fragment arrived with no message to receive it. Under correct
/// coordinator transitions this never happens.
#[derive(Clone, Copy, PartialEq, Eq, Structural, Debug)]
pub struct EmptyConversationError;

/// `msgs` with `fragment` appended to the text of its last message; every
/// other message, and the last message's author, are unchanged.
pub open spec fn spec_append_fragment(
    msgs: Seq<MessageView>,
    fragment: Seq<char>,
) -> Seq<MessageView>
    recommends
        msgs.len() > 0,
{
    msgs.update(
        msgs.len() - 1,
        MessageView { text: msgs.last().text + fragment, author: msgs.last().author },
    )
}

/// The ordered, append-only log of messages: the single source of truth that
/// rendering observes. Messages are kept in creation order and are never
/// removed or reordered.
pub struct Conversation {
    pub messages: Vec<Message>,
}

impl View for Conversation {
    type V = Seq<MessageView>;

    open spec fn view(&self) -> Seq<MessageView> {
        self.messages@.map_values(|m: Message| m@)
    }
}

impl Conversation {
    /// A conversation with no messages yet.
    pub fn new() -> (c: Conversation)
        ensures
            c@ == Seq::<MessageView>::empty(),
    {
        let c = Conversation { messages: Vec::new() };
        proof {
            assert(c@ =~= Seq::<MessageView>::empty());
        }
        c
    }

    /// How many messages the conversation holds.
    pub fn len(&self) -> (n: usize)
        ensures
            n == self@.len(),
    {
        self.messages.len()
    }

    /// Read access for the renderer: the message at position `i`.
    pub fn message_at(&self, i: usize) -> (m: &Message)
        requires
            i < self@.len(),
        ensures
            m@ == self@[i as int],
    {
        &self.messages[i]
    }

    /// Appends `m` at the end and returns the new length.
    pub fn append(&mut self, m: Message) -> (n: usize)
        ensures
            final(self)@ == old(self)@.push(m@),
            n == final(self)@.len(),
    {
        let ghost mv = m@;
        self.messages.push(m);
        proof {
            assert(self@ =~= old(self)@.push(mv));
        }
        self.messages.len()
    }

    /// The only mutation path used while a reply streams: appends `fragment`
    /// to the text of the last message. Fails, changing nothing, exactly when
    /// the conversation is empty.
    pub fn append_to_last(&mut self, fragment: &str) -> (r: Result<(), EmptyConversationError>)
        ensures
            old(self)@.len() == 0 ==> r is Err && final(self)@ == old(self)@,
            old(self)@.len() > 0 ==> r is Ok && final(self)@ == spec_append_fragment(
                old(self)@,
                fragment@,
            ),
    {
        if self.messages.len() == 0 {
            return Err(EmptyConversationError);
        }
        let mut m = self.messages.pop().unwrap();
        m.text.append(fragment);
        self.messages.push(m);
        proof {
            assert(self@ =~= spec_append_fragment(old(self)@, fragment@));
        }
        Ok(())
    }
}

} // verus!
