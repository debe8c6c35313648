use vstd::prelude::*;

verus! {

/// Who wrote a message: the human user or the assistant model.
#[derive(Clone, Copy, PartialEq, Eq, Structural, Debug)]
pub enum Author {
    User,
    Assistant,
}

/// One chat message. The text of an assistant message grows fragment by
/// fragment while its reply streams in and is frozen once the stream ends;
/// a user message never changes after it is appended.
pub struct Message {
    pub text: String,
    pub author: Author,
}

/// The mathematical value of a `Message`: its text as a sequence of
/// characters, together with its author.
pub struct MessageView {
    pub text: Seq<char>,
    pub author: Author,
}

impl View for Message {
    type V = MessageView;

    open spec fn view(&self) -> MessageView {
        MessageView { text: self.text@, author: self.author }
    }
}

impl Message {
    /// A fresh user message carrying exactly the submitted text.
    pub fn user(text: String) -> (m: Message)
        ensures
            m@ == (MessageView { text: text@, author: Author::User }),
    {
        Message { text, author: Author::User }
    }

    /// The empty assistant placeholder appended when a reply starts streaming.
    pub fn assistant_placeholder() -> (m: Message)
        ensures
            m@ == (MessageView { text: Seq::<char>::empty(), author: Author::Assistant }),
    {
        Message { text: String::new(), author: Author::Assistant }
    }
}

} // verus!
