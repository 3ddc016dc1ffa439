//! Role-tagged conversation messages.

use vstd::prelude::*;
use vstd::string::StrSliceExecFns;

verus! {

/// Who authored a message.
#[derive(Clone, Copy, Debug, PartialEq, Eq, Structural)]
pub enum Role {
    User,
    Assistant,
    System,
}

impl Role {
    /// The name under which the completion endpoint knows this role.
    pub open spec fn wire_name(self) -> Seq<char> {
        match self {
            Role::User => "user"@,
            Role::Assistant => "assistant"@,
            Role::System => "system"@,
        }
    }

    /// Returns the name under which the completion endpoint knows this role.
    pub fn as_wire(self) -> (name: &'static str)
        ensures
            name@ == self.wire_name(),
    {
        match self {
            Role::User => "user",
            Role::Assistant => "assistant",
            Role::System => "system",
        }
    }
}

/// The mathematical value of a [`Message`]: its role and its characters.
pub struct MessageView {
    pub role: Role,
    pub content: Seq<char>,
}

/// The value of a user message with the given text.
pub open spec fn user_message(content: Seq<char>) -> MessageView {
    MessageView { role: Role::User, content }
}

/// The value of an assistant message with the given text.
pub open spec fn assistant_message(content: Seq<char>) -> MessageView {
    MessageView { role: Role::Assistant, content }
}

/// One turn of a conversation. A message is not changed once it is built.
#[derive(Debug)]
pub struct Message {
    role: Role,
    content: String,
}

impl View for Message {
    type V = MessageView;

    closed spec fn view(&self) -> MessageView {
        MessageView { role: self.role, content: self.content@ }
    }
}

impl Message {
    /// Builds a message from its role and content.
    pub fn new(role: Role, content: String) -> (m: Message)
        ensures
            m@ == (MessageView { role, content: content@ }),
    {
        Message { role, content }
    }

    /// Builds a message written by the user.
    pub fn user(content: String) -> (m: Message)
        ensures
            m@ == user_message(content@),
    {
        Message { role: Role::User, content }
    }

    /// Builds a message written by the assistant.
    pub fn assistant(content: String) -> (m: Message)
        ensures
            m@ == assistant_message(content@),
    {
        Message { role: Role::Assistant, content }
    }

    /// The author of the message.
    pub fn role(&self) -> (r: Role)
        ensures
            r == self@.role,
    {
        self.role
    }

    /// The text of the message.
    pub fn content(&self) -> (s: &str)
        ensures
            s@ == self@.content,
    {
        self.content.as_str()
    }

    /// The number of characters in the text of the message.
    pub fn char_len(&self) -> (n: usize)
        ensures
            n == self@.content.len(),
    {
        self.content.as_str().unicode_len()
    }
}

impl Clone for Message {
    fn clone(&self) -> (m: Message)
        ensures
            m@ == self@,
    {
        Message { role: self.role, content: self.content.clone() }
    }
}

/// The values of a sequence of messages, in the same order.
pub open spec fn views_of(messages: Seq<Message>) -> Seq<MessageView> {
    messages.map_values(|m: Message| m@)
}

/// The three roles have three different wire names.
pub proof fn wire_names_differ(a: Role, b: Role)
    requires
        a != b,
    ensures
        a.wire_name() != b.wire_name(),
{
    reveal_strlit("user");
    reveal_strlit("assistant");
    reveal_strlit("system");
    assert("user"@.len() == 4);
    assert("assistant"@.len() == 9);
    assert("system"@.len() == 6);
}

} // verus!
