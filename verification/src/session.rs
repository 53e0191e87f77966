//! The conversation model: messages, sessions, and their
//! streaming-append semantics.
//!
//! A session owns an append-only sequence of messages. At most the
//! trailing message may still be streaming; appending response text only
//! grows that trailing message while its streaming mark is set, and
//! finishing a response clears the mark idempotently.

use vstd::prelude::*;
use vstd::string::StringExecFns;

use crate::externs::{date_time_text_of, format_date_time, fresh_id, now_millis};
use crate::protocol::ChatMessage;

verus! {

/// Who produced a message.
#[derive(Debug, Clone, Copy, PartialEq, Eq, Structural)]
pub enum Role {
    System,
    User,
    Assistant,
}

impl Role {
    /// The name of the role as the wire protocol spells it.
    pub open spec fn spec_name(self) -> Seq<char> {
        match self {
            Role::System => "system"@,
            Role::User => "user"@,
            Role::Assistant => "assistant"@,
        }
    }

    /// The name of the role as the wire protocol spells it.
    pub fn as_str(&self) -> (r: &'static str)
        ensures
            r@ == self.spec_name(),
    {
        match self {
            Role::System => "system",
            Role::User => "user",
            Role::Assistant => "assistant",
        }
    }
}

/// One message of a conversation, with its metadata.
#[derive(Debug, Clone)]
pub struct Message {
    /// Opaque identifier, drawn fresh at creation.
    pub id: u128,
    /// Who produced the message.
    pub role: Role,
    /// The message text.
    pub content: String,
    /// When the message was created, in milliseconds since the Unix
    /// epoch.
    pub timestamp_ms: i64,
    /// Whether the message is still being filled by an in-progress
    /// response.
    pub streaming: bool,
}

impl Message {
    /// A fresh, finished message with the given role and text.
    pub fn new(role: Role, content: &str) -> (m: Message)
        ensures
            m.role == role,
            m.content@ == content@,
            m.streaming == false,
    {
        Message {
            id: fresh_id(),
            role,
            content: content.to_owned(),
            timestamp_ms: now_millis(),
            streaming: false,
        }
    }

    /// A fresh user message.
    pub fn user(content: &str) -> (m: Message)
        ensures
            m.role == Role::User,
            m.content@ == content@,
            m.streaming == false,
    {
        Message::new(Role::User, content)
    }

    /// A fresh assistant message.
    pub fn assistant(content: &str) -> (m: Message)
        ensures
            m.role == Role::Assistant,
            m.content@ == content@,
            m.streaming == false,
    {
        Message::new(Role::Assistant, content)
    }

    /// A fresh system message.
    pub fn system(content: &str) -> (m: Message)
        ensures
            m.role == Role::System,
            m.content@ == content@,
            m.streaming == false,
    {
        Message::new(Role::System, content)
    }

    /// A fresh assistant message that is still streaming, with empty
    /// content.
    pub fn assistant_streaming() -> (m: Message)
        ensures
            m.role == Role::Assistant,
            m.content@ == Seq::<char>::empty(),
            m.streaming == true,
    {
        Message {
            id: fresh_id(),
            role: Role::Assistant,
            content: String::new(),
            timestamp_ms: now_millis(),
            streaming: true,
        }
    }

    /// Appends text to the message, leaving everything else as it was.
    pub fn append(&mut self, text: &str)
        ensures
            final(self).content@ == old(self).content@ + text@,
            final(self).id == old(self).id,
            final(self).role == old(self).role,
            final(self).timestamp_ms == old(self).timestamp_ms,
            final(self).streaming == old(self).streaming,
    {
        self.content.append(text);
    }

    /// Clears the streaming mark, leaving everything else as it was.
    pub fn finish_streaming(&mut self)
        ensures
            *final(self) == (Message { streaming: false, ..*old(self) }),
    {
        self.streaming = false;
    }

    /// The message as the wire protocol carries it.
    pub fn to_chat_message(&self) -> (r: ChatMessage)
        ensures
            r == self.spec_chat_message(),
    {
        ChatMessage { role: self.role, content: self.content.clone(), images: None }
    }

    /// The message as the wire protocol carries it.
    pub open spec fn spec_chat_message(self) -> ChatMessage {
        ChatMessage { role: self.role, content: self.content, images: None }
    }
}

/// One named conversation with its own message history and model choice.
#[derive(Debug, Clone)]
pub struct ChatSession {
    /// Opaque identifier, drawn fresh at creation.
    pub id: u128,
    /// Display name of the session.
    pub name: String,
    /// The model this session talks to.
    pub model: String,
    /// The conversation, oldest message first.
    pub messages: Vec<Message>,
    /// When the session was created, in milliseconds since the Unix
    /// epoch.
    pub created_at_ms: i64,
    /// When the session last changed, in milliseconds since the Unix
    /// epoch.
    pub updated_at_ms: i64,
    /// An optional system prompt sent ahead of the conversation.
    pub system_prompt: Option<String>,
    /// Session-specific generation options, if any.
    pub options: Option<crate::protocol::GenerationOptions>,
}

impl ChatSession {
    /// At most the trailing message may still be streaming.
    pub open spec fn wf(self) -> bool {
        forall|i: int|
            0 <= i < self.messages@.len() - 1 ==> !(#[trigger] self.messages@[i]).streaming
    }

    /// Whether the trailing message is still streaming.
    pub open spec fn spec_is_streaming(self) -> bool {
        self.messages@.len() > 0 && self.messages@.last().streaming
    }

    /// True when `b` is `a` with everything but its message list and its
    /// update time unchanged.
    pub open spec fn same_but_messages(a: ChatSession, b: ChatSession) -> bool {
        &&& b.id == a.id
        &&& b.name == a.name
        &&& b.model == a.model
        &&& b.created_at_ms == a.created_at_ms
        &&& b.system_prompt == a.system_prompt
        &&& b.options == a.options
    }

    /// `b` is `a` with every streaming mark cleared and nothing else
    /// changed.
    pub open spec fn unstreamed_copy(a: ChatSession, b: ChatSession) -> bool {
        &&& ChatSession::same_but_messages(a, b)
        &&& b.updated_at_ms == a.updated_at_ms
        &&& b.messages@.len() == a.messages@.len()
        &&& forall|j: int|
            0 <= j < a.messages@.len() ==> #[trigger] b.messages@[j] == (Message {
                streaming: false,
                ..a.messages@[j]
            })
    }

    /// A fresh, empty session with the given name and model.
    pub fn new(name: &str, model: &str) -> (s: ChatSession)
        ensures
            s.name@ == name@,
            s.model@ == model@,
            s.messages@ == Seq::<Message>::empty(),
            s.created_at_ms == s.updated_at_ms,
            s.system_prompt is None,
            s.options is None,
            s.wf(),
            !s.spec_is_streaming(),
    {
        let now = now_millis();
        ChatSession {
            id: fresh_id(),
            name: name.to_owned(),
            model: model.to_owned(),
            messages: Vec::new(),
            created_at_ms: now,
            updated_at_ms: now,
            system_prompt: None,
            options: None,
        }
    }

    /// A fresh, empty session named after the moment of its creation.
    pub fn with_default_name(model: &str) -> (s: ChatSession)
        ensures
            s.model@ == model@,
            s.messages@ == Seq::<Message>::empty(),
            s.created_at_ms == s.updated_at_ms,
            s.name@ == "Chat "@ + date_time_text_of(s.created_at_ms),
            s.system_prompt is None,
            s.options is None,
            s.wf(),
            !s.spec_is_streaming(),
    {
        let now = now_millis();
        let mut name = String::from_str("Chat ");
        let stamp = format_date_time(now);
        name.append(stamp.as_str());
        ChatSession {
            id: fresh_id(),
            name,
            model: model.to_owned(),
            messages: Vec::new(),
            created_at_ms: now,
            updated_at_ms: now,
            system_prompt: None,
            options: None,
        }
    }

    /// Appends a user message with the given text and advances the
    /// update time.
    pub fn add_user_message(&mut self, content: &str)
        ensures
            final(self).messages@.len() == old(self).messages@.len() + 1,
            final(self).messages@.drop_last() == old(self).messages@,
            final(self).messages@.last().role == Role::User,
            final(self).messages@.last().content@ == content@,
            final(self).messages@.last().streaming == false,
            ChatSession::same_but_messages(*old(self), *final(self)),
            old(self).wf() && !old(self).spec_is_streaming() ==> final(self).wf(),
            !final(self).spec_is_streaming(),
    {
        self.messages.push(Message::user(content));
        self.updated_at_ms = now_millis();
        proof {
            assert(final(self).messages@.drop_last() =~= old(self).messages@);
        }
    }

    /// Appends an empty streaming assistant message, advances the update
    /// time, and returns the position of the new message.
    pub fn start_assistant_response(&mut self) -> (idx: usize)
        ensures
            final(self).messages@.len() == old(self).messages@.len() + 1,
            final(self).messages@.drop_last() == old(self).messages@,
            final(self).messages@.last().role == Role::Assistant,
            final(self).messages@.last().content@ == Seq::<char>::empty(),
            final(self).messages@.last().streaming == true,
            ChatSession::same_but_messages(*old(self), *final(self)),
            old(self).wf() && !old(self).spec_is_streaming() ==> final(self).wf(),
            final(self).spec_is_streaming(),
            idx == old(self).messages@.len(),
    {
        let idx = self.messages.len();
        self.messages.push(Message::assistant_streaming());
        self.updated_at_ms = now_millis();
        proof {
            assert(final(self).messages@.drop_last() =~= old(self).messages@);
        }
        idx
    }

    /// Grows the trailing message by the given text, but only while that
    /// message is still streaming; otherwise the session is left exactly
    /// as it was. Late chunks arriving after completion are thereby
    /// dropped.
    pub fn append_to_response(&mut self, text: &str)
        ensures
            old(self).spec_is_streaming() ==> {
                &&& final(self).messages@.len() == old(self).messages@.len()
                &&& final(self).messages@.last().content@ == old(self).messages@.last().content@
                    + text@
                &&& final(self).messages@.last().role == old(self).messages@.last().role
                &&& final(self).messages@.last().id == old(self).messages@.last().id
                &&& final(self).messages@.last().streaming == true
                &&& final(self).messages@.drop_last() == old(self).messages@.drop_last()
                &&& ChatSession::same_but_messages(*old(self), *final(self))
            },
            !old(self).spec_is_streaming() ==> *final(self) == *old(self),
            old(self).wf() ==> final(self).wf(),
            final(self).spec_is_streaming() == old(self).spec_is_streaming(),
    {
        let n = self.messages.len();
        if n > 0 {
            if self.messages[n - 1].streaming {
                let msg = &mut self.messages[n - 1];
                msg.append(text);
                self.updated_at_ms = now_millis();
                proof {
                    assert(final(self).messages@.drop_last() =~= old(self).messages@.drop_last());
                }
            }
        }
    }

    /// `b` is `a` after one finish transition at time `t`: where `a`'s
    /// trailing message was still streaming, it has lost the mark and
    /// the update time reads `t`; otherwise `b` is exactly `a`.
    pub open spec fn finish_rel(a: ChatSession, b: ChatSession, t: i64) -> bool {
        if a.spec_is_streaming() {
            &&& b.messages@ == a.messages@.update(
                a.messages@.len() - 1,
                Message { streaming: false, ..a.messages@.last() },
            )
            &&& b.updated_at_ms == t
            &&& ChatSession::same_but_messages(a, b)
        } else {
            b == a
        }
    }

    /// Clears the streaming mark on the trailing message. Idempotent: a
    /// session whose trailing message is not streaming is left exactly
    /// as it was.
    pub fn finish_response(&mut self)
        ensures
            ChatSession::finish_rel(*old(self), *final(self), final(self).updated_at_ms),
            old(self).wf() ==> final(self).wf(),
            !final(self).spec_is_streaming(),
            old(self).wf() ==> forall|i: int|
                0 <= i < final(self).messages@.len() ==> !(#[trigger] final(self).messages@[i]).streaming,
    {
        let n = self.messages.len();
        if n > 0 {
            if self.messages[n - 1].streaming {
                let msg = &mut self.messages[n - 1];
                msg.finish_streaming();
                self.updated_at_ms = now_millis();
                proof {
                    assert(final(self).messages@ =~= old(self).messages@.update(
                        old(self).messages@.len() - 1,
                        Message { streaming: false, ..old(self).messages@.last() },
                    ));
                }
            }
        }
    }

    /// The conversation as the wire protocol carries it: the system
    /// prompt first if the session has one, then every message in order.
    pub open spec fn spec_chat_messages(self) -> Seq<ChatMessage> {
        let body = self.messages@.map_values(|m: Message| m.spec_chat_message());
        match self.system_prompt {
            Some(prompt) => seq![
                ChatMessage { role: Role::System, content: prompt, images: None },
            ] + body,
            None => body,
        }
    }

    /// The conversation as the wire protocol carries it.
    pub fn to_chat_messages(&self) -> (r: Vec<ChatMessage>)
        ensures
            r@ == self.spec_chat_messages(),
    {
        let mut out: Vec<ChatMessage> = Vec::new();
        match &self.system_prompt {
            Some(prompt) => {
                out.push(ChatMessage { role: Role::System, content: prompt.clone(), images: None });
            },
            None => {},
        }
        let base: usize = out.len();
        let n = self.messages.len();
        let mut i: usize = 0;
        while i < n
            invariant
                n == self.messages@.len(),
                i <= n,
                base == if self.system_prompt is Some {
                    1int
                } else {
                    0int
                },
                out@.len() == base + i,
                base == 1 ==> out@[0] == (ChatMessage {
                    role: Role::System,
                    content: self.system_prompt->Some_0,
                    images: None,
                }),
                forall|j: int|
                    0 <= j < i ==> out@[base + j] == (#[trigger] self.messages@[j]).spec_chat_message(),
            decreases n - i,
        {
            out.push(self.messages[i].to_chat_message());
            i += 1;
        }
        proof {
            assert(out@ =~= self.spec_chat_messages());
        }
        out
    }

    /// How many messages the session holds.
    pub fn message_count(&self) -> (r: usize)
        ensures
            r == self.messages@.len(),
    {
        self.messages.len()
    }

    /// Whether an assistant response is still streaming into this
    /// session.
    pub fn is_streaming(&self) -> (r: bool)
        ensures
            r == self.spec_is_streaming(),
    {
        let n = self.messages.len();
        n > 0 && self.messages[n - 1].streaming
    }

    /// The position of the newest user message, if any.
    pub open spec fn spec_last_user_idx(self) -> Option<int> {
        Self::spec_last_user_before(self.messages@, self.messages@.len() as int)
    }

    /// The position of the newest user message strictly before `end`.
    pub open spec fn spec_last_user_before(msgs: Seq<Message>, end: int) -> Option<int>
        decreases end,
    {
        if end <= 0 {
            None
        } else if msgs[end - 1].role == Role::User {
            Some(end - 1)
        } else {
            Self::spec_last_user_before(msgs, end - 1)
        }
    }

    /// A preview of the session for the sidebar: the newest user
    /// message's text, or a placeholder when there is none.
    pub fn preview(&self) -> (r: &str)
        ensures
            match self.spec_last_user_idx() {
                Some(i) => r@ == self.messages@[i].content@,
                None => r@ == "(empty)"@,
            },
    {
        let mut i = self.messages.len();
        while i > 0
            invariant
                i <= self.messages@.len(),
                ChatSession::spec_last_user_before(self.messages@, self.messages@.len() as int)
                    == ChatSession::spec_last_user_before(self.messages@, i as int),
            decreases i,
        {
            if self.messages[i - 1].role == Role::User {
                return self.messages[i - 1].content.as_str();
            }
            i -= 1;
        }
        "(empty)"
    }
}

/// Finishing a response twice leaves the same session as finishing it
/// once: the second transition finds no streaming trailing message and
/// changes nothing, whatever the clock reads at either call.
pub proof fn lemma_finish_response_idempotent(
    s: ChatSession,
    once: ChatSession,
    twice: ChatSession,
    t1: i64,
    t2: i64,
)
    requires
        ChatSession::finish_rel(s, once, t1),
        ChatSession::finish_rel(once, twice, t2),
    ensures
        twice == once,
{
    if s.spec_is_streaming() {
        assert(!once.spec_is_streaming());
    }
}

} // verus!
