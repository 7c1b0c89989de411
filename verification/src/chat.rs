//! Chat with the AI: the conversation sent with each message, and the
//! frames that report errors.

use vstd::prelude::*;

verus! {

/// One message of a conversation.
#[derive(Clone, Debug)]
pub struct ChatMessage {
    pub role: String,
    pub content: String,
}

/// The view of a message: its role and text.
pub open spec fn message_view(m: ChatMessage) -> (Seq<char>, Seq<char>) {
    (m.role@, m.content@)
}

/// The views of messages.
pub open spec fn messages_view(ms: Seq<ChatMessage>) -> Seq<(Seq<char>, Seq<char>)> {
    ms.map_values(|m: ChatMessage| message_view(m))
}

/// The instruction that opens every conversation with the assistant.
pub open spec fn system_prompt() -> Seq<char> {
    "You are an English learning assistant. Help the user improve their English skills."@
}

/// The conversation sent to the AI: the system instruction, then the recent
/// messages, which come newest first, turned oldest first.
pub open spec fn conversation(recent: Seq<(Seq<char>, Seq<char>)>) -> Seq<(Seq<char>, Seq<char>)> {
    seq![("system"@, system_prompt())] + recent.reverse()
}

/// Builds the conversation sent to the AI from the recent messages, newest
/// first.
pub fn chat_conversation(recent: Vec<ChatMessage>) -> (r: Vec<ChatMessage>)
    ensures
        messages_view(r@) == conversation(messages_view(recent@)),
{
    let mut r: Vec<ChatMessage> = Vec::new();
    r.push(
        ChatMessage {
            role: String::from_str("system"),
            content: String::from_str(
                "You are an English learning assistant. Help the user improve their English skills.",
            ),
        },
    );
    let n = recent.len();
    let mut i: usize = n;
    while i > 0
        invariant
            i <= n == recent.len(),
            messages_view(r@) == seq![("system"@, system_prompt())] + messages_view(
                recent@.subrange(i as int, n as int),
            ).reverse(),
        decreases i,
    {
        i = i - 1;
        let m = ChatMessage { role: recent[i].role.clone(), content: recent[i].content.clone() };
        let ghost before = r@;
        r.push(m);
        assert(messages_view(recent@.subrange(i as int, n as int)) =~= seq![
            message_view(recent@[i as int]),
        ] + messages_view(recent@.subrange(i + 1, n as int)));
        assert(messages_view(r@) =~= messages_view(before).push(message_view(recent@[i as int])));
        assert(messages_view(recent@.subrange(i as int, n as int)).reverse() =~= messages_view(
            recent@.subrange(i + 1, n as int),
        ).reverse().push(message_view(recent@[i as int])));
    }
    assert(recent@.subrange(0, n as int) =~= recent@);
    r
}

/// The frame that reports an error: `{"error":"` + message + `"}`.
pub fn error_frame(message: &str) -> (r: String)
    ensures
        r@ == "{\"error\":\""@ + message@ + "\"}"@,
{
    let mut r = String::from_str("{\"error\":\"");
    r.append(message);
    r.append("\"}");
    r
}

/// What happens on the stream of a reply.
#[derive(Clone, Debug)]
pub enum StreamEvent {
    /// A piece of the reply came.
    Chunk(String),
    /// The stream failed with this message.
    Failed(String),
    /// The stream ended.
    Finished,
}

/// What to do after a stream event.
#[derive(Clone, Debug)]
pub enum StreamAction {
    /// Send this piece of the reply on to the user, and go on.
    Forward(String),
    /// Send this error frame, stop, and store this reply as the assistant's
    /// message.
    FailAndStore { frame: String, reply: String },
    /// Stop, and store this reply as the assistant's message.
    Store(String),
}

/// One step of relaying a streamed reply, `reply` holding what came so far:
/// each piece is added to the reply and sent on; at the first failure the
/// error frame is sent and the reply so far is stored; at the end the
/// reply is stored.
pub fn chat_stream_step(reply: &mut String, event: StreamEvent) -> (a: StreamAction)
    ensures
        match event {
            StreamEvent::Chunk(c) => {
                &&& final(reply)@ == old(reply)@ + c@
                &&& a matches StreamAction::Forward(f) && f@ == c@
            },
            StreamEvent::Failed(e) => {
                &&& final(reply)@ == old(reply)@
                &&& a matches StreamAction::FailAndStore { frame, reply: kept }
                    && frame@ == "{\"error\":\""@ + e@ + "\"}"@ && kept@ == old(reply)@
            },
            StreamEvent::Finished => {
                &&& final(reply)@ == old(reply)@
                &&& a matches StreamAction::Store(kept) && kept@ == old(reply)@
            },
        },
{
    match event {
        StreamEvent::Chunk(c) => {
            reply.append(c.as_str());
            StreamAction::Forward(c)
        },
        StreamEvent::Failed(e) => StreamAction::FailAndStore {
            frame: error_frame(e.as_str()),
            reply: reply.clone(),
        },
        StreamEvent::Finished => StreamAction::Store(reply.clone()),
    }
}

} // verus!
