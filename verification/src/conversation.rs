//! The conversation transcript: an ordered, append-only log of
//! role-tagged messages.  It is created empty, only ever grows by one
//! message at a time, and is never reordered or edited in place.

use vstd::prelude::*;

verus! {

/// Who said a message.
#[derive(Clone, Copy, Debug, PartialEq, Eq, Structural)]
pub enum Role {
    User,
    Assistant,
}

/// One transcript entry: a role and the message text.  Immutable once
/// created.
#[derive(Debug, Clone)]
pub struct Message {
    role: Role,
    content: String,
}

/// Mathematical image of a `Message`.
pub struct MessageView {
    pub role: Role,
    pub content: Seq<char>,
}

impl View for Message {
    type V = MessageView;

    closed spec fn view(&self) -> MessageView {
        MessageView { role: self.role, content: self.content@ }
    }
}

/// The model of a user-authored message.
pub open spec fn user_message(content: Seq<char>) -> MessageView {
    MessageView { role: Role::User, content }
}

/// The model of an assistant-authored message.
pub open spec fn assistant_message(content: Seq<char>) -> MessageView {
    MessageView { role: Role::Assistant, content }
}

impl Message {
    /// Make a message with the given role and text.
    pub fn new(role: Role, content: String) -> (m: Message)
        ensures
            m@ == (MessageView { role, content: content@ }),
    {
        Message { role, content }
    }

    /// The role of the author.
    pub fn role(&self) -> (r: Role)
        ensures
            r == self@.role,
    {
        self.role
    }

    /// The message text.
    pub fn content(&self) -> (c: &String)
        ensures
            c@ == self@.content,
    {
        &self.content
    }
}

/// The append-only transcript of a session.
pub struct ConversationState {
    history: Vec<Message>,
}

impl View for ConversationState {
    type V = Seq<MessageView>;

    closed spec fn view(&self) -> Seq<MessageView> {
        self.history@.map_values(|m: Message| m@)
    }
}

impl ConversationState {
    /// A transcript with no messages yet.
    pub fn new() -> (s: ConversationState)
        ensures
            s@ == Seq::<MessageView>::empty(),
    {
        let s = ConversationState { history: Vec::new() };
        proof {
            assert(s@ =~= Seq::<MessageView>::empty());
        }
        s
    }

    /// Add one message at the end.  Nothing else changes: every message
    /// already recorded keeps its place.
    pub fn append(&mut self, m: Message)
        ensures
            final(self)@ == old(self)@.push(m@),
    {
        proof {
            assert(self.history@.push(m).map_values(|m: Message| m@)
                =~= self.history@.map_values(|m: Message| m@).push(m@));
        }
        self.history.push(m);
    }

    /// How many messages the transcript holds.
    pub fn len(&self) -> (n: usize)
        ensures
            n == self@.len(),
    {
        self.history.len()
    }

    /// The message at position `i`.
    pub fn get(&self, i: usize) -> (m: &Message)
        requires
            i < self@.len(),
        ensures
            m@ == self@[i as int],
    {
        &self.history[i]
    }

    /// The full history, oldest first, for rendering.
    pub fn snapshot(&self) -> (h: &Vec<Message>)
        ensures
            h@.map_values(|m: Message| m@) == self@,
    {
        &self.history
    }
}

/// The transcript after one further turn: the user's utterance followed
/// by the assistant's reply.
pub open spec fn after_turn(
    h: Seq<MessageView>,
    utterance: Seq<char>,
    reply: Seq<char>,
) -> Seq<MessageView> {
    h.push(user_message(utterance)).push(assistant_message(reply))
}

/// The transcript a whole session leaves behind, one (utterance, reply)
/// pair per turn, starting from the empty transcript.
pub open spec fn after_turns(turns: Seq<(Seq<char>, Seq<char>)>) -> Seq<MessageView>
    decreases turns.len(),
{
    if turns.len() == 0 {
        Seq::empty()
    } else {
        after_turn(after_turns(turns.drop_last()), turns.last().0, turns.last().1)
    }
}

/// A turn only appends: the two new messages land at the end, in order,
/// and every earlier message keeps its place and value.
pub proof fn lemma_turn_appends(h: Seq<MessageView>, utterance: Seq<char>, reply: Seq<char>)
    ensures
        after_turn(h, utterance, reply).len() == h.len() + 2,
        forall|i: int| 0 <= i < h.len() ==> after_turn(h, utterance, reply)[i] == h[i],
        after_turn(h, utterance, reply)[h.len() as int] == user_message(utterance),
        after_turn(h, utterance, reply)[h.len() as int + 1] == assistant_message(reply),
{
}

/// After `n` turns the transcript holds exactly `2 n` messages: for each
/// turn one user message then one assistant message, in strict arrival
/// order.
pub proof fn lemma_transcript_shape(turns: Seq<(Seq<char>, Seq<char>)>)
    ensures
        after_turns(turns).len() == 2 * turns.len(),
        forall|i: int| #![trigger turns[i]]
            0 <= i < turns.len() ==> after_turns(turns)[2 * i] == user_message(turns[i].0)
                && after_turns(turns)[2 * i + 1] == assistant_message(turns[i].1),
    decreases turns.len(),
{
    if turns.len() > 0 {
        let prev = turns.drop_last();
        lemma_transcript_shape(prev);
        assert forall|i: int| #![trigger turns[i]] 0 <= i < turns.len() implies after_turns(
            turns,
        )[2 * i] == user_message(turns[i].0) && after_turns(turns)[2 * i + 1]
            == assistant_message(turns[i].1) by {
            if i < turns.len() - 1 {
                assert(prev[i] == turns[i]);
                assert(after_turns(prev)[2 * i] == user_message(prev[i].0));
                assert(after_turns(prev)[2 * i + 1] == assistant_message(prev[i].1));
            }
        }
    }
}

} // verus!
