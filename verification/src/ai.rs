//! The assistant engine: owns the conversation transcript and the
//! session configuration, and interprets one utterance per turn.  A turn
//! has two halves.  `begin_turn` records the user message and decides
//! what the utterance requires — either a finished reply or a filesystem
//! request for the host to perform.  Once the reply text is settled
//! (directly, or by rendering the host's outcome), `finish_turn` records
//! the assistant message.  Every turn therefore appends exactly one user
//! and one assistant message, and nothing is ever removed.

use vstd::prelude::*;

use crate::conversation::ConversationState;
use crate::conversation::Message;
use crate::conversation::MessageView;
use crate::conversation::Role;
use crate::conversation::assistant_message;
use crate::conversation::user_message;
use crate::dispatch::Step;
use crate::dispatch::plan_utterance;
use crate::dispatch::spec_plan;
use crate::dispatch::step_model;

verus! {

/// The model name a fresh session starts with.
pub open spec fn default_model() -> Seq<char> {
    "gpt-3.5-turbo"@
}

/// The fixed system context a fresh session starts with.
pub open spec fn default_context() -> Seq<char> {
    "You are fsbot-rs, an AI assistant that helps users with file operations and answers questions. You are friendly, helpful, and maintain context of the conversation. You can help with file searches, content analysis, and general questions."@
}

/// Mathematical image of an `AiClient`.
pub struct AiClientView {
    pub api_key: Option<Seq<char>>,
    pub model: Seq<char>,
    pub history: Seq<MessageView>,
    pub context: Seq<char>,
}

/// The assistant engine for one session.
pub struct AiClient {
    api_key: Option<String>,
    model: String,
    conversation: ConversationState,
    context: String,
}

impl View for AiClient {
    type V = AiClientView;

    closed spec fn view(&self) -> AiClientView {
        AiClientView {
            api_key: match self.api_key {
                Some(k) => Some(k@),
                None => None,
            },
            model: self.model@,
            history: self.conversation@,
            context: self.context@,
        }
    }
}

impl AiClient {
    /// A fresh session: no key, the default model and context, and an
    /// empty transcript.
    pub fn new() -> (c: AiClient)
        ensures
            c@.api_key is None,
            c@.model == default_model(),
            c@.history == Seq::<MessageView>::empty(),
            c@.context == default_context(),
    {
        AiClient {
            api_key: None,
            model: String::from_str("gpt-3.5-turbo"),
            conversation: ConversationState::new(),
            context: String::from_str(
                "You are fsbot-rs, an AI assistant that helps users with file operations and answers questions. You are friendly, helpful, and maintain context of the conversation. You can help with file searches, content analysis, and general questions.",
            ),
        }
    }

    /// Replace the stored key; nothing else changes.
    pub fn set_api_key(&mut self, key: String)
        ensures
            final(self)@ == (AiClientView { api_key: Some(key@), ..old(self)@ }),
    {
        self.api_key = Some(key);
    }

    /// Replace the model name; nothing else changes.
    pub fn set_model(&mut self, model: String)
        ensures
            final(self)@ == (AiClientView { model: model@, ..old(self)@ }),
    {
        self.model = model;
    }

    /// Read access to the transcript.
    pub fn conversation(&self) -> (c: &ConversationState)
        ensures
            c@ == self@.history,
    {
        &self.conversation
    }

    /// First half of a turn: record the user message and plan the
    /// utterance.  The step returned is exactly the plan that
    /// `spec_plan` assigns to the utterance.
    pub fn begin_turn(&mut self, content: &str) -> (step: Step)
        ensures
            final(self)@ == (AiClientView {
                history: old(self)@.history.push(user_message(content@)),
                ..old(self)@
            }),
            step_model(step) == spec_plan(content@),
    {
        self.conversation.append(Message::new(Role::User, String::from_str(content)));
        plan_utterance(content)
    }

    /// Second half of a turn: record the assistant's reply.
    pub fn finish_turn(&mut self, reply: &str)
        ensures
            final(self)@ == (AiClientView {
                history: old(self)@.history.push(assistant_message(reply@)),
                ..old(self)@
            }),
    {
        self.conversation.append(Message::new(Role::Assistant, String::from_str(reply)));
    }
}

} // verus!
