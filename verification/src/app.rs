//! The application state machine.  The host's event loop polls the
//! terminal, translates each key press into a plain `KeyInput`, and
//! hands it to `handle_key`.  All decisions live here: quitting, editing
//! the input line, and—on enter—running a full turn of the assistant
//! engine.  When a turn needs the filesystem, `handle_key` returns the
//! request; the host performs it and reports the outcome to
//! `finish_dispatch`, which completes the turn.  The host draws frames
//! from the `Ui` state in between; it decides nothing.

use vstd::prelude::*;

use crate::ai::AiClient;
use crate::ai::AiClientView;
use crate::ai::default_context;
use crate::ai::default_model;
use crate::conversation::assistant_message;
use crate::conversation::user_message;
use crate::dispatch::FsOutcome;
use crate::dispatch::FsRequest;
use crate::dispatch::PlanModel;
use crate::dispatch::Step;
use crate::dispatch::outcome_fits;
use crate::dispatch::render_outcome;
use crate::dispatch::req_model;
use crate::dispatch::spec_plan;
use crate::dispatch::spec_render;
use crate::ui::Ui;
use crate::ui::UiView;
use crate::ui::welcome_line;

verus! {

/// A key press, reduced to what the application reacts to.
#[derive(Clone, Copy, Debug, PartialEq, Eq, Structural)]
pub enum KeyInput {
    Char(char),
    Enter,
    Backspace,
    CtrlC,
    Other,
}

/// The transcript pane's echo of a user utterance.
pub open spec fn you_line(u: Seq<char>) -> Seq<char> {
    "You: "@ + u
}

/// The transcript pane's echo of an assistant reply.
pub open spec fn assistant_line(r: Seq<char>) -> Seq<char> {
    "Assistant: "@ + r
}

/// Mathematical image of an `App`.
pub struct AppView {
    pub ui: UiView,
    pub client: AiClientView,
    pub should_quit: bool,
}

/// The whole application state.
pub struct App {
    ui: Ui,
    ai_client: AiClient,
    should_quit: bool,
}

impl View for App {
    type V = AppView;

    closed spec fn view(&self) -> AppView {
        AppView { ui: self.ui@, client: self.ai_client@, should_quit: self.should_quit }
    }
}

/// What pressing enter does.  An empty input line changes nothing.
/// Otherwise the utterance is echoed to the pane, recorded as the user
/// message, and the input line is cleared; if the plan settles the reply
/// at once the turn completes on the spot, and if it needs the
/// filesystem the request is handed back for the host to perform.
pub open spec fn enter_outcome(pre: AppView, post: AppView, pending: Option<FsRequest>) -> bool {
    if pre.ui.input.len() == 0 {
        post == pre && pending is None
    } else {
        let u = pre.ui.input;
        match spec_plan(u) {
            PlanModel::Reply(r) => pending is None && post == (AppView {
                ui: UiView {
                    input: Seq::empty(),
                    messages: pre.ui.messages + seq![you_line(u), assistant_line(r)],
                },
                client: AiClientView {
                    history: pre.client.history + seq![user_message(u), assistant_message(r)],
                    ..pre.client
                },
                should_quit: pre.should_quit,
            }),
            PlanModel::Fs(rm) => (match pending {
                Some(req) => req_model(req) == rm,
                None => false,
            }) && post == (AppView {
                ui: UiView {
                    input: Seq::empty(),
                    messages: pre.ui.messages.push(you_line(u)),
                },
                client: AiClientView {
                    history: pre.client.history.push(user_message(u)),
                    ..pre.client
                },
                should_quit: pre.should_quit,
            }),
        }
    }
}

impl App {
    /// A fresh application: fresh view state, fresh engine, not
    /// quitting.
    pub fn new() -> (a: App)
        ensures
            a@.ui.input == Seq::<char>::empty(),
            a@.ui.messages == seq![welcome_line()],
            a@.client.api_key is None,
            a@.client.model == default_model(),
            a@.client.history == Seq::<crate::conversation::MessageView>::empty(),
            a@.client.context == default_context(),
            a@.should_quit == false,
    {
        App { ui: Ui::new(), ai_client: AiClient::new(), should_quit: false }
    }

    /// Has a quit key been pressed?
    pub fn wants_quit(&self) -> (b: bool)
        ensures
            b == self@.should_quit,
    {
        self.should_quit
    }

    /// Read access to the view state, for drawing.
    pub fn ui(&self) -> (u: &Ui)
        ensures
            u@ == self@.ui,
    {
        &self.ui
    }

    /// Read access to the engine, for inspecting the transcript.
    pub fn client(&self) -> (c: &AiClient)
        ensures
            c@ == self@.client,
    {
        &self.ai_client
    }

    /// React to one key press.  `q` and control-c ask to quit, ordinary
    /// characters and backspace edit the input line, enter submits the
    /// line as an utterance (see `enter_outcome`), anything else is
    /// ignored.
    pub fn handle_key(&mut self, key: KeyInput) -> (pending: Option<FsRequest>)
        ensures
            match key {
                KeyInput::Char(c) => pending is None && if c == 'q' {
                    final(self)@ == (AppView { should_quit: true, ..old(self)@ })
                } else {
                    final(self)@ == (AppView {
                        ui: UiView { input: old(self)@.ui.input.push(c), ..old(self)@.ui },
                        ..old(self)@
                    })
                },
                KeyInput::CtrlC => pending is None && final(self)@ == (AppView {
                    should_quit: true,
                    ..old(self)@
                }),
                KeyInput::Backspace => pending is None && final(self)@ == (AppView {
                    ui: UiView {
                        input: if old(self)@.ui.input.len() == 0 {
                            old(self)@.ui.input
                        } else {
                            old(self)@.ui.input.drop_last()
                        },
                        ..old(self)@.ui
                    },
                    ..old(self)@
                }),
                KeyInput::Enter => enter_outcome(old(self)@, final(self)@, pending),
                KeyInput::Other => pending is None && final(self)@ == old(self)@,
            },
    {
        match key {
            KeyInput::Char(c) => {
                if c == 'q' {
                    self.should_quit = true;
                } else {
                    self.ui.push_input_char(c);
                }
                None
            },
            KeyInput::CtrlC => {
                self.should_quit = true;
                None
            },
            KeyInput::Backspace => {
                self.ui.backspace();
                None
            },
            KeyInput::Enter => {
                if self.ui.input_text().as_str().is_empty() {
                    return None;
                }
                let input = self.ui.input_text().clone();
                let ghost u = old(self)@.ui.input;
                proof {
                    assert(input@ == u);
                }
                self.ui.push_message(String::from_str("You: ").concat(input.as_str()));
                let step = self.ai_client.begin_turn(input.as_str());
                self.ui.clear_input();
                match step {
                    Step::Reply(r) => {
                        self.ai_client.finish_turn(r.as_str());
                        self.ui.push_message(
                            String::from_str("Assistant: ").concat(r.as_str()),
                        );
                        proof {
                            assert(self@.ui.messages =~= old(self)@.ui.messages + seq![
                                you_line(u),
                                assistant_line(r@),
                            ]);
                            assert(self@.client.history =~= old(self)@.client.history + seq![
                                user_message(u),
                                assistant_message(r@),
                            ]);
                        }
                        None
                    },
                    Step::Fs(req) => Some(req),
                }
            },
            KeyInput::Other => None,
        }
    }

    /// Complete a turn whose plan needed the filesystem: render the
    /// outcome the host reports, record the assistant message, and echo
    /// it to the pane.
    pub fn finish_dispatch(&mut self, req: &FsRequest, outcome: &FsOutcome)
        requires
            outcome_fits(*req, *outcome),
        ensures
            final(self)@ == (AppView {
                ui: UiView {
                    messages: old(self)@.ui.messages.push(
                        assistant_line(spec_render(*req, *outcome)),
                    ),
                    ..old(self)@.ui
                },
                client: AiClientView {
                    history: old(self)@.client.history.push(
                        assistant_message(spec_render(*req, *outcome)),
                    ),
                    ..old(self)@.client
                },
                ..old(self)@
            }),
    {
        let reply = render_outcome(req, outcome);
        self.ai_client.finish_turn(reply.as_str());
        self.ui.push_message(String::from_str("Assistant: ").concat(reply.as_str()));
    }
}

} // verus!
