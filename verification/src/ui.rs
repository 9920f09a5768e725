//! The state behind the terminal view: the input line being edited and
//! the list of chat lines shown in the transcript pane.  Drawing is the
//! host's business; this module only keeps and edits the state.

use vstd::prelude::*;

use crate::text::views_of;

verus! {

/// Relies on `String::push`: appends the given character at the end of
/// the string.
#[verifier::external_body]
fn string_push_char(s: &mut String, c: char)
    ensures
        final(s)@ == old(s)@.push(c),
{
    s.push(c);
}

/// Relies on `String::pop`: removes and returns the last character, or
/// returns nothing and leaves an empty string unchanged.
#[verifier::external_body]
fn string_pop_char(s: &mut String) -> (r: Option<char>)
    ensures
        old(s)@.len() == 0 ==> final(s)@ == old(s)@ && r is None,
        old(s)@.len() > 0 ==> final(s)@ == old(s)@.drop_last() && r == Some(old(s)@.last()),
{
    s.pop()
}

/// The first chat line a fresh session shows.
pub open spec fn welcome_line() -> Seq<char> {
    "Welcome to fsbot-rs! Type your message and press Enter."@
}

/// Mathematical image of a `Ui`.
pub struct UiView {
    pub input: Seq<char>,
    pub messages: Seq<Seq<char>>,
}

/// The terminal view's state: the line being typed and the chat lines.
pub struct Ui {
    input: String,
    messages: Vec<String>,
}

impl View for Ui {
    type V = UiView;

    closed spec fn view(&self) -> UiView {
        UiView { input: self.input@, messages: views_of(self.messages@) }
    }
}

impl Ui {
    /// A fresh view state: empty input line, the welcome line as the
    /// only chat line.
    pub fn new() -> (u: Ui)
        ensures
            u@.input == Seq::<char>::empty(),
            u@.messages == seq![welcome_line()],
    {
        let mut messages: Vec<String> = Vec::new();
        messages.push(String::from_str(
            "Welcome to fsbot-rs! Type your message and press Enter.",
        ));
        let u = Ui { input: String::new(), messages };
        proof {
            assert(u@.messages =~= seq![welcome_line()]);
        }
        u
    }

    /// The input line being edited.
    pub fn input_text(&self) -> (s: &String)
        ensures
            s@ == self@.input,
    {
        &self.input
    }

    /// The chat lines, oldest first.
    pub fn message_lines(&self) -> (v: &Vec<String>)
        ensures
            views_of(v@) == self@.messages,
    {
        &self.messages
    }

    /// Append one character to the input line.
    pub fn push_input_char(&mut self, c: char)
        ensures
            final(self)@ == (UiView { input: old(self)@.input.push(c), ..old(self)@ }),
    {
        string_push_char(&mut self.input, c);
    }

    /// Remove the last character of the input line, if there is one.
    pub fn backspace(&mut self)
        ensures
            final(self)@ == (UiView {
                input: if old(self)@.input.len() == 0 {
                    old(self)@.input
                } else {
                    old(self)@.input.drop_last()
                },
                ..old(self)@
            }),
    {
        let _ = string_pop_char(&mut self.input);
    }

    /// Empty the input line.
    pub fn clear_input(&mut self)
        ensures
            final(self)@ == (UiView { input: Seq::<char>::empty(), ..old(self)@ }),
    {
        self.input = String::new();
    }

    /// Append one chat line.
    pub fn push_message(&mut self, line: String)
        ensures
            final(self)@ == (UiView {
                messages: old(self)@.messages.push(line@),
                ..old(self)@
            }),
    {
        proof {
            assert(views_of(self.messages@.push(line))
                =~= views_of(self.messages@).push(line@));
        }
        self.messages.push(line);
    }
}

} // verus!
