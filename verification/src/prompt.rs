//! The dialogue with the operator.
//!
//! The engine asks through a `Prompter`. What is written and how an answer
//! is read is decided here, step by step; reading and writing is left to
//! whoever runs the dialogue.

use vstd::prelude::*;
use vstd::string::*;
use crate::messages::{prompt_message, prompt_text, retry_text};

verus! {

/// Someone who can answer a request: `true` grants, `false` denies.
pub trait Prompter {
    fn prompt(&mut self, message: &str) -> bool;
}

/// A prompter that gives the answer it holds, whatever is asked.
#[derive(Debug)]
pub struct FixedPrompter {
    pub answer: bool,
}

impl FixedPrompter {
    pub fn new(answer: bool) -> (prompter: FixedPrompter)
        ensures
            prompter.answer == answer,
    {
        FixedPrompter { answer }
    }

    /// Change the answer for the requests to come.
    pub fn set_prompt_result(&mut self, value: bool)
        ensures
            final(self).answer == value,
    {
        self.answer = value;
    }
}

impl Prompter for FixedPrompter {
    fn prompt(&mut self, message: &str) -> (answer: bool)
        ensures
            answer == old(self).answer,
            final(self).answer == old(self).answer,
    {
        self.answer
    }
}

/// Where a dialogue stands: decided, or a text to write before the next
/// line is read.
#[derive(Debug)]
pub enum PromptStep {
    Done(bool),
    Ask(String),
}

/// A step as plain values.
pub enum PromptStepView {
    Done(bool),
    Ask(Seq<char>),
}

impl View for PromptStep {
    type V = PromptStepView;

    open spec fn view(&self) -> PromptStepView {
        match self {
            PromptStep::Done(answer) => PromptStepView::Done(*answer),
            PromptStep::Ask(text) => PromptStepView::Ask(text@),
        }
    }
}

/// The step that a line of input leads to: `g` grants and `d` denies, in
/// either case; anything else asks again and names the character given.
pub open spec fn reply_step(line: Seq<char>) -> PromptStepView
    recommends
        line.len() > 0,
{
    if line[0] == 'g' || line[0] == 'G' {
        PromptStepView::Done(true)
    } else if line[0] == 'd' || line[0] == 'D' {
        PromptStepView::Done(false)
    } else {
        PromptStepView::Ask(retry_text(line[0]))
    }
}

/// Open a dialogue. Without a terminal on both sides nothing is asked and
/// the request is denied.
pub fn start_prompt(message: &str, stdin_is_tty: bool, stderr_is_tty: bool) -> (step: PromptStep)
    ensures
        step@ == if stdin_is_tty && stderr_is_tty {
            PromptStepView::Ask(prompt_text(message@))
        } else {
            PromptStepView::Done(false)
        },
{
    if !stdin_is_tty || !stderr_is_tty {
        return PromptStep::Done(false);
    }
    PromptStep::Ask(prompt_message(message))
}

/// Go on with what was read: `None` where reading failed, which denies.
pub fn continue_prompt(input: Option<&str>) -> (step: PromptStep)
    requires
        input matches Some(line) ==> line@.len() > 0,
    ensures
        step@ == match input {
            None => PromptStepView::Done(false),
            Some(line) => reply_step(line@),
        },
{
    match input {
        None => PromptStep::Done(false),
        Some(line) => {
            let given = line.get_char(0);
            if given == 'g' || given == 'G' {
                PromptStep::Done(true)
            } else if given == 'd' || given == 'D' {
                PromptStep::Done(false)
            } else {
                let mut text = String::from_str("Unrecognized option '");
                let shown = line.substring_char(0, 1);
                text.append(shown);
                text.append("' [g/d (g = grant, d = deny)] ");
                assert(shown@ =~= seq![given]);
                PromptStep::Ask(text)
            }
        },
    }
}

} // verus!
