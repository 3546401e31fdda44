//! Choosing what to do from the command line.

use crate::error::outcome;
use crate::text::same_text;
use std::collections::VecDeque;
use vstd::prelude::*;

verus! {

/// Possible types of actions.
#[derive(Debug, Clone, PartialEq, Eq)]
pub enum Action {
    /// Display help message.
    Help,
    /// Display version information.
    Version,
    /// List all available recipes.
    List,
    /// Execute the default recipe.
    Default,
    /// Execute a recipe.
    Recipe(String),
}

/// The mathematical content of an [`Action`].
pub enum ActionView {
    Help,
    Version,
    List,
    Default,
    Recipe(Seq<char>),
}

impl View for Action {
    type V = ActionView;

    open spec fn view(&self) -> ActionView {
        match self {
            Action::Help => ActionView::Help,
            Action::Version => ActionView::Version,
            Action::List => ActionView::List,
            Action::Default => ActionView::Default,
            Action::Recipe(name) => ActionView::Recipe(name@),
        }
    }
}

impl DeepView for Action {
    type V = ActionView;

    open spec fn deep_view(&self) -> ActionView {
        self@
    }
}

/// Why the command line names no action.
#[derive(Debug, Clone, PartialEq, Eq)]
pub enum ActionError {
    /// The first argument begins with `-` and is none of the known options.
    UnknownOption(String),
}

/// The mathematical content of an [`ActionError`].
pub enum ActionErrorView {
    UnknownOption(Seq<char>),
}

impl View for ActionError {
    type V = ActionErrorView;

    open spec fn view(&self) -> ActionErrorView {
        match self {
            ActionError::UnknownOption(option) => ActionErrorView::UnknownOption(option@),
        }
    }
}

impl DeepView for ActionError {
    type V = ActionErrorView;

    open spec fn deep_view(&self) -> ActionErrorView {
        self@
    }
}

impl ActionErrorView {
    /// The text of the message.
    pub open spec fn message(self) -> Seq<char> {
        match self {
            ActionErrorView::UnknownOption(option) => "Unknown option \""@ + option + "\""@,
        }
    }
}

impl ActionError {
    /// Renders the error for the user.
    pub fn to_string(&self) -> (text: String)
        ensures
            text@ == self@.message(),
    {
        match self {
            ActionError::UnknownOption(option) => {
                let mut text = String::from_str("Unknown option \"");
                text.append(option.as_str());
                text.append("\"");
                text
            },
        }
    }
}

/// The action that the first argument stands for. No argument is the default
/// recipe; one that begins with `-` is an option, known or not; any other is
/// the name of a recipe.
pub open spec fn action_for(first: Option<Seq<char>>) -> Result<ActionView, ActionErrorView> {
    match first {
        None => Ok(ActionView::Default),
        Some(word) => if word == "--help"@ || word == "-h"@ {
            Ok(ActionView::Help)
        } else if word == "--version"@ || word == "-v"@ {
            Ok(ActionView::Version)
        } else if word == "--list"@ || word == "-l"@ {
            Ok(ActionView::List)
        } else if word.len() > 0 && word[0] == '-' {
            Err(ActionErrorView::UnknownOption(word))
        } else {
            Ok(ActionView::Recipe(word))
        },
    }
}

/// The word at the front of the command line, if there is one.
pub open spec fn front(words: Seq<Seq<char>>) -> Option<Seq<char>> {
    if words.len() == 0 {
        None
    } else {
        Some(words[0])
    }
}

/// The command line without the word at its front.
pub open spec fn behind_front(words: Seq<Seq<char>>) -> Seq<Seq<char>> {
    if words.len() == 0 {
        words
    } else {
        words.drop_first()
    }
}

impl Action {
    /// Parse the action from the command line arguments, removing the first argument.
    pub fn parse(args: &mut VecDeque<String>) -> (action: Result<Action, ActionError>)
        ensures
            outcome(action) == action_for(front(old(args).deep_view())),
            final(args).deep_view() == behind_front(old(args).deep_view()),
    {
        let first = match args.pop_front() {
            None => {
                return Ok(Action::Default);
            },
            Some(first) => first,
        };
        let word = first.as_str();
        if same_text(word, "--help") || same_text(word, "-h") {
            Ok(Action::Help)
        } else if same_text(word, "--version") || same_text(word, "-v") {
            Ok(Action::Version)
        } else if same_text(word, "--list") || same_text(word, "-l") {
            Ok(Action::List)
        } else if !word.is_empty() && word.get_char(0) == '-' {
            Err(ActionError::UnknownOption(first))
        } else {
            Ok(Action::Recipe(first))
        }
    }
}

} // verus!
