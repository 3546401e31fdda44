//! Argument arities and the values bound to them.

use crate::error::{outcome, BindingError, SpecificationError};
use crate::style::{cyan, cyan_text, magenta, magenta_text};
use crate::text::{byte_len, lemma_ascii_width, width};
use std::collections::VecDeque;
use vstd::prelude::*;

verus! {

/// How many tokens an argument takes, and whether it may take none.
#[derive(Debug, Clone, Copy, PartialEq, Eq, Structural)]
pub enum ArgumentType {
    /// Exactly one token.
    Required,
    /// At most one token. (`?`)
    Optional,
    /// Every remaining token, possibly none. (`*`)
    Variadic,
    /// Every remaining token, at least one. (`+`)
    RequiredVariadic,
}

/// A recipe argument as the configuration defines it.
#[derive(Debug, Clone, PartialEq, Eq)]
pub struct ArgumentDefinition {
    /// The name of the argument.
    pub name: String,
    /// The argument type.
    pub arg_type: ArgumentType,
}

/// The mathematical content of an [`ArgumentDefinition`].
pub struct ArgumentView {
    pub name: Seq<char>,
    pub arg_type: ArgumentType,
}

impl View for ArgumentDefinition {
    type V = ArgumentView;

    open spec fn view(&self) -> ArgumentView {
        ArgumentView { name: self.name@, arg_type: self.arg_type }
    }
}

impl DeepView for ArgumentDefinition {
    type V = ArgumentView;

    open spec fn deep_view(&self) -> ArgumentView {
        self@
    }
}

/// An argument together with the tokens bound to it.
#[derive(Debug, Clone, PartialEq, Eq)]
pub enum ResolvedArgument {
    /// A required argument.
    Required(String),
    /// An optional argument. (`?`)
    Optional(Option<String>),
    /// A variadic argument. (`*`)
    Variadic(Vec<String>),
    /// A required variadic argument. (`+`)
    RequiredVariadic(Vec<String>),
}

/// The mathematical content of a [`ResolvedArgument`].
pub enum ResolvedValue {
    Required(Seq<char>),
    Optional(Option<Seq<char>>),
    Variadic(Seq<Seq<char>>),
    RequiredVariadic(Seq<Seq<char>>),
}

impl ResolvedValue {
    /// The arity under which the value was bound.
    pub open spec fn arg_type(self) -> ArgumentType {
        match self {
            ResolvedValue::Required(_) => ArgumentType::Required,
            ResolvedValue::Optional(_) => ArgumentType::Optional,
            ResolvedValue::Variadic(_) => ArgumentType::Variadic,
            ResolvedValue::RequiredVariadic(_) => ArgumentType::RequiredVariadic,
        }
    }
}

impl View for ResolvedArgument {
    type V = ResolvedValue;

    open spec fn view(&self) -> ResolvedValue {
        match self {
            ResolvedArgument::Required(value) => ResolvedValue::Required(value@),
            ResolvedArgument::Optional(value) => ResolvedValue::Optional(value.deep_view()),
            ResolvedArgument::Variadic(values) => ResolvedValue::Variadic(values.deep_view()),
            ResolvedArgument::RequiredVariadic(values) => ResolvedValue::RequiredVariadic(
                values.deep_view(),
            ),
        }
    }
}

impl DeepView for ResolvedArgument {
    type V = ResolvedValue;

    open spec fn deep_view(&self) -> ResolvedValue {
        self@
    }
}

/// The arity that a specifier's first character stands for.
pub open spec fn sigil_type(first: char) -> ArgumentType {
    if first == '?' {
        ArgumentType::Optional
    } else if first == '*' {
        ArgumentType::Variadic
    } else if first == '+' {
        ArgumentType::RequiredVariadic
    } else {
        ArgumentType::Required
    }
}

/// The character sequence that marks an arity in a specifier: empty for `Required`.
pub open spec fn type_sigil(arg_type: ArgumentType) -> Seq<char> {
    match arg_type {
        ArgumentType::Required => Seq::empty(),
        ArgumentType::Optional => seq!['?'],
        ArgumentType::Variadic => seq!['*'],
        ArgumentType::RequiredVariadic => seq!['+'],
    }
}

/// The name under which an arity is shown to the user.
pub open spec fn type_label(arg_type: ArgumentType) -> Seq<char> {
    match arg_type {
        ArgumentType::Required => "Required"@,
        ArgumentType::Optional => "?Optional"@,
        ArgumentType::Variadic => "*Variadic"@,
        ArgumentType::RequiredVariadic => "+RequiredVariadic"@,
    }
}

/// What an arity binds when it meets the queue `tokens`.
pub open spec fn bound_value(arg_type: ArgumentType, tokens: Seq<Seq<char>>) -> Result<
    ResolvedValue,
    BindingError,
> {
    match arg_type {
        ArgumentType::Required => if tokens.len() == 0 {
            Err(BindingError::MissingRequired)
        } else {
            Ok(ResolvedValue::Required(tokens[0]))
        },
        ArgumentType::Optional => if tokens.len() == 0 {
            Ok(ResolvedValue::Optional(None))
        } else {
            Ok(ResolvedValue::Optional(Some(tokens[0])))
        },
        ArgumentType::Variadic => Ok(ResolvedValue::Variadic(tokens)),
        ArgumentType::RequiredVariadic => if tokens.len() == 0 {
            Err(BindingError::EmptyRequiredVariadic)
        } else {
            Ok(ResolvedValue::RequiredVariadic(tokens))
        },
    }
}

/// The queue that an arity leaves behind when it meets `tokens`.
pub open spec fn unbound_rest(arg_type: ArgumentType, tokens: Seq<Seq<char>>) -> Seq<Seq<char>> {
    match arg_type {
        ArgumentType::Required | ArgumentType::Optional => if tokens.len() == 0 {
            tokens
        } else {
            tokens.drop_first()
        },
        ArgumentType::Variadic | ArgumentType::RequiredVariadic => Seq::empty(),
    }
}

/// Moves every token of the queue, front first, into a list.
pub(crate) fn drain_all(args: &mut VecDeque<String>) -> (values: Vec<String>)
    ensures
        values.deep_view() == old(args).deep_view(),
        final(args)@.len() == 0,
{
    let mut values: Vec<String> = Vec::new();
    let ghost tokens = args.deep_view();
    loop
        invariant
            values.deep_view() + args.deep_view() == tokens,
        ensures
            args@.len() == 0,
            values.deep_view() == tokens,
        decreases args@.len(),
    {
        match args.pop_front() {
            Some(value) => {
                values.push(value);
            },
            None => {
                break ;
            },
        }
    }
    values
}

impl ArgumentType {
    /// Resolves the argument value.
    ///
    /// A required or optional argument takes the token at the front of the
    /// queue; a variadic one takes every token that is left, in order.
    pub fn resolve(&self, args: &mut VecDeque<String>) -> (bound: Result<
        ResolvedArgument,
        BindingError,
    >)
        ensures
            outcome(bound) == bound_value(*self, old(args).deep_view()),
            final(args).deep_view() == unbound_rest(*self, old(args).deep_view()),
    {
        match self {
            ArgumentType::Required => {
                match args.pop_front() {
                    Some(value) => Ok(ResolvedArgument::Required(value)),
                    None => Err(BindingError::MissingRequired),
                }
            },
            ArgumentType::Optional => {
                let value = args.pop_front();
                Ok(ResolvedArgument::Optional(value))
            },
            ArgumentType::Variadic => {
                let values = drain_all(args);
                Ok(ResolvedArgument::Variadic(values))
            },
            ArgumentType::RequiredVariadic => {
                if args.len() == 0 {
                    return Err(BindingError::EmptyRequiredVariadic);
                }
                let values = drain_all(args);
                Ok(ResolvedArgument::RequiredVariadic(values))
            },
        }
    }

    /// The arity's name as it is shown to the user.
    pub fn to_string(&self) -> (label: String)
        ensures
            label@ == type_label(*self),
    {
        match self {
            ArgumentType::Required => String::from_str("Required"),
            ArgumentType::Optional => String::from_str("?Optional"),
            ArgumentType::Variadic => String::from_str("*Variadic"),
            ArgumentType::RequiredVariadic => String::from_str("+RequiredVariadic"),
        }
    }
}

/// The definition that a specifier stands for: its first character, if it is
/// one of `?`, `*` and `+`, gives the arity and is taken off the name.
pub open spec fn parse_specifier(raw: Seq<char>) -> Result<ArgumentView, SpecificationError> {
    if raw.len() == 0 {
        Err(SpecificationError::EmptySpecifier)
    } else if sigil_type(raw[0]) == ArgumentType::Required {
        Ok(ArgumentView { name: raw, arg_type: ArgumentType::Required })
    } else {
        Ok(ArgumentView { name: raw.drop_first(), arg_type: sigil_type(raw[0]) })
    }
}

impl ArgumentView {
    /// The specifier as it is listed: sigil, then name.
    pub open spec fn summary_text(self, color: bool) -> Seq<char> {
        if color {
            magenta_text(type_sigil(self.arg_type)) + cyan_text(self.name)
        } else {
            type_sigil(self.arg_type) + self.name
        }
    }

    /// The width of the uncolored listing, in bytes.
    pub open spec fn summary_width(self) -> nat {
        byte_len(self.name) + type_sigil(self.arg_type).len()
    }
}

impl ArgumentDefinition {
    /// Creates a new argument definition from a string.
    pub fn from_string(arg: String) -> (parsed: Result<ArgumentDefinition, SpecificationError>)
        ensures
            outcome(parsed) == parse_specifier(arg@),
    {
        if arg.as_str().is_empty() {
            return Err(SpecificationError::EmptySpecifier);
        }
        let first = arg.as_str().get_char(0);
        let arg_type = if first == '?' {
            ArgumentType::Optional
        } else if first == '*' {
            ArgumentType::Variadic
        } else if first == '+' {
            ArgumentType::RequiredVariadic
        } else {
            ArgumentType::Required
        };
        if arg_type == ArgumentType::Required {
            Ok(ArgumentDefinition { name: arg, arg_type })
        } else {
            let length: usize = arg.as_str().unicode_len();
            let name = String::from_str(arg.as_str().substring_char(1, length));
            Ok(ArgumentDefinition { name, arg_type })
        }
    }

    /// The width of the listing, if it fits in `usize`.
    pub(crate) fn checked_width(&self) -> (width: Option<usize>)
        ensures
            width == (if self@.summary_width() <= usize::MAX {
                Some(self@.summary_width() as usize)
            } else {
                None
            }),
    {
        let sigil: usize = match self.arg_type {
            ArgumentType::Required => 0,
            _ => 1,
        };
        width(self.name.as_str()).checked_add(sigil)
    }

    /// Summarizes the argument, returning a string representation and the length.
    pub fn summarize(&self, color: bool) -> (summary: (String, usize))
        requires
            self@.summary_width() <= usize::MAX,
        ensures
            summary.0@ == self@.summary_text(color),
            summary.1 == self@.summary_width(),
    {
        let symbol = match self.arg_type {
            ArgumentType::Required => "",
            ArgumentType::Optional => "?",
            ArgumentType::Variadic => "*",
            ArgumentType::RequiredVariadic => "+",
        };
        proof {
            reveal_strlit("");
            reveal_strlit("?");
            reveal_strlit("*");
            reveal_strlit("+");
            lemma_ascii_width(symbol@);
        }
        let len: usize = width(self.name.as_str()) + width(symbol);
        let text = if color {
            let mut text = magenta(symbol);
            text.append(cyan(self.name.as_str()).as_str());
            text
        } else {
            let mut text = String::from_str(symbol);
            text.append(self.name.as_str());
            text
        };
        (text, len)
    }
}

impl ResolvedArgument {
    /// Gets the argument type.
    pub fn arg_type(&self) -> (arg_type: ArgumentType)
        ensures
            arg_type == self@.arg_type(),
    {
        match self {
            ResolvedArgument::Required(_) => ArgumentType::Required,
            ResolvedArgument::Optional(_) => ArgumentType::Optional,
            ResolvedArgument::Variadic(_) => ArgumentType::Variadic,
            ResolvedArgument::RequiredVariadic(_) => ArgumentType::RequiredVariadic,
        }
    }

    /// Checks that the argument matches the expected type.
    pub fn matches(&self, arg_type: &ArgumentType) -> (same: bool)
        ensures
            same == (self@.arg_type() == *arg_type),
    {
        self.arg_type() == *arg_type
    }
}

} // verus!
