//! The entries of a command template and their classification.

use crate::arguments::{parse_specifier, ArgumentDefinition, ArgumentView};
use crate::error::{outcome, SpecificationError};
use vstd::prelude::*;

verus! {

/// A template entry as the configuration writes it: a bare string, or a
/// bracketed list of strings.
#[derive(Debug, Clone, PartialEq, Eq)]
pub enum RawComponent {
    /// A bare string.
    Literal(String),
    /// A bracketed list.
    Array(Vec<String>),
}

/// The mathematical content of a [`RawComponent`].
pub enum RawComponentView {
    Literal(Seq<char>),
    Array(Seq<Seq<char>>),
}

impl View for RawComponent {
    type V = RawComponentView;

    open spec fn view(&self) -> RawComponentView {
        match self {
            RawComponent::Literal(literal) => RawComponentView::Literal(literal@),
            RawComponent::Array(array) => RawComponentView::Array(array.deep_view()),
        }
    }
}

impl DeepView for RawComponent {
    type V = RawComponentView;

    open spec fn deep_view(&self) -> RawComponentView {
        self@
    }
}

/// A component of a command.
#[derive(Debug, Clone, PartialEq, Eq)]
pub enum Component {
    /// A string literal.
    Literal(String),
    /// An argument, with the arity that the template states for it.
    Argument(ArgumentDefinition),
    /// An environment variable.
    EnvVar(String),
}

/// The mathematical content of a [`Component`].
pub enum ComponentView {
    Literal(Seq<char>),
    Argument(ArgumentView),
    EnvVar(Seq<char>),
}

impl View for Component {
    type V = ComponentView;

    open spec fn view(&self) -> ComponentView {
        match self {
            Component::Literal(literal) => ComponentView::Literal(literal@),
            Component::Argument(argument) => ComponentView::Argument(argument@),
            Component::EnvVar(var_name) => ComponentView::EnvVar(var_name@),
        }
    }
}

impl DeepView for Component {
    type V = ComponentView;

    open spec fn deep_view(&self) -> ComponentView {
        self@
    }
}

/// What the single element of a bracketed entry refers to: an environment
/// variable if it begins with `$`, else an argument written as a specifier.
pub open spec fn classify_reference(inner: Seq<char>) -> Result<ComponentView, SpecificationError> {
    if inner.len() > 0 && inner[0] == '$' {
        Ok(ComponentView::EnvVar(inner.drop_first()))
    } else {
        match parse_specifier(inner) {
            Ok(argument) => Ok(ComponentView::Argument(argument)),
            Err(error) => Err(error),
        }
    }
}

/// The component that a raw entry stands for. A bare string is a literal; a
/// bracketed list is a reference, and must hold exactly one element.
pub open spec fn classify(raw: RawComponentView) -> Result<ComponentView, SpecificationError> {
    match raw {
        RawComponentView::Literal(literal) => Ok(ComponentView::Literal(literal)),
        RawComponentView::Array(array) => if array.len() == 1 {
            classify_reference(array[0])
        } else {
            Err(SpecificationError::MalformedReference(array.len() as usize))
        },
    }
}

impl Component {
    /// Classifies a raw template entry.
    pub fn from_raw(raw: RawComponent) -> (component: Result<Component, SpecificationError>)
        ensures
            outcome(component) == classify(raw@),
    {
        match raw {
            RawComponent::Literal(literal) => Ok(Component::Literal(literal)),
            RawComponent::Array(mut array) => {
                let found: usize = array.len();
                match array.pop() {
                    None => Err(SpecificationError::MalformedReference(found)),
                    Some(placeholder) => {
                        if array.len() != 0 {
                            return Err(SpecificationError::MalformedReference(found));
                        }
                        if !placeholder.as_str().is_empty() && placeholder.as_str().get_char(0)
                            == '$' {
                            let length: usize = placeholder.as_str().unicode_len();
                            let var_name = String::from_str(
                                placeholder.as_str().substring_char(1, length),
                            );
                            return Ok(Component::EnvVar(var_name));
                        }
                        match ArgumentDefinition::from_string(placeholder) {
                            Ok(argument) => Ok(Component::Argument(argument)),
                            Err(error) => Err(error),
                        }
                    },
                }
            },
        }
    }
}

} // verus!
