//! Binding a queue of positional tokens to a recipe's argument definitions.

use crate::arguments::{
    bound_value, drain_all, unbound_rest, ArgumentDefinition, ArgumentView, ResolvedArgument,
    ResolvedValue,
};
use crate::error::{outcome, BindingError};
use crate::text::{debug_list, debug_list_text};
use std::collections::VecDeque;
use vstd::hash_map::StringHashMap;
use vstd::prelude::*;

verus! {

/// Why a queue of tokens does not fit a list of argument definitions.
#[derive(Debug, Clone, PartialEq, Eq)]
pub enum ArityError {
    /// The named required argument met an empty queue.
    MissingRequiredArgument(String),
    /// The named required variadic argument met an empty queue.
    EmptyRequiredVariadic(String),
    /// These tokens were left when every definition had taken its share.
    UnexpectedExtraArguments(Vec<String>),
}

/// The mathematical content of an [`ArityError`].
pub enum ArityErrorView {
    MissingRequiredArgument(Seq<char>),
    EmptyRequiredVariadic(Seq<char>),
    UnexpectedExtraArguments(Seq<Seq<char>>),
}

impl View for ArityError {
    type V = ArityErrorView;

    open spec fn view(&self) -> ArityErrorView {
        match self {
            ArityError::MissingRequiredArgument(name) => ArityErrorView::MissingRequiredArgument(
                name@,
            ),
            ArityError::EmptyRequiredVariadic(name) => ArityErrorView::EmptyRequiredVariadic(name@),
            ArityError::UnexpectedExtraArguments(rest) => ArityErrorView::UnexpectedExtraArguments(
                rest.deep_view(),
            ),
        }
    }
}

impl DeepView for ArityError {
    type V = ArityErrorView;

    open spec fn deep_view(&self) -> ArityErrorView {
        self@
    }
}

impl ArityErrorView {
    /// The text of the message, given how the tokens left over are listed.
    pub open spec fn message(self, listed: Seq<char>) -> Seq<char> {
        match self {
            ArityErrorView::MissingRequiredArgument(name) => "While resolving argument \""@ + name
                + "\": "@ + BindingError::MissingRequired.message(),
            ArityErrorView::EmptyRequiredVariadic(name) => "While resolving argument \"+"@ + name
                + "\": "@ + BindingError::EmptyRequiredVariadic.message(),
            ArityErrorView::UnexpectedExtraArguments(_) => "Unexpected argument(s): "@ + listed,
        }
    }

    /// The tokens that the error lists: those left over, if that is the error.
    pub open spec fn leftover(self) -> Seq<Seq<char>> {
        match self {
            ArityErrorView::UnexpectedExtraArguments(rest) => rest,
            _ => Seq::empty(),
        }
    }
}

impl ArityError {
    /// Renders the error for the user, with `listed` as the listing of the
    /// tokens that were left over.
    pub fn render(&self, listed: &str) -> (text: String)
        ensures
            text@ == self@.message(listed@),
    {
        match self {
            ArityError::MissingRequiredArgument(name) => {
                let mut text = String::from_str("While resolving argument \"");
                text.append(name.as_str());
                text.append("\": ");
                text.append(BindingError::MissingRequired.to_string().as_str());
                text
            },
            ArityError::EmptyRequiredVariadic(name) => {
                let mut text = String::from_str("While resolving argument \"+");
                text.append(name.as_str());
                text.append("\": ");
                text.append(BindingError::EmptyRequiredVariadic.to_string().as_str());
                text
            },
            ArityError::UnexpectedExtraArguments(_) => {
                let mut text = String::from_str("Unexpected argument(s): ");
                text.append(listed);
                text
            },
        }
    }

    /// Renders the error for the user. Tokens that were left over are listed
    /// as `Debug` formats a list of strings.
    pub fn to_string(&self) -> (text: String)
        ensures
            text@ == self@.message(debug_list_text(self@.leftover())),
    {
        match self {
            ArityError::UnexpectedExtraArguments(rest) => {
                let listed = debug_list(rest);
                self.render(listed.as_str())
            },
            _ => self.render(""),
        }
    }
}

/// The failure of one argument, with the argument's name added to it.
pub open spec fn named_failure(error: BindingError, name: Seq<char>) -> ArityErrorView {
    match error {
        BindingError::MissingRequired => ArityErrorView::MissingRequiredArgument(name),
        BindingError::EmptyRequiredVariadic => ArityErrorView::EmptyRequiredVariadic(name),
    }
}

/// The values bound so far, by argument name, and the tokens not yet taken.
pub struct Binding {
    pub bound: Map<Seq<char>, ResolvedValue>,
    pub rest: Seq<Seq<char>>,
}

/// Binds the first `n` definitions, in order, each taking its tokens from the
/// front of what the ones before it left. The first failure ends the binding.
pub open spec fn bind_prefix(definitions: Seq<ArgumentView>, tokens: Seq<Seq<char>>, n: nat)
    -> Result<Binding, ArityErrorView>
    decreases n,
{
    if n == 0 {
        Ok(Binding { bound: Map::empty(), rest: tokens })
    } else {
        match bind_prefix(definitions, tokens, (n - 1) as nat) {
            Err(error) => Err(error),
            Ok(before) => {
                let definition = definitions[n - 1];
                match bound_value(definition.arg_type, before.rest) {
                    Err(error) => Err(named_failure(error, definition.name)),
                    Ok(value) => Ok(
                        Binding {
                            bound: before.bound.insert(definition.name, value),
                            rest: unbound_rest(definition.arg_type, before.rest),
                        },
                    ),
                }
            },
        }
    }
}

/// A binding that has failed stays failed, with the same error, however many
/// definitions follow.
pub proof fn lemma_bind_failure_stays(
    definitions: Seq<ArgumentView>,
    tokens: Seq<Seq<char>>,
    k: nat,
    n: nat,
)
    requires
        k <= n,
        bind_prefix(definitions, tokens, k) is Err,
    ensures
        bind_prefix(definitions, tokens, n) == bind_prefix(definitions, tokens, k),
    decreases n,
{
    if k < n {
        lemma_bind_failure_stays(definitions, tokens, k, (n - 1) as nat);
    }
}

/// Binds every definition; tokens that are left over afterwards are an error.
pub open spec fn resolution(definitions: Seq<ArgumentView>, tokens: Seq<Seq<char>>) -> Result<
    Map<Seq<char>, ResolvedValue>,
    ArityErrorView,
> {
    match bind_prefix(definitions, tokens, definitions.len()) {
        Err(error) => Err(error),
        Ok(binding) => if binding.rest.len() > 0 {
            Err(ArityErrorView::UnexpectedExtraArguments(binding.rest))
        } else {
            Ok(binding.bound)
        },
    }
}

/// The values bound to a recipe's arguments, by argument name.
pub struct ResolvedArguments {
    values: StringHashMap<ResolvedArgument>,
}

impl View for ResolvedArguments {
    type V = Map<Seq<char>, ResolvedValue>;

    closed spec fn view(&self) -> Map<Seq<char>, ResolvedValue> {
        self.values@.map_values(|value: ResolvedArgument| value@)
    }
}

impl DeepView for ResolvedArguments {
    type V = Map<Seq<char>, ResolvedValue>;

    open spec fn deep_view(&self) -> Map<Seq<char>, ResolvedValue> {
        self@
    }
}

impl ResolvedArguments {
    /// A map without entries.
    pub fn new() -> (resolved: ResolvedArguments)
        ensures
            resolved@ == Map::<Seq<char>, ResolvedValue>::empty(),
    {
        ResolvedArguments { values: StringHashMap::new() }
    }

    /// Binds `value` to `name`, in place of what was bound to it before.
    pub fn insert(&mut self, name: String, value: ResolvedArgument)
        ensures
            final(self)@ == old(self)@.insert(name@, value@),
    {
        self.values.insert(name, value);
    }

    /// The value bound to `name`, if there is one.
    pub fn get(&self, name: &str) -> (value: Option<&ResolvedArgument>)
        ensures
            value.deep_view() == (if self@.contains_key(name@) {
                Some(self@[name@])
            } else {
                None
            }),
    {
        self.values.get(name)
    }

    /// The number of names that have a value.
    pub fn len(&self) -> (len: usize)
        ensures
            len == self@.len(),
    {
        proof {
            vstd::hash_map::axiom_string_hash_map_spec_len(&self.values);
            assert(self@.dom() =~= self.values@.dom());
        }
        self.values.len()
    }
}

/// Binds the tokens of `args` to `definitions`.
///
/// The definitions take their tokens in the order of the list, each from the
/// front of the queue. A definition that follows a variadic one meets an
/// empty queue, whatever was supplied.
pub fn resolve_arguments(definitions: &Vec<ArgumentDefinition>, args: VecDeque<String>) -> (resolved:
    Result<ResolvedArguments, ArityError>)
    ensures
        outcome(resolved) == resolution(definitions.deep_view(), args.deep_view()),
{
    let ghost tokens = args.deep_view();
    let mut queue = args;
    let mut bound = ResolvedArguments::new();
    let mut i: usize = 0;
    while i < definitions.len()
        invariant
            i <= definitions.len(),
            tokens == args.deep_view(),
            bind_prefix(definitions.deep_view(), tokens, i as nat) == Ok::<
                Binding,
                ArityErrorView,
            >(Binding { bound: bound@, rest: queue.deep_view() }),
        decreases definitions.len() - i,
    {
        let definition = &definitions[i];
        match definition.arg_type.resolve(&mut queue) {
            Ok(value) => {
                bound.insert(definition.name.clone(), value);
            },
            Err(error) => {
                let name = definition.name.clone();
                proof {
                    lemma_bind_failure_stays(
                        definitions.deep_view(),
                        tokens,
                        (i + 1) as nat,
                        definitions.len() as nat,
                    );
                }
                return Err(
                    match error {
                        BindingError::MissingRequired => ArityError::MissingRequiredArgument(name),
                        BindingError::EmptyRequiredVariadic => ArityError::EmptyRequiredVariadic(
                            name,
                        ),
                    },
                );
            },
        }
        i += 1;
    }
    if queue.len() != 0 {
        let rest = drain_all(&mut queue);
        return Err(ArityError::UnexpectedExtraArguments(rest));
    }
    Ok(bound)
}

} // verus!
