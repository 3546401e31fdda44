//! Expanding a command template into the argument vector to execute.

use crate::arguments::{type_label, ArgumentType, ResolvedArgument, ResolvedValue};
use crate::component::{Component, ComponentView};
use crate::error::outcome;
use crate::resolver::ResolvedArguments;
use vstd::hash_map::StringHashMap;
use vstd::prelude::*;

verus! {

/// Why a command template cannot be expanded.
#[derive(Debug, Clone, PartialEq, Eq)]
pub enum ExpansionError {
    /// The template refers to an argument that the recipe does not define.
    UndefinedArgumentReference(String),
    /// The template refers to the named argument under another arity than the
    /// one it was defined with: the name, the arity defined, the arity referred to.
    ArgumentArityMismatch(String, ArgumentType, ArgumentType),
    /// The template refers to an environment variable that is not set.
    EnvironmentVariableNotFound(String),
    /// The expansion holds no element, so there is no program to run.
    EmptyResolvedCommand,
}

/// The mathematical content of an [`ExpansionError`].
pub enum ExpansionErrorView {
    UndefinedArgumentReference(Seq<char>),
    ArgumentArityMismatch(Seq<char>, ArgumentType, ArgumentType),
    EnvironmentVariableNotFound(Seq<char>),
    EmptyResolvedCommand,
}

impl View for ExpansionError {
    type V = ExpansionErrorView;

    open spec fn view(&self) -> ExpansionErrorView {
        match self {
            ExpansionError::UndefinedArgumentReference(name) =>
                ExpansionErrorView::UndefinedArgumentReference(name@),
            ExpansionError::ArgumentArityMismatch(name, defined, referenced) =>
                ExpansionErrorView::ArgumentArityMismatch(name@, *defined, *referenced),
            ExpansionError::EnvironmentVariableNotFound(var_name) =>
                ExpansionErrorView::EnvironmentVariableNotFound(var_name@),
            ExpansionError::EmptyResolvedCommand => ExpansionErrorView::EmptyResolvedCommand,
        }
    }
}

impl DeepView for ExpansionError {
    type V = ExpansionErrorView;

    open spec fn deep_view(&self) -> ExpansionErrorView {
        self@
    }
}

impl ExpansionErrorView {
    /// The text of the message.
    pub open spec fn message(self) -> Seq<char> {
        match self {
            ExpansionErrorView::UndefinedArgumentReference(name) => "Argument "@ + name
                + " not found"@,
            ExpansionErrorView::ArgumentArityMismatch(name, defined, referenced) => "Argument \""@
                + name + "\" defined as "@ + type_label(defined) + " but referenced as "@
                + type_label(referenced),
            ExpansionErrorView::EnvironmentVariableNotFound(var_name) =>
                "Environment variable \""@ + var_name + "\" not found"@,
            ExpansionErrorView::EmptyResolvedCommand => "Resolved command is empty"@,
        }
    }
}

impl ExpansionError {
    /// Renders the error for the user.
    pub fn to_string(&self) -> (text: String)
        ensures
            text@ == self@.message(),
    {
        match self {
            ExpansionError::UndefinedArgumentReference(name) => {
                let mut text = String::from_str("Argument ");
                text.append(name.as_str());
                text.append(" not found");
                text
            },
            ExpansionError::ArgumentArityMismatch(name, defined, referenced) => {
                let mut text = String::from_str("Argument \"");
                text.append(name.as_str());
                text.append("\" defined as ");
                text.append(defined.to_string().as_str());
                text.append(" but referenced as ");
                text.append(referenced.to_string().as_str());
                text
            },
            ExpansionError::EnvironmentVariableNotFound(var_name) => {
                let mut text = String::from_str("Environment variable \"");
                text.append(var_name.as_str());
                text.append("\" not found");
                text
            },
            ExpansionError::EmptyResolvedCommand => String::from_str("Resolved command is empty"),
        }
    }
}

/// The environment variables that a template may refer to, by name.
pub struct Environment {
    variables: StringHashMap<String>,
}

impl View for Environment {
    type V = Map<Seq<char>, Seq<char>>;

    closed spec fn view(&self) -> Map<Seq<char>, Seq<char>> {
        self.variables@.map_values(|value: String| value@)
    }
}

impl Environment {
    /// An environment in which no variable is set.
    pub fn new() -> (env: Environment)
        ensures
            env@ == Map::<Seq<char>, Seq<char>>::empty(),
    {
        Environment { variables: StringHashMap::new() }
    }

    /// Sets the variable `name` to `value`, in place of what it was set to before.
    pub fn set(&mut self, name: String, value: String)
        ensures
            final(self)@ == old(self)@.insert(name@, value@),
    {
        self.variables.insert(name, value);
    }

    /// The value of the variable `name`, if it is set.
    pub fn get(&self, name: &str) -> (value: Option<&String>)
        ensures
            value.deep_view() == (if self@.contains_key(name@) {
                Some(self@[name@])
            } else {
                None
            }),
    {
        self.variables.get(name)
    }
}

impl ResolvedValue {
    /// The argument vector elements that the value expands to, in order.
    pub open spec fn elements(self) -> Seq<Seq<char>> {
        match self {
            ResolvedValue::Required(value) => seq![value],
            ResolvedValue::Optional(Some(value)) => seq![value],
            ResolvedValue::Optional(None) => Seq::empty(),
            ResolvedValue::Variadic(values) => values,
            ResolvedValue::RequiredVariadic(values) => values,
        }
    }
}

/// The elements that one component of a template expands to.
///
/// A literal and an environment variable give one element each. A reference to
/// an argument gives the tokens bound to it, each an element of its own, if
/// the argument is defined and was bound under the arity that the reference
/// states.
pub open spec fn expand_component(
    component: ComponentView,
    resolved: Map<Seq<char>, ResolvedValue>,
    env: Map<Seq<char>, Seq<char>>,
) -> Result<Seq<Seq<char>>, ExpansionErrorView> {
    match component {
        ComponentView::Literal(literal) => Ok(seq![literal]),
        ComponentView::EnvVar(var_name) => if env.contains_key(var_name) {
            Ok(seq![env[var_name]])
        } else {
            Err(ExpansionErrorView::EnvironmentVariableNotFound(var_name))
        },
        ComponentView::Argument(reference) => if !resolved.contains_key(reference.name) {
            Err(ExpansionErrorView::UndefinedArgumentReference(reference.name))
        } else if resolved[reference.name].arg_type() != reference.arg_type {
            Err(
                ExpansionErrorView::ArgumentArityMismatch(
                    reference.name,
                    resolved[reference.name].arg_type(),
                    reference.arg_type,
                ),
            )
        } else {
            Ok(resolved[reference.name].elements())
        },
    }
}

/// The elements that the first `n` components expand to, one after the other.
/// The first component that fails ends the expansion.
pub open spec fn expand_prefix(
    command: Seq<ComponentView>,
    resolved: Map<Seq<char>, ResolvedValue>,
    env: Map<Seq<char>, Seq<char>>,
    n: nat,
) -> Result<Seq<Seq<char>>, ExpansionErrorView>
    decreases n,
{
    if n == 0 {
        Ok(Seq::empty())
    } else {
        match expand_prefix(command, resolved, env, (n - 1) as nat) {
            Err(error) => Err(error),
            Ok(before) => match expand_component(command[n - 1], resolved, env) {
                Err(error) => Err(error),
                Ok(elements) => Ok(before + elements),
            },
        }
    }
}

/// The argument vector that a template expands to. It holds at least the
/// program to run: an expansion without elements is an error.
pub open spec fn expansion(
    command: Seq<ComponentView>,
    resolved: Map<Seq<char>, ResolvedValue>,
    env: Map<Seq<char>, Seq<char>>,
) -> Result<Seq<Seq<char>>, ExpansionErrorView> {
    match expand_prefix(command, resolved, env, command.len()) {
        Err(error) => Err(error),
        Ok(argv) => if argv.len() == 0 {
            Err(ExpansionErrorView::EmptyResolvedCommand)
        } else {
            Ok(argv)
        },
    }
}

/// An expansion that has failed stays failed, with the same error, however
/// many components follow.
pub proof fn lemma_expand_failure_stays(
    command: Seq<ComponentView>,
    resolved: Map<Seq<char>, ResolvedValue>,
    env: Map<Seq<char>, Seq<char>>,
    k: nat,
    n: nat,
)
    requires
        k <= n,
        expand_prefix(command, resolved, env, k) is Err,
    ensures
        expand_prefix(command, resolved, env, n) == expand_prefix(command, resolved, env, k),
    decreases n,
{
    if k < n {
        lemma_expand_failure_stays(command, resolved, env, k, (n - 1) as nat);
    }
}

/// Appends a copy of each of `values` to `argv`, in order.
fn push_all(argv: &mut Vec<String>, values: &Vec<String>)
    ensures
        final(argv).deep_view() == old(argv).deep_view() + values.deep_view(),
{
    let mut i: usize = 0;
    while i < values.len()
        invariant
            i <= values.len(),
            argv.deep_view() == old(argv).deep_view() + values.deep_view().take(i as int),
        decreases values.len() - i,
    {
        let ghost before = argv.deep_view();
        argv.push(values[i].clone());
        assert(argv.deep_view() =~= before.push(values[i as int]@));
        i += 1;
    }
}

/// Appends to `argv` the elements that `component` expands to.
fn expand_into(
    argv: &mut Vec<String>,
    component: &Component,
    resolved: &ResolvedArguments,
    env: &Environment,
) -> (done: Result<(), ExpansionError>)
    ensures
        match expand_component(component@, resolved@, env@) {
            Ok(elements) => done is Ok && final(argv).deep_view() == old(argv).deep_view()
                + elements,
            Err(error) => done is Err && done->Err_0@ == error,
        },
{
    match component {
        Component::Literal(literal) => {
            argv.push(literal.clone());
            Ok(())
        },
        Component::EnvVar(var_name) => {
            match env.get(var_name.as_str()) {
                None => Err(ExpansionError::EnvironmentVariableNotFound(var_name.clone())),
                Some(value) => {
                    argv.push(value.clone());
                    Ok(())
                },
            }
        },
        Component::Argument(reference) => {
            match resolved.get(reference.name.as_str()) {
                None => Err(ExpansionError::UndefinedArgumentReference(reference.name.clone())),
                Some(value) => {
                    if !value.matches(&reference.arg_type) {
                        return Err(
                            ExpansionError::ArgumentArityMismatch(
                                reference.name.clone(),
                                value.arg_type(),
                                reference.arg_type,
                            ),
                        );
                    }
                    match value {
                        ResolvedArgument::Required(value) => {
                            argv.push(value.clone());
                        },
                        ResolvedArgument::Optional(value) => {
                            if let Some(value) = value {
                                argv.push(value.clone());
                            }
                        },
                        ResolvedArgument::Variadic(values) => {
                            push_all(argv, values);
                        },
                        ResolvedArgument::RequiredVariadic(values) => {
                            push_all(argv, values);
                        },
                    }
                    Ok(())
                },
            }
        },
    }
}

/// Expands the template `command` into an argument vector.
///
/// Each element stands for itself: nothing is quoted, split or joined.
pub fn expand_command(command: &Vec<Component>, resolved: &ResolvedArguments, env: &Environment)
    -> (argv: Result<Vec<String>, ExpansionError>)
    ensures
        outcome(argv) == expansion(command.deep_view(), resolved@, env@),
        argv matches Ok(elements) ==> elements.len() > 0,
{
    let mut argv: Vec<String> = Vec::new();
    let mut i: usize = 0;
    assert(argv.deep_view() =~= Seq::<Seq<char>>::empty());
    while i < command.len()
        invariant
            i <= command.len(),
            expand_prefix(command.deep_view(), resolved@, env@, i as nat) == Ok::<
                Seq<Seq<char>>,
                ExpansionErrorView,
            >(argv.deep_view()),
        decreases command.len() - i,
    {
        match expand_into(&mut argv, &command[i], resolved, env) {
            Ok(()) => {},
            Err(error) => {
                proof {
                    lemma_expand_failure_stays(
                        command.deep_view(),
                        resolved@,
                        env@,
                        (i + 1) as nat,
                        command.len() as nat,
                    );
                }
                return Err(error);
            },
        }
        i += 1;
    }
    if argv.len() == 0 {
        return Err(ExpansionError::EmptyResolvedCommand);
    }
    Ok(argv)
}

} // verus!
