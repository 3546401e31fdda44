//! What holds of binding, classification, expansion and listing on every input.

use crate::arguments::{
    bound_value, type_sigil, unbound_rest, ArgumentType, ArgumentView, ResolvedValue,
};
use crate::component::{classify, Component, ComponentView, RawComponent};
use crate::error::{outcome, BindingError, SpecificationError};
use crate::expander::{expand_prefix, expansion, lemma_expand_failure_stays, ExpansionErrorView};
use crate::recipe::{description_note, name_separator, ConfigView, RecipeView, ResolveErrorView};
use crate::resolver::{
    bind_prefix, lemma_bind_failure_stays, resolution, ArityErrorView, Binding,
};
use crate::text::{
    blanks, byte_len, joined, lemma_ascii_width, lemma_joined_width, lemma_width_adds, parts_width,
};
use vstd::prelude::*;

verus! {

/// Whether every component of `command` is a literal.
pub open spec fn all_literals(command: Seq<ComponentView>) -> bool {
    forall|i: int| 0 <= i < command.len() ==> (#[trigger] command[i]) is Literal
}

/// The texts of the components of `command`, in order.
pub open spec fn literal_texts(command: Seq<ComponentView>) -> Seq<Seq<char>> {
    Seq::new(command.len(), |i: int| command[i]->Literal_0)
}

/// Whether an arity takes every token that is left.
pub open spec fn is_greedy(arg_type: ArgumentType) -> bool {
    arg_type == ArgumentType::Variadic || arg_type == ArgumentType::RequiredVariadic
}

/// Whether no two of the first `n` definitions have the same name.
pub open spec fn distinct_names(definitions: Seq<ArgumentView>, n: nat) -> bool {
    forall|i: int, j: int|
        0 <= i < j < n ==> (#[trigger] definitions[i]).name != (#[trigger] definitions[j]).name
}

/// The names of the first `n` definitions.
pub open spec fn defined_names(definitions: Seq<ArgumentView>, n: nat) -> Set<Seq<char>>
    decreases n,
{
    if n == 0 {
        Set::empty()
    } else {
        defined_names(definitions, (n - 1) as nat).insert(definitions[n - 1].name)
    }
}

/// A template of literals alone expands, component by component, to the
/// literals counted so far.
proof fn lemma_literals_expand_prefix(
    command: Seq<ComponentView>,
    resolved: Map<Seq<char>, ResolvedValue>,
    env: Map<Seq<char>, Seq<char>>,
    n: nat,
)
    requires
        all_literals(command),
        n <= command.len(),
    ensures
        expand_prefix(command, resolved, env, n) == Ok::<Seq<Seq<char>>, ExpansionErrorView>(
            literal_texts(command).take(n as int),
        ),
    decreases n,
{
    if n == 0 {
        assert(literal_texts(command).take(0) =~= Seq::<Seq<char>>::empty());
    } else {
        lemma_literals_expand_prefix(command, resolved, env, (n - 1) as nat);
        assert(literal_texts(command).take(n as int) =~= literal_texts(command).take(n - 1)
            + seq![command[n - 1]->Literal_0]);
    }
}

/// A template of literals alone expands to those literals, unchanged and in
/// order, whatever is bound and whatever the environment holds. The template
/// must hold a literal: an empty one has no expansion.
pub proof fn law_literal_template_expands_unchanged(
    command: Seq<ComponentView>,
    resolved: Map<Seq<char>, ResolvedValue>,
    env: Map<Seq<char>, Seq<char>>,
)
    requires
        all_literals(command),
        command.len() > 0,
    ensures
        expansion(command, resolved, env) == Ok::<Seq<Seq<char>>, ExpansionErrorView>(
            literal_texts(command),
        ),
{
    lemma_literals_expand_prefix(command, resolved, env, command.len());
    assert(literal_texts(command).take(command.len() as int) =~= literal_texts(command));
}

/// A recipe without arguments whose template holds literals alone yields
/// those literals when it is given no tokens.
pub proof fn law_literal_recipe_resolves_unchanged(recipe: RecipeView, env: Map<Seq<char>, Seq<char>>)
    requires
        recipe.arguments.len() == 0,
        all_literals(recipe.command),
        recipe.command.len() > 0,
    ensures
        recipe.resolve(Seq::empty(), env) == Ok::<Seq<Seq<char>>, ResolveErrorView>(
            literal_texts(recipe.command),
        ),
{
    law_literal_template_expands_unchanged(recipe.command, Map::empty(), env);
}

/// A required variadic argument that meets an empty queue fails, and leaves
/// the queue as it was.
pub proof fn law_required_variadic_rejects_empty_queue()
    ensures
        bound_value(ArgumentType::RequiredVariadic, Seq::empty()) == Err::<
            ResolvedValue,
            BindingError,
        >(BindingError::EmptyRequiredVariadic),
        unbound_rest(ArgumentType::RequiredVariadic, Seq::empty()) == Seq::<Seq<char>>::empty(),
{
}

/// Where the definitions before a required variadic one are bound without
/// failure and leave no token, the resolution fails for want of a token for
/// that definition, however many definitions precede it and however many
/// follow.
pub proof fn law_required_variadic_needs_a_token(
    definitions: Seq<ArgumentView>,
    tokens: Seq<Seq<char>>,
    i: int,
)
    requires
        0 <= i < definitions.len(),
        definitions[i].arg_type == ArgumentType::RequiredVariadic,
        bind_prefix(definitions, tokens, i as nat) is Ok,
        bind_prefix(definitions, tokens, i as nat)->Ok_0.rest.len() == 0,
    ensures
        resolution(definitions, tokens) == Err::<Map<Seq<char>, ResolvedValue>, ArityErrorView>(
            ArityErrorView::EmptyRequiredVariadic(definitions[i].name),
        ),
{
    lemma_bind_failure_stays(definitions, tokens, (i + 1) as nat, definitions.len());
}

/// A variadic argument never fails. One that meets an empty queue is bound
/// to the empty list.
pub proof fn law_variadic_accepts_nothing(tokens: Seq<Seq<char>>)
    ensures
        bound_value(ArgumentType::Variadic, tokens) is Ok,
        bound_value(ArgumentType::Variadic, Seq::empty()) == Ok::<ResolvedValue, BindingError>(
            ResolvedValue::Variadic(Seq::empty()),
        ),
        unbound_rest(ArgumentType::Variadic, Seq::empty()) == Seq::<Seq<char>>::empty(),
{
}

/// Where the definitions before a variadic one are bound without failure and
/// leave no token, the variadic one is bound to the empty list, and the
/// binding goes on.
pub proof fn law_variadic_binds_the_empty_list(
    definitions: Seq<ArgumentView>,
    tokens: Seq<Seq<char>>,
    i: int,
)
    requires
        0 <= i < definitions.len(),
        definitions[i].arg_type == ArgumentType::Variadic,
        bind_prefix(definitions, tokens, i as nat) is Ok,
        bind_prefix(definitions, tokens, i as nat)->Ok_0.rest.len() == 0,
    ensures
        bind_prefix(definitions, tokens, (i + 1) as nat) == Ok::<Binding, ArityErrorView>(
            Binding {
                bound: bind_prefix(definitions, tokens, i as nat)->Ok_0.bound.insert(
                    definitions[i].name,
                    ResolvedValue::Variadic(Seq::empty()),
                ),
                rest: Seq::empty(),
            },
        ),
{
    let before = bind_prefix(definitions, tokens, i as nat)->Ok_0;
    assert(before.rest =~= Seq::<Seq<char>>::empty());
}

/// A variadic or required variadic argument that is bound holds the tokens of
/// the queue as they stood there: as many, each in its place, none dropped
/// and none merged. The queue is empty afterwards.
pub proof fn law_greedy_binding_keeps_order(arg_type: ArgumentType, tokens: Seq<Seq<char>>)
    requires
        is_greedy(arg_type),
        bound_value(arg_type, tokens) is Ok,
    ensures
        bound_value(arg_type, tokens)->Ok_0.arg_type() == arg_type,
        bound_value(arg_type, tokens)->Ok_0.elements() == tokens,
        bound_value(arg_type, tokens)->Ok_0.elements().len() == tokens.len(),
        forall|i: int|
            0 <= i < tokens.len() ==> bound_value(arg_type, tokens)->Ok_0.elements()[i]
                == tokens[i],
        unbound_rest(arg_type, tokens).len() == 0,
{
}

/// Classification is a function of the entry's content: any two outcomes of
/// classifying entries with the same content are the same.
pub proof fn law_classification_is_repeatable(
    first_raw: RawComponent,
    second_raw: RawComponent,
    first: Result<Component, SpecificationError>,
    second: Result<Component, SpecificationError>,
)
    requires
        first_raw@ == second_raw@,
        outcome(first) == classify(first_raw@),
        outcome(second) == classify(second_raw@),
    ensures
        outcome(first) == outcome(second),
{
}

/// A reference that states another arity than the one under which its
/// argument was bound fails the expansion with both arities, whatever follows
/// it in the template. Nothing is coerced.
pub proof fn law_arity_mismatch_is_reported(
    command: Seq<ComponentView>,
    resolved: Map<Seq<char>, ResolvedValue>,
    env: Map<Seq<char>, Seq<char>>,
    i: int,
)
    requires
        0 <= i < command.len(),
        expand_prefix(command, resolved, env, i as nat) is Ok,
        command[i] is Argument,
        resolved.contains_key(command[i]->Argument_0.name),
        resolved[command[i]->Argument_0.name].arg_type() != command[i]->Argument_0.arg_type,
    ensures
        expansion(command, resolved, env) == Err::<Seq<Seq<char>>, ExpansionErrorView>(
            ExpansionErrorView::ArgumentArityMismatch(
                command[i]->Argument_0.name,
                resolved[command[i]->Argument_0.name].arg_type(),
                command[i]->Argument_0.arg_type,
            ),
        ),
{
    // The reference fails, and what has failed stays failed.
    lemma_expand_failure_stays(command, resolved, env, (i + 1) as nat, command.len());
}

/// A recipe whose arguments have names of their own and take their tokens
/// without failure reports a reference that states another arity than its
/// argument's definition, with the arity defined and the arity referred to,
/// provided that the template expands without failure up to that reference.
pub proof fn law_reference_must_restate_defined_arity(
    recipe: RecipeView,
    tokens: Seq<Seq<char>>,
    env: Map<Seq<char>, Seq<char>>,
    k: int,
    i: int,
)
    requires
        distinct_names(recipe.arguments, recipe.arguments.len()),
        resolution(recipe.arguments, tokens) is Ok,
        0 <= k < recipe.arguments.len(),
        0 <= i < recipe.command.len(),
        recipe.command[i] is Argument,
        recipe.command[i]->Argument_0.name == recipe.arguments[k].name,
        recipe.command[i]->Argument_0.arg_type != recipe.arguments[k].arg_type,
        expand_prefix(
            recipe.command,
            resolution(recipe.arguments, tokens)->Ok_0,
            env,
            i as nat,
        ) is Ok,
    ensures
        recipe.resolve(tokens, env) == Err::<Seq<Seq<char>>, ResolveErrorView>(
            ResolveErrorView::Expansion(
                ExpansionErrorView::ArgumentArityMismatch(
                    recipe.arguments[k].name,
                    recipe.arguments[k].arg_type,
                    recipe.command[i]->Argument_0.arg_type,
                ),
            ),
        ),
{
    let bound = resolution(recipe.arguments, tokens)->Ok_0;
    law_binding_keeps_defined_arity(recipe.arguments, tokens, recipe.arguments.len(), k);
    law_arity_mismatch_is_reported(recipe.command, bound, env, i);
}

/// The names of the first `n` definitions are those that one of them has.
pub proof fn lemma_defined_names(definitions: Seq<ArgumentView>, n: nat, name: Seq<char>)
    ensures
        defined_names(definitions, n).contains(name) <==> exists|i: int|
            0 <= i < n && (#[trigger] definitions[i]).name == name,
        defined_names(definitions, n).finite(),
    decreases n,
{
    if n > 0 {
        lemma_defined_names(definitions, (n - 1) as nat, name);
        if defined_names(definitions, n).contains(name) && definitions[n - 1].name != name {
            // An earlier definition has the name.
            let i = choose|i: int| 0 <= i < n - 1 && (#[trigger] definitions[i]).name == name;
            assert(0 <= i < n && definitions[i].name == name);
        }
        if exists|i: int| 0 <= i < n && (#[trigger] definitions[i]).name == name {
            let i = choose|i: int| 0 <= i < n && (#[trigger] definitions[i]).name == name;
            if i < n - 1 {
                assert(0 <= i < n - 1 && definitions[i].name == name);
            }
        }
    }
}

/// A successful binding of the first `n` definitions holds a value for the
/// name of each of them, and for no other name; where no two of them share a
/// name, it holds as many values as definitions.
pub proof fn lemma_binding_holds_each_definition(
    definitions: Seq<ArgumentView>,
    tokens: Seq<Seq<char>>,
    n: nat,
)
    requires
        n <= definitions.len(),
        bind_prefix(definitions, tokens, n) is Ok,
    ensures
        bind_prefix(definitions, tokens, n)->Ok_0.bound.dom() == defined_names(definitions, n),
        distinct_names(definitions, n) ==> bind_prefix(definitions, tokens, n)->Ok_0.bound.len()
            == n,
    decreases n,
{
    if n > 0 {
        let before = bind_prefix(definitions, tokens, (n - 1) as nat)->Ok_0;
        let last = definitions[n - 1];
        lemma_binding_holds_each_definition(definitions, tokens, (n - 1) as nat);
        if distinct_names(definitions, n) {
            // The last name is new, so the binding grows by one value.
            lemma_defined_names(definitions, (n - 1) as nat, last.name);
            if before.bound.dom().contains(last.name) {
                let i = choose|i: int|
                    0 <= i < n - 1 && (#[trigger] definitions[i]).name == last.name;
                assert(definitions[i].name != definitions[n - 1].name);
            }
        }
    }
}

/// The values that a resolution yields are those of the recipe's arguments:
/// one for the name of each definition, and none for any other name. Where no
/// two definitions share a name, there are as many values as definitions.
pub proof fn law_resolution_holds_each_definition(
    definitions: Seq<ArgumentView>,
    tokens: Seq<Seq<char>>,
)
    requires
        resolution(definitions, tokens) is Ok,
    ensures
        resolution(definitions, tokens)->Ok_0.dom() == defined_names(
            definitions,
            definitions.len(),
        ),
        distinct_names(definitions, definitions.len()) ==> resolution(
            definitions,
            tokens,
        )->Ok_0.len() == definitions.len(),
{
    lemma_binding_holds_each_definition(definitions, tokens, definitions.len());
}

/// A successful binding holds each definition's value under that definition's
/// arity, unless a later definition has the same name and took its place.
pub proof fn law_binding_keeps_defined_arity(
    definitions: Seq<ArgumentView>,
    tokens: Seq<Seq<char>>,
    n: nat,
    i: int,
)
    requires
        0 <= i < n <= definitions.len(),
        bind_prefix(definitions, tokens, n) is Ok,
        forall|j: int| i < j < n ==> (#[trigger] definitions[j]).name != definitions[i].name,
    ensures
        bind_prefix(definitions, tokens, n)->Ok_0.bound.contains_key(definitions[i].name),
        bind_prefix(definitions, tokens, n)->Ok_0.bound[definitions[i].name].arg_type()
            == definitions[i].arg_type,
    decreases n,
{
    if i < n - 1 {
        law_binding_keeps_defined_arity(definitions, tokens, (n - 1) as nat, i);
    }
}

/// Once a variadic or required variadic definition has been bound, the queue
/// is empty for every definition that follows it.
pub proof fn law_greedy_definition_drains_queue(
    definitions: Seq<ArgumentView>,
    tokens: Seq<Seq<char>>,
    i: int,
    n: nat,
)
    requires
        0 <= i < n <= definitions.len(),
        is_greedy(definitions[i].arg_type),
        bind_prefix(definitions, tokens, n) is Ok,
    ensures
        bind_prefix(definitions, tokens, n)->Ok_0.rest.len() == 0,
    decreases n,
{
    if i < n - 1 {
        law_greedy_definition_drains_queue(definitions, tokens, i, (n - 1) as nat);
    }
}

/// Tokens are left over only where no definition is variadic or required
/// variadic and more tokens were supplied than there are definitions. Each
/// definition then took one token, and the tokens behind those are the ones
/// left over, in order.
pub proof fn law_leftover_needs_no_greedy_definition(
    definitions: Seq<ArgumentView>,
    tokens: Seq<Seq<char>>,
)
    requires
        resolution(definitions, tokens) is Err,
        resolution(definitions, tokens)->Err_0 is UnexpectedExtraArguments,
    ensures
        forall|i: int|
            0 <= i < definitions.len() ==> !is_greedy((#[trigger] definitions[i]).arg_type),
        definitions.len() < tokens.len(),
        resolution(definitions, tokens)->Err_0->UnexpectedExtraArguments_0 == tokens.subrange(
            definitions.len() as int,
            tokens.len() as int,
        ),
{
    if bind_prefix(definitions, tokens, definitions.len()) is Err {
        lemma_bind_names_its_failure(definitions, tokens, definitions.len());
    }
    assert forall|i: int| 0 <= i < definitions.len() implies !is_greedy(
        (#[trigger] definitions[i]).arg_type,
    ) by {
        if is_greedy(definitions[i].arg_type) {
            law_greedy_definition_drains_queue(definitions, tokens, i, definitions.len());
        }
    }
    lemma_one_token_each(definitions, tokens, definitions.len());
}

/// Where tokens are left behind the first `n` definitions, each of these
/// took exactly one token.
proof fn lemma_one_token_each(definitions: Seq<ArgumentView>, tokens: Seq<Seq<char>>, n: nat)
    requires
        n <= definitions.len(),
        bind_prefix(definitions, tokens, n) is Ok,
        bind_prefix(definitions, tokens, n)->Ok_0.rest.len() > 0,
    ensures
        n < tokens.len(),
        bind_prefix(definitions, tokens, n)->Ok_0.rest == tokens.subrange(
            n as int,
            tokens.len() as int,
        ),
    decreases n,
{
    if n > 0 {
        lemma_one_token_each(definitions, tokens, (n - 1) as nat);
    }
}

/// A binding fails only for want of a token, never for a token too many.
proof fn lemma_bind_names_its_failure(definitions: Seq<ArgumentView>, tokens: Seq<Seq<char>>, n: nat)
    requires
        bind_prefix(definitions, tokens, n) is Err,
    ensures
        !(bind_prefix(definitions, tokens, n)->Err_0 is UnexpectedExtraArguments),
    decreases n,
{
    if n > 0 && bind_prefix(definitions, tokens, (n - 1) as nat) is Err {
        lemma_bind_names_its_failure(definitions, tokens, (n - 1) as nat);
    }
}

/// A listed argument is as wide as its uncolored text.
pub proof fn law_argument_width_is_that_of_its_text(argument: ArgumentView)
    ensures
        argument.summary_width() == byte_len(argument.summary_text(false)),
{
    lemma_ascii_width(type_sigil(argument.arg_type));
    lemma_width_adds(type_sigil(argument.arg_type), argument.name);
}

/// The first `n` names are as wide as each name with one byte more.
proof fn lemma_names_width(recipe: RecipeView, n: nat)
    requires
        n <= recipe.names.len(),
    ensures
        recipe.names_width(n) == parts_width(recipe.names, n) + n,
    decreases n,
{
    if n > 0 {
        lemma_names_width(recipe, (n - 1) as nat);
    }
}

/// The first `n` arguments are as wide as each listed argument with one byte
/// more.
proof fn lemma_arguments_width(recipe: RecipeView, n: nat)
    requires
        n <= recipe.arguments.len(),
    ensures
        recipe.arguments_width(n) == parts_width(recipe.argument_summaries(false), n) + n,
    decreases n,
{
    if n > 0 {
        lemma_arguments_width(recipe, (n - 1) as nat);
        law_argument_width_is_that_of_its_text(recipe.arguments[n - 1]);
    }
}

/// The width of a recipe that has a name is one less than the number of
/// bytes of its uncolored definition.
pub proof fn law_definition_width_is_that_of_its_text(recipe: RecipeView)
    requires
        recipe.names.len() > 0,
    ensures
        recipe.definition_width() + 1 == byte_len(recipe.definition_text(false)),
{
    let names = joined(recipe.names, name_separator(false));
    lemma_ascii_width(seq!['/']);
    lemma_ascii_width(seq![' ']);
    lemma_names_width(recipe, recipe.names.len());
    lemma_joined_width(recipe.names, seq!['/'], recipe.names.len());
    if recipe.arguments.len() == 0 {
        lemma_width_adds(names, Seq::empty());
    } else {
        let arguments = joined(recipe.argument_summaries(false), seq![' ']);
        lemma_arguments_width(recipe, recipe.arguments.len());
        lemma_joined_width(recipe.argument_summaries(false), seq![' '], recipe.arguments.len());
        lemma_width_adds(seq![' '], arguments);
        lemma_width_adds(names, seq![' '] + arguments);
    }
}

/// In the uncolored listing of a configuration, what follows the padding
/// begins at the same byte in every line: three bytes behind the greatest
/// width.
pub proof fn law_listing_aligns_descriptions(config: ConfigView, i: int)
    requires
        config.fits_listing(),
        0 <= i < config.recipes.len(),
    ensures
        config.line(i, false) == config.padded_definition(i, false) + description_note(
            config.recipes[i].description,
            false,
        ),
        byte_len(config.padded_definition(i, false)) == config.max_width(config.recipes.len())
            + 3,
{
    let recipe = config.recipes[i];
    let padding = blanks((config.max_width(config.recipes.len()) - recipe.definition_width()) as nat);
    config.lemma_max_width_bounds(i, config.recipes.len());
    assert(recipe.fits_listing());
    assert(recipe.names.len() > 0) by {
        if recipe.names.len() == 0 {
            assert(recipe.names_width(0) == 0);
        }
    }
    law_definition_width_is_that_of_its_text(recipe);
    reveal_strlit("  ");
    lemma_ascii_width("  "@);
    lemma_ascii_width(padding);
    lemma_width_adds("  "@, recipe.definition_text(false));
    lemma_width_adds("  "@ + recipe.definition_text(false), padding);
}

} // verus!
