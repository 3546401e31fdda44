//! Recipes, the configuration that holds them, and how both are listed.

use crate::arguments::{ArgumentDefinition, ArgumentView};
use crate::component::{Component, ComponentView};
use crate::error::outcome;
use crate::expander::{
    expand_command, expansion, Environment, ExpansionError, ExpansionErrorView,
};
use crate::resolver::{resolution, resolve_arguments, ArityError, ArityErrorView};
use crate::style::{dimmed, dimmed_text};
use crate::text::{
    blanks, byte_len, debug_list_text, join, joined, same_text, spaces, width,
};
use std::collections::VecDeque;
use vstd::prelude::*;

verus! {

/// Why a recipe could not be turned into an argument vector.
#[derive(Debug, Clone, PartialEq, Eq)]
pub enum ResolveError {
    /// The tokens do not fit the recipe's arguments.
    Arity(ArityError),
    /// The command template cannot be expanded.
    Expansion(ExpansionError),
}

/// The mathematical content of a [`ResolveError`].
pub enum ResolveErrorView {
    Arity(ArityErrorView),
    Expansion(ExpansionErrorView),
}

impl View for ResolveError {
    type V = ResolveErrorView;

    open spec fn view(&self) -> ResolveErrorView {
        match self {
            ResolveError::Arity(error) => ResolveErrorView::Arity(error@),
            ResolveError::Expansion(error) => ResolveErrorView::Expansion(error@),
        }
    }
}

impl DeepView for ResolveError {
    type V = ResolveErrorView;

    open spec fn deep_view(&self) -> ResolveErrorView {
        self@
    }
}

impl ResolveErrorView {
    /// The text of the message, given how tokens left over are listed.
    pub open spec fn message(self, listed: Seq<char>) -> Seq<char> {
        match self {
            ResolveErrorView::Arity(error) => error.message(listed),
            ResolveErrorView::Expansion(error) => error.message(),
        }
    }

    /// The tokens that the error lists: those left over, if that is the error.
    pub open spec fn leftover(self) -> Seq<Seq<char>> {
        match self {
            ResolveErrorView::Arity(error) => error.leftover(),
            ResolveErrorView::Expansion(_) => Seq::empty(),
        }
    }
}

impl ResolveError {
    /// Renders the error for the user. Tokens that were left over are listed
    /// as `Debug` formats a list of strings.
    pub fn to_string(&self) -> (text: String)
        ensures
            text@ == self@.message(debug_list_text(self@.leftover())),
    {
        match self {
            ResolveError::Arity(error) => error.to_string(),
            ResolveError::Expansion(error) => error.to_string(),
        }
    }
}

/// The recipe.
#[derive(Debug, Clone, PartialEq, Eq)]
pub struct Recipe {
    /// Names of the recipe.
    ///
    /// Must contain at least one name and each name should be unique across all recipes.
    pub names: Vec<String>,
    /// Description of the recipe.
    pub description: String,
    /// Arguments to the recipe, in the order in which they take their tokens.
    pub arguments: Vec<ArgumentDefinition>,
    /// Command to run.
    pub command: Vec<Component>,
}

/// The mathematical content of a [`Recipe`].
pub struct RecipeView {
    pub names: Seq<Seq<char>>,
    pub description: Seq<char>,
    pub arguments: Seq<ArgumentView>,
    pub command: Seq<ComponentView>,
}

impl View for Recipe {
    type V = RecipeView;

    open spec fn view(&self) -> RecipeView {
        RecipeView {
            names: self.names.deep_view(),
            description: self.description@,
            arguments: self.arguments.deep_view(),
            command: self.command.deep_view(),
        }
    }
}

impl DeepView for Recipe {
    type V = RecipeView;

    open spec fn deep_view(&self) -> RecipeView {
        self@
    }
}

/// What separates a recipe's names in a listing.
pub open spec fn name_separator(color: bool) -> Seq<char> {
    if color {
        dimmed_text(seq!['/'])
    } else {
        seq!['/']
    }
}

impl RecipeView {
    /// The argument vector that the recipe yields for `tokens`: the tokens are
    /// bound to the arguments first, and the template is expanded with what
    /// was bound.
    pub open spec fn resolve(self, tokens: Seq<Seq<char>>, env: Map<Seq<char>, Seq<char>>)
        -> Result<Seq<Seq<char>>, ResolveErrorView> {
        match resolution(self.arguments, tokens) {
            Err(error) => Err(ResolveErrorView::Arity(error)),
            Ok(bound) => match expansion(self.command, bound, env) {
                Err(error) => Err(ResolveErrorView::Expansion(error)),
                Ok(argv) => Ok(argv),
            },
        }
    }

    /// Whether `name` is one of the recipe's names.
    pub open spec fn has_name(self, name: Seq<char>) -> bool {
        self.names.contains(name)
    }

    /// The bytes that the first `n` names take, each counted with one byte more.
    pub open spec fn names_width(self, n: nat) -> nat
        decreases n,
    {
        if n == 0 {
            0
        } else {
            self.names_width((n - 1) as nat) + byte_len(self.names[n - 1]) + 1
        }
    }

    /// The bytes that the first `n` arguments take, each counted with one byte more.
    pub open spec fn arguments_width(self, n: nat) -> nat
        decreases n,
    {
        if n == 0 {
            0
        } else {
            self.arguments_width((n - 1) as nat) + self.arguments[n - 1].summary_width() + 1
        }
    }

    /// The width by which listings are aligned: that of the names and the
    /// arguments, less two.
    pub open spec fn definition_width(self) -> int {
        self.names_width(self.names.len()) - 2 + self.arguments_width(self.arguments.len())
    }

    /// Whether the width can be computed: the names take two bytes at least,
    /// and no sum on the way leaves the range of `usize`.
    pub open spec fn fits_listing(self) -> bool {
        &&& 2 <= self.names_width(self.names.len()) <= usize::MAX
        &&& self.definition_width() <= usize::MAX
    }

    /// The listed arguments, in order.
    pub open spec fn argument_summaries(self, color: bool) -> Seq<Seq<char>> {
        Seq::new(self.arguments.len(), |i: int| self.arguments[i].summary_text(color))
    }

    /// The recipe's names, then its arguments.
    pub open spec fn definition_text(self, color: bool) -> Seq<char> {
        joined(self.names, name_separator(color)) + if self.arguments.len() == 0 {
            Seq::empty()
        } else {
            seq![' '] + joined(self.argument_summaries(color), seq![' '])
        }
    }

    /// Widths grow with the number of names counted.
    pub proof fn lemma_names_width_grows(self, i: nat, n: nat)
        requires
            i <= n,
        ensures
            self.names_width(i) <= self.names_width(n),
        decreases n,
    {
        if i < n {
            self.lemma_names_width_grows(i, (n - 1) as nat);
        }
    }

    /// Widths grow with the number of arguments counted.
    pub proof fn lemma_arguments_width_grows(self, i: nat, n: nat)
        requires
            i <= n,
        ensures
            self.arguments_width(i) <= self.arguments_width(n),
        decreases n,
    {
        if i < n {
            self.lemma_arguments_width_grows(i, (n - 1) as nat);
        }
    }
}

impl Recipe {
    /// Resolves to a command with the given arguments.
    ///
    /// ## Errors
    ///
    /// - If an argument could not be resolved.
    /// - If unexpected arguments are left after resolving.
    /// - If a referenced argument is not defined.
    /// - If a referenced argument does not match the defined type.
    /// - If a referenced environment variable is not set in `env`.
    /// - If the command comes out empty.
    pub fn resolve(self, args: VecDeque<String>, env: &Environment) -> (argv: Result<
        Vec<String>,
        ResolveError,
    >)
        ensures
            outcome(argv) == self@.resolve(args.deep_view(), env@),
            argv matches Ok(elements) ==> elements.len() > 0,
    {
        let resolved = match resolve_arguments(&self.arguments, args) {
            Ok(resolved) => resolved,
            Err(error) => {
                return Err(ResolveError::Arity(error));
            },
        };
        match expand_command(&self.command, &resolved, env) {
            Ok(argv) => Ok(argv),
            Err(error) => Err(ResolveError::Expansion(error)),
        }
    }

    /// Whether `name` is one of the recipe's names, letter for letter.
    pub fn has_name(&self, name: &str) -> (found: bool)
        ensures
            found == self@.has_name(name@),
    {
        let mut i: usize = 0;
        while i < self.names.len()
            invariant
                i <= self.names.len(),
                forall|j: int| 0 <= j < i ==> self@.names[j] != name@,
            decreases self.names.len() - i,
        {
            if same_text(self.names[i].as_str(), name) {
                assert(self@.names[i as int] == name@);
                return true;
            }
            i += 1;
        }
        false
    }

    /// Whether the recipe can be listed: see [`RecipeView::fits_listing`].
    pub fn fits_listing(&self) -> (fits: bool)
        ensures
            fits == self@.fits_listing(),
    {
        let mut total: usize = 0;
        let mut i: usize = 0;
        while i < self.names.len()
            invariant
                i <= self.names.len(),
                total == self@.names_width(i as nat),
            decreases self.names.len() - i,
        {
            proof {
                self@.lemma_names_width_grows((i + 1) as nat, self.names.len() as nat);
            }
            let name: usize = width(self.names[i].as_str());
            if name >= usize::MAX - total {
                return false;
            }
            total += name + 1;
            i += 1;
        }
        if total < 2 {
            return false;
        }
        total -= 2;
        let mut j: usize = 0;
        while j < self.arguments.len()
            invariant
                j <= self.arguments.len(),
                2 <= self@.names_width(self.names.len() as nat) <= usize::MAX,
                total == self@.names_width(self.names.len() as nat) - 2 + self@.arguments_width(
                    j as nat,
                ),
            decreases self.arguments.len() - j,
        {
            proof {
                self@.lemma_arguments_width_grows((j + 1) as nat, self.arguments.len() as nat);
            }
            let argument: usize = match self.arguments[j].checked_width() {
                Some(argument) => argument,
                None => {
                    return false;
                },
            };
            if argument >= usize::MAX - total {
                return false;
            }
            total += argument + 1;
            j += 1;
        }
        true
    }

    /// Summarizes the recipe definition, returning a string representation and the length.
    pub fn summarize_definition(&self, color: bool) -> (summary: (String, usize))
        requires
            self@.fits_listing(),
        ensures
            summary.0@ == self@.definition_text(color),
            summary.1 == self@.definition_width(),
    {
        let sep = if color {
            dimmed("/")
        } else {
            String::from_str("/")
        };
        proof {
            reveal_strlit("/");
            assert("/"@ =~= seq!['/']);
        }
        let names = join(&self.names, sep.as_str());

        let mut def_len: usize = 0;
        let mut i: usize = 0;
        while i < self.names.len()
            invariant
                i <= self.names.len(),
                def_len == self@.names_width(i as nat),
                self@.names_width(self.names.len() as nat) <= usize::MAX,
            decreases self.names.len() - i,
        {
            proof {
                self@.lemma_names_width_grows((i + 1) as nat, self.names.len() as nat);
            }
            def_len += width(self.names[i].as_str()) + 1;
            i += 1;
        }
        def_len -= 2;  // One for the extra separator and one for the extra space

        let mut summaries: Vec<String> = Vec::new();
        let mut j: usize = 0;
        while j < self.arguments.len()
            invariant
                j <= self.arguments.len(),
                self@.fits_listing(),
                def_len == self@.names_width(self.names.len() as nat) - 2 + self@.arguments_width(
                    j as nat,
                ),
                summaries.deep_view() == self@.argument_summaries(color).take(j as int),
            decreases self.arguments.len() - j,
        {
            proof {
                self@.lemma_arguments_width_grows((j + 1) as nat, self.arguments.len() as nat);
            }
            let (arg_name, arg_len) = self.arguments[j].summarize(color);
            def_len += arg_len + 1;  // +1 for the space
            let ghost text = arg_name@;
            summaries.push(arg_name);
            assert(self@.argument_summaries(color).take(j + 1) =~= self@.argument_summaries(
                color,
            ).take(j as int).push(text));
            j += 1;
        }
        assert(self@.argument_summaries(color).take(self.arguments.len() as int)
            =~= self@.argument_summaries(color));
        let mut text = names;
        if summaries.len() != 0 {
            proof {
                reveal_strlit(" ");
                assert(" "@ =~= seq![' ']);
            }
            text.append(" ");
            text.append(join(&summaries, " ").as_str());
        }
        (text, def_len)
    }
}

/// The configuration.
#[derive(Debug, Clone, PartialEq, Eq)]
pub struct Config {
    /// Description of the configuration.
    pub description: String,
    /// Default recipe to run when invoked without any arguments.
    ///
    /// - List all recipes if empty.
    /// - Default recipe must be able to accept no arguments.
    pub default: String,
    /// Recipes.
    pub recipes: Vec<Recipe>,
}

/// The mathematical content of a [`Config`].
pub struct ConfigView {
    pub description: Seq<char>,
    pub default: Seq<char>,
    pub recipes: Seq<RecipeView>,
}

impl View for Config {
    type V = ConfigView;

    open spec fn view(&self) -> ConfigView {
        ConfigView {
            description: self.description@,
            default: self.default@,
            recipes: self.recipes.deep_view(),
        }
    }
}

/// What follows a listed recipe that has a description.
pub open spec fn description_note(description: Seq<char>, color: bool) -> Seq<char> {
    if description.len() == 0 {
        Seq::empty()
    } else if color {
        dimmed_text(" # "@ + description)
    } else {
        " # "@ + description
    }
}

impl ConfigView {
    /// Whether every recipe's width can be computed.
    pub open spec fn fits_listing(self) -> bool {
        forall|i: int| 0 <= i < self.recipes.len() ==> (#[trigger] self.recipes[i]).fits_listing()
    }

    /// The greatest width among the first `n` recipes; zero if there is none.
    pub open spec fn max_width(self, n: nat) -> int
        decreases n,
    {
        if n == 0 {
            0
        } else {
            let before = self.max_width((n - 1) as nat);
            let width = self.recipes[n - 1].definition_width();
            if width > before {
                width
            } else {
                before
            }
        }
    }

    /// The definition of recipe `i`, indented by two spaces and padded to the
    /// greatest width.
    pub open spec fn padded_definition(self, i: int, color: bool) -> Seq<char> {
        let recipe = self.recipes[i];
        "  "@ + recipe.definition_text(color) + blanks(
            (self.max_width(self.recipes.len()) - recipe.definition_width()) as nat,
        )
    }

    /// The line that lists recipe `i`: its padded definition, then its
    /// description.
    pub open spec fn line(self, i: int, color: bool) -> Seq<char> {
        self.padded_definition(i, color) + description_note(self.recipes[i].description, color)
    }

    /// The lines that list the recipes, in order.
    pub open spec fn lines(self, color: bool) -> Seq<Seq<char>> {
        Seq::new(self.recipes.len(), |i: int| self.line(i, color))
    }

    /// The listing of the recipes.
    pub open spec fn listing(self, color: bool) -> Seq<char> {
        if self.recipes.len() == 0 {
            "No recipes found"@
        } else {
            "Available recipes:\n"@ + joined(self.lines(color), "\n"@)
        }
    }

    /// The description, if there is one, an empty line, and the listing.
    pub open spec fn summary(self, color: bool) -> Seq<char> {
        (if self.description.len() == 0 {
            Seq::empty()
        } else {
            self.description + "\n"@
        }) + "\n"@ + self.listing(color)
    }

    /// The place of the first recipe that has the name, if any has it.
    pub open spec fn position_of(self, name: Seq<char>, i: int) -> bool {
        &&& 0 <= i < self.recipes.len()
        &&& self.recipes[i].has_name(name)
        &&& forall|j: int| 0 <= j < i ==> !(#[trigger] self.recipes[j]).has_name(name)
    }

    /// No recipe among the first `n` is wider than the greatest width of the
    /// first `n`.
    pub proof fn lemma_max_width_bounds(self, i: int, n: nat)
        requires
            0 <= i < n,
        ensures
            self.recipes[i].definition_width() <= self.max_width(n),
            0 <= self.max_width(n),
        decreases n,
    {
        if i < n - 1 {
            self.lemma_max_width_bounds(i, (n - 1) as nat);
        } else if n > 1 {
            self.lemma_max_width_bounds(0, (n - 1) as nat);
        }
    }
}

impl Config {
    /// Whether the configuration can be listed: see [`ConfigView::fits_listing`].
    pub fn fits_listing(&self) -> (fits: bool)
        ensures
            fits == self@.fits_listing(),
    {
        let mut i: usize = 0;
        while i < self.recipes.len()
            invariant
                i <= self.recipes.len(),
                forall|k: int| 0 <= k < i ==> (#[trigger] self@.recipes[k]).fits_listing(),
            decreases self.recipes.len() - i,
        {
            if !self.recipes[i].fits_listing() {
                assert(!self@.recipes[i as int].fits_listing());
                return false;
            }
            i += 1;
        }
        true
    }

    /// Summarizes the configuration.
    pub fn summarize(&self, color: bool) -> (summary: String)
        requires
            self@.fits_listing(),
        ensures
            summary@ == self@.summary(color),
    {
        let mut summary = String::new();
        if !self.description.as_str().is_empty() {
            // Add an extra new line
            summary.append(self.description.as_str());
            summary.append("\n");
        }
        summary.append("\n");
        summary.append(self.summarize_recipes(color).as_str());
        summary
    }

    /// Summarizes the recipes.
    pub fn summarize_recipes(&self, color: bool) -> (listing: String)
        requires
            self@.fits_listing(),
        ensures
            listing@ == self@.listing(color),
    {
        if self.recipes.len() == 0 {
            return String::from_str("No recipes found");
        }
        // The definitions, their widths, and the greatest width
        let mut definitions: Vec<String> = Vec::new();
        let mut widths: Vec<usize> = Vec::new();
        let mut max_def_len: usize = 0;
        let mut i: usize = 0;
        while i < self.recipes.len()
            invariant
                i <= self.recipes.len(),
                self@.fits_listing(),
                definitions.len() == i,
                widths.len() == i,
                max_def_len == self@.max_width(i as nat),
                forall|k: int|
                    0 <= k < i ==> (#[trigger] definitions[k])@ == self@.recipes[k].definition_text(
                        color,
                    ),
                forall|k: int|
                    0 <= k < i ==> (#[trigger] widths[k]) == self@.recipes[k].definition_width(),
            decreases self.recipes.len() - i,
        {
            assert(self@.recipes[i as int].fits_listing());
            let (def, def_len) = self.recipes[i].summarize_definition(color);
            if def_len > max_def_len {
                max_def_len = def_len;
            }
            definitions.push(def);
            widths.push(def_len);
            i += 1;
        }

        let mut lines: Vec<String> = Vec::new();
        let mut i: usize = 0;
        while i < self.recipes.len()
            invariant
                i <= self.recipes.len(),
                definitions.len() == self.recipes.len(),
                widths.len() == self.recipes.len(),
                max_def_len == self@.max_width(self.recipes.len() as nat),
                forall|k: int|
                    0 <= k < self.recipes.len() ==> (#[trigger] definitions[k])@
                        == self@.recipes[k].definition_text(color),
                forall|k: int|
                    0 <= k < self.recipes.len() ==> (#[trigger] widths[k])
                        == self@.recipes[k].definition_width(),
                lines.deep_view() == self@.lines(color).take(i as int),
            decreases self.recipes.len() - i,
        {
            proof {
                self@.lemma_max_width_bounds(i as int, self.recipes.len() as nat);
                reveal_strlit("  ");
                reveal_strlit(" # ");
            }
            // Calculate required padding
            let padding = spaces(max_def_len - widths[i]);

            // Format the summary for this recipe
            let mut line = String::from_str("  ");
            line.append(definitions[i].as_str());
            line.append(padding.as_str());
            let description = &self.recipes[i].description;
            if !description.as_str().is_empty() {
                let mut note = String::from_str(" # ");
                note.append(description.as_str());
                if color {
                    line.append(dimmed(note.as_str()).as_str());
                } else {
                    line.append(note.as_str());
                }
            }
            let ghost text = line@;
            lines.push(line);
            assert(self@.lines(color).take(i + 1) =~= self@.lines(color).take(i as int).push(
                text,
            ));
            i += 1;
        }
        assert(self@.lines(color).take(self.recipes.len() as int) =~= self@.lines(color));

        let mut listing = String::from_str("Available recipes:\n");
        listing.append(join(&lines, "\n").as_str());
        listing
    }

    /// Finds the recipe to run for `name`: the first one, in the order of the
    /// configuration, that has it among its names.
    pub fn find_recipe(&self, name: &str) -> (place: Option<usize>)
        ensures
            match place {
                Some(i) => self@.position_of(name@, i as int),
                None => forall|j: int|
                    0 <= j < self@.recipes.len() ==> !(#[trigger] self@.recipes[j]).has_name(name@),
            },
    {
        let mut i: usize = 0;
        while i < self.recipes.len()
            invariant
                i <= self.recipes.len(),
                forall|j: int| 0 <= j < i ==> !(#[trigger] self@.recipes[j]).has_name(name@),
            decreases self.recipes.len() - i,
        {
            if self.recipes[i].has_name(name) {
                return Some(i);
            }
            i += 1;
        }
        None
    }
}

} // verus!
