use jiu::arguments::{ArgumentDefinition, ArgumentType};
use jiu::component::{Component, RawComponent};
use jiu::expander::Environment;
use jiu::{Config, Recipe};
use std::collections::VecDeque;

fn text_of(table: &toml::Table, key: &str) -> String {
    match table.get(key) {
        None => String::new(),
        Some(value) => value.as_str().expect("not a string").to_string(),
    }
}

fn list_of(value: &toml::Value) -> Vec<String> {
    value
        .as_array()
        .expect("not an array")
        .iter()
        .map(|item| item.as_str().expect("not a string").to_string())
        .collect()
}

fn recipe_of(table: &toml::Table) -> Recipe {
    let arguments = match table.get("arguments") {
        None => Vec::new(),
        Some(value) => list_of(value)
            .into_iter()
            .map(|specifier| ArgumentDefinition::from_string(specifier).expect("bad specifier"))
            .collect(),
    };
    let command = table
        .get("command")
        .expect("no command")
        .as_array()
        .expect("not an array")
        .iter()
        .map(|entry| {
            let raw = match entry {
                toml::Value::String(literal) => RawComponent::Literal(literal.clone()),
                other => RawComponent::Array(list_of(other)),
            };
            Component::from_raw(raw).expect("bad component")
        })
        .collect();
    Recipe {
        names: list_of(table.get("names").expect("no names")),
        description: text_of(table, "description"),
        arguments,
        command,
    }
}

fn config_of(text: &str) -> Config {
    let table: toml::Table = toml::from_str(text).expect("Failed to parse config file");
    let recipes = match table.get("recipes") {
        None => Vec::new(),
        Some(value) => value
            .as_array()
            .expect("not an array")
            .iter()
            .map(|recipe| recipe_of(recipe.as_table().expect("not a table")))
            .collect(),
    };
    Config {
        description: text_of(&table, "description"),
        default: text_of(&table, "default"),
        recipes,
    }
}

fn strings(items: &[&str]) -> Vec<String> {
    items.iter().map(|item| item.to_string()).collect()
}

#[test]
fn test_config() {
    let config: Config = config_of(
        r#"
            default = "test"
            [[recipes]]
            names = ["test"]
            description = "Test recipe"
            arguments = ["arg0", "?arg1", "*arg2", "+arg3"]
            command = ["echo", "Hello", ["arg0"], ["?arg1"], ["*arg2"], ["+arg3"]]
        "#,
    );

    assert_eq!(config.description, "");
    assert_eq!(config.default, "test");
    assert_eq!(config.recipes.len(), 1);

    let recipe = &config.recipes[0];
    assert_eq!(recipe.names, vec!["test"]);
    assert_eq!(recipe.description, "Test recipe");
    assert_eq!(recipe.arguments.len(), 4);

    assert_eq!(recipe.arguments[0].name, "arg0");
    assert_eq!(recipe.arguments[0].arg_type, ArgumentType::Required);
    assert_eq!(recipe.arguments[1].name, "arg1");
    assert_eq!(recipe.arguments[1].arg_type, ArgumentType::Optional);
    assert_eq!(recipe.arguments[2].name, "arg2");
    assert_eq!(recipe.arguments[2].arg_type, ArgumentType::Variadic);
    assert_eq!(recipe.arguments[3].name, "arg3");
    assert_eq!(recipe.arguments[3].arg_type, ArgumentType::RequiredVariadic);

    assert_eq!(recipe.command.len(), 6);
    assert_eq!(recipe.command[0], Component::Literal("echo".to_string()));
    assert_eq!(recipe.command[1], Component::Literal("Hello".to_string()));
    assert_eq!(
        recipe.command[2],
        Component::Argument(recipe.arguments[0].clone())
    );
    assert_eq!(
        recipe.command[3],
        Component::Argument(recipe.arguments[1].clone())
    );
    assert_eq!(
        recipe.command[4],
        Component::Argument(recipe.arguments[2].clone())
    );
    assert_eq!(
        recipe.command[5],
        Component::Argument(recipe.arguments[3].clone())
    );
}

#[test]
fn test_resolve_1() {
    let config_str = r#"
        default = "test"
        [[recipes]]
        names = ["test", "t"]
        description = "Test recipe"
        arguments = ["arg0", "?arg1", "*arg2"]
        command = ["echo", "Hello", ["?arg1"], ["arg0"], ["*arg2"]]
    "#;
    let mut config: Config = config_of(config_str);
    let recipe = config.recipes.pop().expect("Failed to get recipe");

    let args = VecDeque::from(strings(&["val0", "val1", "val2"]));
    let resolved = recipe
        .resolve(args, &Environment::new())
        .expect("Failed to resolve recipe");

    assert_eq!(resolved, strings(&["echo", "Hello", "val1", "val0", "val2"]));
}

#[test]
fn recipe_is_found_by_any_of_its_names() {
    let config = config_of(
        r#"
            [[recipes]]
            names = ["build", "b"]
            command = ["make"]
            [[recipes]]
            names = ["test", "t", "b"]
            command = ["make", "test"]
        "#,
    );
    assert_eq!(config.find_recipe("build"), Some(0));
    assert_eq!(config.find_recipe("b"), Some(0));
    assert_eq!(config.find_recipe("t"), Some(1));
    assert_eq!(config.find_recipe("test"), Some(1));
    assert_eq!(config.find_recipe("Test"), None);
    assert_eq!(config.find_recipe(""), None);
    assert!(config.recipes[1].has_name("b"));
    assert!(!config.recipes[0].has_name("t"));
}

#[test]
fn definition_summary_without_color() {
    let config = config_of(
        r#"
            [[recipes]]
            names = ["test", "t"]
            arguments = ["arg0", "?arg1", "*arg2"]
            command = ["echo"]
            [[recipes]]
            names = ["b"]
            command = ["make"]
        "#,
    );
    assert!(config.recipes[0].fits_listing());
    assert_eq!(
        config.recipes[0].summarize_definition(false),
        ("test/t arg0 ?arg1 *arg2".to_string(), 22)
    );
    assert!(config.recipes[1].fits_listing());
    assert_eq!(
        config.recipes[1].summarize_definition(false),
        ("b".to_string(), 0)
    );
}

#[test]
fn definition_summary_with_color() {
    let config = config_of(
        r#"
            [[recipes]]
            names = ["test", "t"]
            arguments = ["arg0", "?arg1"]
            command = ["echo"]
        "#,
    );
    assert_eq!(
        config.recipes[0].summarize_definition(true),
        (
            "test\x1b[2m/\x1b[0mt \x1b[35m\x1b[39m\x1b[36marg0\x1b[39m \x1b[35m?\x1b[39m\x1b[36marg1\x1b[39m"
                .to_string(),
            16
        )
    );
}

#[test]
fn recipe_without_a_name_cannot_be_listed() {
    let unnamed = Recipe {
        names: vec![],
        description: String::new(),
        arguments: vec![],
        command: vec![],
    };
    assert!(!unnamed.fits_listing());
    let nameless = Recipe {
        names: vec![String::new()],
        description: String::new(),
        arguments: vec![],
        command: vec![],
    };
    assert!(!nameless.fits_listing());
    let two_empty_names = Recipe {
        names: vec![String::new(), String::new()],
        description: String::new(),
        arguments: vec![],
        command: vec![],
    };
    assert!(two_empty_names.fits_listing());
    assert_eq!(
        two_empty_names.summarize_definition(false),
        ("/".to_string(), 0)
    );
    let config = Config {
        description: String::new(),
        default: String::new(),
        recipes: vec![two_empty_names, unnamed],
    };
    assert!(!config.fits_listing());
}

#[test]
fn listing_without_color() {
    let config = config_of(
        r#"
            description = "Demo"
            [[recipes]]
            names = ["build", "b"]
            description = "Build it"
            command = ["make"]
            [[recipes]]
            names = ["test"]
            arguments = ["?filter"]
            command = ["make", "test", ["?filter"]]
            [[recipes]]
            names = ["déploy"]
            description = "Ship"
            command = ["ship"]
        "#,
    );
    assert!(config.fits_listing());
    assert_eq!(
        config.summarize_recipes(false),
        "Available recipes:\n  build/b      # Build it\n  test ?filter\n  d\u{e9}ploy      # Ship"
    );
    assert_eq!(
        config.summarize(false),
        "Demo\n\nAvailable recipes:\n  build/b      # Build it\n  test ?filter\n  d\u{e9}ploy      # Ship"
    );
}

#[test]
fn listing_with_color() {
    let config = config_of(
        r#"
            [[recipes]]
            names = ["build", "b"]
            description = "Build it"
            command = ["make"]
            [[recipes]]
            names = ["test"]
            arguments = ["?filter"]
            command = ["make", "test", ["?filter"]]
        "#,
    );
    assert_eq!(
        config.summarize(true),
        "\nAvailable recipes:\n  build\x1b[2m/\x1b[0mb     \x1b[2m # Build it\x1b[0m\n  test \x1b[35m?\x1b[39m\x1b[36mfilter\x1b[39m"
    );
}

#[test]
fn listing_of_no_recipes() {
    let config = config_of("description = \"Nothing here\"");
    assert!(config.fits_listing());
    assert_eq!(config.summarize_recipes(true), "No recipes found");
    assert_eq!(config.summarize(false), "Nothing here\n\nNo recipes found");
    let config = config_of("");
    assert_eq!(config.summarize(false), "\nNo recipes found");
}

#[test]
fn definition_width_is_one_less_than_its_bytes() {
    let config = config_of(
        r#"
            [[recipes]]
            names = ["test", "t"]
            arguments = ["arg0", "?arg1", "*arg2"]
            command = ["echo"]
            [[recipes]]
            names = ["déploy"]
            arguments = ["+cible"]
            command = ["ship"]
            [[recipes]]
            names = ["b"]
            command = ["make"]
        "#,
    );
    for recipe in config.recipes.iter() {
        let (text, width) = recipe.summarize_definition(false);
        assert_eq!(text.len(), width + 1);
    }
}

#[test]
fn descriptions_start_at_the_same_byte() {
    let config = config_of(
        r#"
            [[recipes]]
            names = ["build", "b"]
            description = "Build it"
            command = ["make"]
            [[recipes]]
            names = ["test"]
            arguments = ["?filter", "*rest"]
            description = "Test it"
            command = ["make", "test"]
            [[recipes]]
            names = ["déploy"]
            description = "Ship it"
            command = ["ship"]
        "#,
    );
    let listing = config.summarize_recipes(false);
    let columns: Vec<usize> = listing
        .lines()
        .skip(1)
        .map(|line| line.find(" # ").expect("no description"))
        .collect();
    // The widest definition is `test ?filter *rest`, of width 17.
    assert_eq!(columns, vec![20, 20, 20]);
}
