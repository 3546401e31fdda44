use jiu::cli::ActionError;
use jiu::Action;
use std::collections::VecDeque;

fn words(items: &[&str]) -> VecDeque<String> {
    items.iter().map(|item| item.to_string()).collect()
}

#[test]
fn no_argument_is_the_default_recipe() {
    let mut args = words(&[]);
    assert_eq!(Action::parse(&mut args), Ok(Action::Default));
    assert!(args.is_empty());
}

#[test]
fn options_are_recognized_in_both_forms() {
    let cases = [
        ("--help", Action::Help),
        ("-h", Action::Help),
        ("--version", Action::Version),
        ("-v", Action::Version),
        ("--list", Action::List),
        ("-l", Action::List),
    ];
    for (option, action) in cases.iter() {
        let mut args = words(&[option, "rest", "-h"]);
        assert_eq!(Action::parse(&mut args), Ok(action.clone()));
        assert_eq!(args, words(&["rest", "-h"]));
    }
}

#[test]
fn another_word_is_a_recipe() {
    for name in ["build", "", "help", "h", "a-b", "\u{e9}"] {
        let mut args = words(&[name, "--list", "x"]);
        assert_eq!(Action::parse(&mut args), Ok(Action::Recipe(name.to_string())));
        assert_eq!(args, words(&["--list", "x"]));
    }
}

#[test]
fn unknown_option_is_rejected() {
    for option in ["-x", "--helpful", "-", "--", "-H", "--Help"] {
        let mut args = words(&[option, "rest"]);
        let error = Action::parse(&mut args).unwrap_err();
        assert_eq!(error, ActionError::UnknownOption(option.to_string()));
        assert_eq!(error.to_string(), format!("Unknown option \"{option}\""));
        assert_eq!(args, words(&["rest"]));
    }
}
