use jiu::arguments::{ArgumentDefinition, ArgumentType, ResolvedArgument};
use jiu::error::{BindingError, SpecificationError};
use std::collections::VecDeque;

#[test]
fn test_argument_resolving_1() {
    // Test the resolving of required and optional arguments
    let mut args = VecDeque::from(vec![
        "arg1".to_string(),
        "arg2".to_string(),
        "arg3".to_string(),
    ]);

    let arg = ArgumentType::Optional.resolve(&mut args).unwrap();
    assert_eq!(arg, ResolvedArgument::Optional(Some("arg1".to_string())));
    assert_eq!(
        args,
        VecDeque::from(vec!["arg2".to_string(), "arg3".to_string()])
    );

    let arg = ArgumentType::Required.resolve(&mut args).unwrap();
    assert_eq!(arg, ResolvedArgument::Required("arg2".to_string()));
    assert_eq!(args, VecDeque::from(vec!["arg3".to_string()]));

    let arg = ArgumentType::Optional.resolve(&mut args).unwrap();
    assert_eq!(arg, ResolvedArgument::Optional(Some("arg3".to_string())));
    assert_eq!(args, VecDeque::from(vec![]));

    let err = ArgumentType::Required.resolve(&mut args).unwrap_err();
    assert_eq!(err.to_string(), "Required argument not provided");
    assert_eq!(args, VecDeque::from(vec![]));

    let arg = ArgumentType::Optional.resolve(&mut args).unwrap();
    assert_eq!(arg, ResolvedArgument::Optional(None));
    assert_eq!(args, VecDeque::from(vec![]));
}

#[test]
fn test_argument_resolving_2() {
    // Test the resolving of variadic and required variadic arguments
    let mut args = VecDeque::from(vec![
        "arg1".to_string(),
        "arg2".to_string(),
        "arg3".to_string(),
    ]);

    let arg = ArgumentType::Variadic.resolve(&mut args).unwrap();
    assert_eq!(
        arg,
        ResolvedArgument::Variadic(vec![
            "arg1".to_string(),
            "arg2".to_string(),
            "arg3".to_string()
        ])
    );
    assert_eq!(args, VecDeque::from(vec![]));

    let err = ArgumentType::RequiredVariadic
        .resolve(&mut args)
        .unwrap_err();
    assert_eq!(
        err.to_string(),
        "Required variadic argument must contain at least one value"
    );
    assert_eq!(args, VecDeque::from(vec![]));
}

fn queue(tokens: &[&str]) -> VecDeque<String> {
    tokens.iter().map(|token| token.to_string()).collect()
}

#[test]
fn required_takes_the_front_token_only() {
    let mut args = queue(&["a", "b"]);
    let bound = ArgumentType::Required.resolve(&mut args).unwrap();
    assert_eq!(bound, ResolvedArgument::Required("a".to_string()));
    assert_eq!(args, queue(&["b"]));
}

#[test]
fn variadic_accepts_an_empty_queue() {
    let mut args = queue(&[]);
    let bound = ArgumentType::Variadic.resolve(&mut args).unwrap();
    assert_eq!(bound, ResolvedArgument::Variadic(vec![]));
    assert!(args.is_empty());
}

#[test]
fn required_variadic_rejects_an_empty_queue() {
    let mut args = queue(&[]);
    let error = ArgumentType::RequiredVariadic.resolve(&mut args).unwrap_err();
    assert_eq!(error, BindingError::EmptyRequiredVariadic);
    assert!(args.is_empty());
}

#[test]
fn required_rejects_an_empty_queue() {
    let mut args = queue(&[]);
    let error = ArgumentType::Required.resolve(&mut args).unwrap_err();
    assert_eq!(error, BindingError::MissingRequired);
}

#[test]
fn greedy_binding_keeps_order_and_repeats() {
    let mut args = queue(&["z", "a", "z", "", "a"]);
    let bound = ArgumentType::RequiredVariadic.resolve(&mut args).unwrap();
    assert_eq!(
        bound,
        ResolvedArgument::RequiredVariadic(vec![
            "z".to_string(),
            "a".to_string(),
            "z".to_string(),
            String::new(),
            "a".to_string(),
        ])
    );
    assert!(args.is_empty());

    let mut args = queue(&["2", "1", "2"]);
    let bound = ArgumentType::Variadic.resolve(&mut args).unwrap();
    assert_eq!(
        bound,
        ResolvedArgument::Variadic(vec!["2".to_string(), "1".to_string(), "2".to_string()])
    );
    assert!(args.is_empty());
}

#[test]
fn resolved_argument_reports_its_type() {
    let cases = [
        (ResolvedArgument::Required("v".to_string()), ArgumentType::Required),
        (ResolvedArgument::Optional(None), ArgumentType::Optional),
        (ResolvedArgument::Variadic(vec![]), ArgumentType::Variadic),
        (
            ResolvedArgument::RequiredVariadic(vec!["v".to_string()]),
            ArgumentType::RequiredVariadic,
        ),
    ];
    let all = [
        ArgumentType::Required,
        ArgumentType::Optional,
        ArgumentType::Variadic,
        ArgumentType::RequiredVariadic,
    ];
    for (value, arg_type) in cases.iter() {
        assert_eq!(value.arg_type(), *arg_type);
        for other in all.iter() {
            assert_eq!(value.matches(other), other == arg_type);
        }
    }
}

#[test]
fn argument_type_labels() {
    assert_eq!(ArgumentType::Required.to_string(), "Required");
    assert_eq!(ArgumentType::Optional.to_string(), "?Optional");
    assert_eq!(ArgumentType::Variadic.to_string(), "*Variadic");
    assert_eq!(ArgumentType::RequiredVariadic.to_string(), "+RequiredVariadic");
}

#[test]
fn specifier_sigils_give_the_type() {
    let cases = [
        ("name", "name", ArgumentType::Required),
        ("?name", "name", ArgumentType::Optional),
        ("*name", "name", ArgumentType::Variadic),
        ("+name", "name", ArgumentType::RequiredVariadic),
        ("-name", "-name", ArgumentType::Required),
        ("??", "?", ArgumentType::Optional),
        ("?", "", ArgumentType::Optional),
        ("n", "n", ArgumentType::Required),
        ("*\u{e9}t\u{e9}", "\u{e9}t\u{e9}", ArgumentType::Variadic),
        ("\u{e9}+", "\u{e9}+", ArgumentType::Required),
    ];
    for (raw, name, arg_type) in cases.iter() {
        let parsed = ArgumentDefinition::from_string(raw.to_string()).unwrap();
        assert_eq!(
            parsed,
            ArgumentDefinition {
                name: name.to_string(),
                arg_type: *arg_type
            }
        );
    }
}

#[test]
fn empty_specifier_is_rejected() {
    let error = ArgumentDefinition::from_string(String::new()).unwrap_err();
    assert_eq!(error, SpecificationError::EmptySpecifier);
    assert_eq!(error.to_string(), "Empty argument");
}

#[test]
fn argument_summary_without_color() {
    let cases = [
        ("arg0", ArgumentType::Required, "arg0", 4),
        ("arg1", ArgumentType::Optional, "?arg1", 5),
        ("arg2", ArgumentType::Variadic, "*arg2", 5),
        ("files", ArgumentType::RequiredVariadic, "+files", 6),
        ("", ArgumentType::Required, "", 0),
        ("\u{e9}", ArgumentType::Optional, "?\u{e9}", 3),
    ];
    for (name, arg_type, text, width) in cases.iter() {
        let definition = ArgumentDefinition {
            name: name.to_string(),
            arg_type: *arg_type,
        };
        assert_eq!(definition.summarize(false), (text.to_string(), *width));
    }
}

#[test]
fn argument_summary_with_color() {
    let definition = ArgumentDefinition {
        name: "arg1".to_string(),
        arg_type: ArgumentType::Optional,
    };
    assert_eq!(
        definition.summarize(true),
        ("\x1b[35m?\x1b[39m\x1b[36marg1\x1b[39m".to_string(), 5)
    );
    let definition = ArgumentDefinition {
        name: "arg0".to_string(),
        arg_type: ArgumentType::Required,
    };
    assert_eq!(
        definition.summarize(true),
        ("\x1b[35m\x1b[39m\x1b[36marg0\x1b[39m".to_string(), 4)
    );
}
