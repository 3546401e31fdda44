use jiu::arguments::{ArgumentDefinition, ArgumentType};
use jiu::component::{Component, RawComponent};
use jiu::error::SpecificationError;

fn array(items: &[&str]) -> RawComponent {
    RawComponent::Array(items.iter().map(|item| item.to_string()).collect())
}

#[test]
fn bare_string_is_a_literal() {
    for text in ["echo", "", "$HOME", "?arg", "[x]"] {
        let component = Component::from_raw(RawComponent::Literal(text.to_string())).unwrap();
        assert_eq!(component, Component::Literal(text.to_string()));
    }
}

#[test]
fn single_element_list_is_an_argument_reference() {
    let cases = [
        ("arg0", "arg0", ArgumentType::Required),
        ("?arg1", "arg1", ArgumentType::Optional),
        ("*arg2", "arg2", ArgumentType::Variadic),
        ("+arg3", "arg3", ArgumentType::RequiredVariadic),
        ("a$b", "a$b", ArgumentType::Required),
        ("?$x", "$x", ArgumentType::Optional),
    ];
    for (inner, name, arg_type) in cases.iter() {
        let component = Component::from_raw(array(&[inner])).unwrap();
        assert_eq!(
            component,
            Component::Argument(ArgumentDefinition {
                name: name.to_string(),
                arg_type: *arg_type
            })
        );
    }
}

#[test]
fn dollar_marks_an_environment_reference() {
    assert_eq!(
        Component::from_raw(array(&["$HOME"])).unwrap(),
        Component::EnvVar("HOME".to_string())
    );
    assert_eq!(
        Component::from_raw(array(&["$"])).unwrap(),
        Component::EnvVar(String::new())
    );
    assert_eq!(
        Component::from_raw(array(&["$$x"])).unwrap(),
        Component::EnvVar("$x".to_string())
    );
    assert_eq!(
        Component::from_raw(array(&["$?x"])).unwrap(),
        Component::EnvVar("?x".to_string())
    );
}

#[test]
fn list_of_another_length_is_malformed() {
    let none = Component::from_raw(array(&[])).unwrap_err();
    assert_eq!(none, SpecificationError::MalformedReference(0));
    assert_eq!(none.to_string(), "Expected a single argument, but got none");

    let two = Component::from_raw(array(&["a", "b"])).unwrap_err();
    assert_eq!(two, SpecificationError::MalformedReference(2));
    assert_eq!(
        two.to_string(),
        "Expected a single argument, but got multiple"
    );

    let three = Component::from_raw(array(&["$A", "", "c"])).unwrap_err();
    assert_eq!(three, SpecificationError::MalformedReference(3));
}

#[test]
fn empty_reference_is_an_empty_specifier() {
    let error = Component::from_raw(array(&[""])).unwrap_err();
    assert_eq!(error, SpecificationError::EmptySpecifier);
}

#[test]
fn classification_is_repeatable() {
    let entries = [
        RawComponent::Literal("echo".to_string()),
        array(&["?arg1"]),
        array(&["$HOME"]),
        array(&[]),
        array(&["a", "b"]),
        array(&[""]),
    ];
    for entry in entries.iter() {
        let first = Component::from_raw(entry.clone());
        let second = Component::from_raw(entry.clone());
        assert_eq!(first, second);
    }
}
