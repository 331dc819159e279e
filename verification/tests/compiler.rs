//! Behavioral tests of the configuration-to-command-specification compiler.

use ally_lib::builder::{build_arg_spec, build_group_spec, compile_document};
use ally_lib::coerce::{coerce, Coerced, PropType, PropValue};
use ally_lib::command::Command;
use ally_lib::config::ConfigValue;
use ally_lib::errors::{BuildError, NodeKind};

fn text(x: &str) -> ConfigValue {
    ConfigValue::Str(x.to_string())
}

fn mapping(entries: Vec<(&str, ConfigValue)>) -> ConfigValue {
    ConfigValue::Mapping(entries.into_iter().map(|(k, v)| (k.to_string(), v)).collect())
}

fn sequence(items: Vec<ConfigValue>) -> ConfigValue {
    ConfigValue::Sequence(items)
}

fn arg_entry(fields: Vec<(&str, ConfigValue)>) -> ConfigValue {
    mapping(vec![("arg", mapping(fields))])
}

fn group_entry(fields: Vec<(&str, ConfigValue)>) -> ConfigValue {
    mapping(vec![("group", mapping(fields))])
}

fn command_entry(fields: Vec<(&str, ConfigValue)>) -> ConfigValue {
    mapping(vec![("command", mapping(fields))])
}

fn demo_document() -> ConfigValue {
    mapping(vec![(
        "command",
        mapping(vec![
            ("name", text("demo")),
            (
                "args",
                sequence(vec![arg_entry(vec![
                    ("id", text("path")),
                    ("short", text("p")),
                    ("required", ConfigValue::Bool(true)),
                ])]),
            ),
        ]),
    )])
}

#[test]
fn demo_document_compiles_exactly() {
    let spec = compile_document(&demo_document()).unwrap();
    assert_eq!(spec.name, "demo");
    assert!(spec.props.is_empty());
    assert!(spec.groups.is_empty());
    assert!(spec.subcommands.is_empty());
    assert_eq!(spec.args.len(), 1);
    let arg = &spec.args[0];
    assert_eq!(arg.id, "path");
    assert_eq!(arg.props.len(), 2);
    assert_eq!(
        arg.property(&"short".to_string()),
        Some(&PropValue::Char('p'))
    );
    assert_eq!(
        arg.property(&"required".to_string()),
        Some(&PropValue::Bool(true))
    );
    assert_eq!(arg.property(&"help".to_string()), None);
}

#[test]
fn root_may_be_bare_or_wrapped() {
    let bare = mapping(vec![("name", text("tool"))]);
    let wrapped = mapping(vec![("command", mapping(vec![("name", text("tool"))]))]);
    let a = compile_document(&bare).unwrap();
    let b = compile_document(&wrapped).unwrap();
    assert_eq!(a, b);
    assert_eq!(a.name, "tool");
}

#[test]
fn compiling_twice_yields_equal_trees() {
    let doc = mapping(vec![
        ("name", text("twice")),
        ("about", text("same every time")),
        (
            "subcommands",
            sequence(vec![command_entry(vec![("name", text("inner"))])]),
        ),
    ]);
    let first = compile_document(&doc);
    let second = compile_document(&doc);
    assert_eq!(first, second);
}

#[test]
fn nesting_depth_and_sibling_order_are_preserved() {
    let doc = mapping(vec![
        ("name", text("root")),
        (
            "subcommands",
            sequence(vec![
                command_entry(vec![
                    ("name", text("first")),
                    (
                        "subcommands",
                        sequence(vec![command_entry(vec![
                            ("name", text("deepest")),
                        ])]),
                    ),
                ]),
                command_entry(vec![("name", text("second"))]),
            ]),
        ),
    ]);
    let spec = compile_document(&doc).unwrap();
    assert_eq!(spec.subcommands.len(), 2);
    assert_eq!(spec.subcommands[0].name, "first");
    assert_eq!(spec.subcommands[1].name, "second");
    assert_eq!(spec.subcommands[0].subcommands.len(), 1);
    assert_eq!(spec.subcommands[0].subcommands[0].name, "deepest");
    assert!(spec.subcommands[0].subcommands[0].subcommands.is_empty());
    assert!(spec.subcommands[1].subcommands.is_empty());
}

#[test]
fn missing_command_name_fails() {
    let doc = mapping(vec![("about", text("no name here"))]);
    assert_eq!(
        compile_document(&doc),
        Err(BuildError::MissingField {
            field: "name".to_string(),
            node: NodeKind::Command,
        })
    );
}

#[test]
fn empty_command_name_fails() {
    let doc = mapping(vec![("name", text(""))]);
    assert_eq!(
        compile_document(&doc),
        Err(BuildError::MissingField {
            field: "name".to_string(),
            node: NodeKind::Command,
        })
    );
}

#[test]
fn arg_entry_without_id_fails_after_valid_siblings() {
    let doc = mapping(vec![
        ("name", text("tool")),
        (
            "args",
            sequence(vec![
                arg_entry(vec![("id", text("ok"))]),
                arg_entry(vec![("short", text("x"))]),
            ]),
        ),
    ]);
    assert_eq!(
        compile_document(&doc),
        Err(BuildError::MissingField {
            field: "id".to_string(),
            node: NodeKind::Arg,
        })
    );
}

#[test]
fn group_entry_without_id_fails_after_valid_siblings() {
    let doc = mapping(vec![
        ("name", text("tool")),
        (
            "groups",
            sequence(vec![
                group_entry(vec![("id", text("ok"))]),
                group_entry(vec![("required", ConfigValue::Bool(true))]),
            ]),
        ),
    ]);
    assert_eq!(
        compile_document(&doc),
        Err(BuildError::MissingField {
            field: "id".to_string(),
            node: NodeKind::Group,
        })
    );
}

#[test]
fn nested_command_without_name_fails() {
    let doc = mapping(vec![
        ("name", text("tool")),
        (
            "subcommands",
            sequence(vec![
                command_entry(vec![("name", text("fine"))]),
                command_entry(vec![("about", text("nameless"))]),
            ]),
        ),
    ]);
    assert_eq!(
        compile_document(&doc),
        Err(BuildError::MissingField {
            field: "name".to_string(),
            node: NodeKind::Command,
        })
    );
}

#[test]
fn subcommand_entry_without_command_fails() {
    let doc = mapping(vec![
        ("name", text("tool")),
        (
            "subcommands",
            sequence(vec![mapping(vec![("comment", text("not a command"))])]),
        ),
    ]);
    assert_eq!(
        compile_document(&doc),
        Err(BuildError::MissingField {
            field: "name".to_string(),
            node: NodeKind::Command,
        })
    );
}

#[test]
fn bool_property_given_sequence_fails_with_type_mismatch() {
    let doc = mapping(vec![
        ("name", text("tool")),
        ("arg_required_else_help", sequence(vec![text("nope")])),
    ]);
    assert_eq!(
        compile_document(&doc),
        Err(BuildError::TypeMismatch {
            property: "arg_required_else_help".to_string(),
            expected: PropType::Bool,
        })
    );
}

#[test]
fn string_property_given_int_fails_with_type_mismatch() {
    let doc = mapping(vec![("name", text("tool")), ("about", ConfigValue::Int(3))]);
    assert_eq!(
        compile_document(&doc),
        Err(BuildError::TypeMismatch {
            property: "about".to_string(),
            expected: PropType::Str,
        })
    );
}

#[test]
fn negative_int_fails_uint_property() {
    let doc = mapping(vec![
        ("name", text("tool")),
        ("term_width", ConfigValue::Int(-1)),
    ]);
    assert_eq!(
        compile_document(&doc),
        Err(BuildError::TypeMismatch {
            property: "term_width".to_string(),
            expected: PropType::Uint,
        })
    );
}

#[test]
fn uint_property_is_recorded() {
    let doc = mapping(vec![
        ("name", text("tool")),
        ("term_width", ConfigValue::Int(120)),
    ]);
    let spec = compile_document(&doc).unwrap();
    assert_eq!(
        spec.property(&"term_width".to_string()),
        Some(&PropValue::Uint(120))
    );
}

#[test]
fn empty_string_fails_char_property() {
    let arg = mapping(vec![("id", text("x")), ("short", text(""))]);
    assert_eq!(
        build_arg_spec(&arg),
        Err(BuildError::TypeMismatch {
            property: "short".to_string(),
            expected: PropType::Char,
        })
    );
}

#[test]
fn char_property_takes_first_character() {
    let arg = mapping(vec![("id", text("x")), ("short", text("pq"))]);
    let spec = build_arg_spec(&arg).unwrap();
    assert_eq!(
        spec.property(&"short".to_string()),
        Some(&PropValue::Char('p'))
    );
}

#[test]
fn null_valued_property_is_absent() {
    let doc = mapping(vec![("name", text("tool")), ("about", ConfigValue::Null)]);
    let spec = compile_document(&doc).unwrap();
    assert_eq!(spec.property(&"about".to_string()), None);
    assert!(spec.props.is_empty());
}

#[test]
fn unrecognized_keys_are_tolerated() {
    let doc = mapping(vec![
        ("name", text("tool")),
        ("totally_unknown", sequence(vec![ConfigValue::Int(1)])),
    ]);
    let spec = compile_document(&doc).unwrap();
    assert!(spec.props.is_empty());
}

#[test]
fn args_value_that_is_not_a_sequence_is_ignored() {
    let doc = mapping(vec![("name", text("tool")), ("args", text("oops"))]);
    let spec = compile_document(&doc).unwrap();
    assert!(spec.args.is_empty());
}

#[test]
fn boolean_coercer_accepts_yes_rejects_maybe() {
    assert_eq!(
        coerce(PropType::Bool, &text("Yes")),
        Coerced::Present(PropValue::Bool(true))
    );
    assert_eq!(coerce(PropType::Bool, &text("maybe")), Coerced::Mismatch);
    let arg = mapping(vec![("id", text("x")), ("required", text("maybe"))]);
    assert_eq!(
        build_arg_spec(&arg),
        Err(BuildError::TypeMismatch {
            property: "required".to_string(),
            expected: PropType::Bool,
        })
    );
}

#[test]
fn boolean_tokens_cover_both_polarities() {
    for token in ["true", "TRUE", "Yes", "y", "ON"] {
        assert_eq!(
            coerce(PropType::Bool, &text(token)),
            Coerced::Present(PropValue::Bool(true)),
            "token {token}"
        );
    }
    for token in ["false", "No", "N", "off", "OFF"] {
        assert_eq!(
            coerce(PropType::Bool, &text(token)),
            Coerced::Present(PropValue::Bool(false)),
            "token {token}"
        );
    }
    assert_eq!(coerce(PropType::Bool, &text("truthy")), Coerced::Mismatch);
}

#[test]
fn null_coerces_to_absent_everywhere() {
    for t in [PropType::Str, PropType::Char, PropType::Bool, PropType::Uint] {
        assert_eq!(coerce(t, &ConfigValue::Null), Coerced::Absent);
    }
}

#[test]
fn group_properties_are_applied() {
    let group = mapping(vec![
        ("id", text("modes")),
        ("multiple", ConfigValue::Bool(false)),
        ("arg", text("fast")),
    ]);
    let spec = build_group_spec(&group).unwrap();
    assert_eq!(spec.id, "modes");
    assert_eq!(
        spec.property(&"multiple".to_string()),
        Some(&PropValue::Bool(false))
    );
    assert_eq!(
        spec.property(&"arg".to_string()),
        Some(&PropValue::Str("fast".to_string()))
    );
}

#[test]
fn command_wrapper_exposes_tree() {
    let doc = mapping(vec![
        ("name", text("root")),
        (
            "subcommands",
            sequence(vec![
                command_entry(vec![("name", text("alpha"))]),
                command_entry(vec![("name", text("beta"))]),
            ]),
        ),
    ]);
    let cmd = Command::new(&doc).unwrap();
    assert_eq!(cmd.get_name(), "root");
    assert_eq!(cmd.get_command().name, "root");
    let subs = cmd.get_subcommands();
    assert_eq!(subs.len(), 2);
    assert_eq!(subs[0].get_name(), "alpha");
    assert_eq!(subs[1].get_name(), "beta");
    assert_eq!(cmd.get_command().subcommands[0].name, "alpha");
}

#[test]
fn command_wrapper_propagates_errors() {
    let doc = mapping(vec![("about", text("anonymous"))]);
    assert_eq!(
        Command::new(&doc),
        Err(BuildError::MissingField {
            field: "name".to_string(),
            node: NodeKind::Command,
        })
    );
}

#[test]
fn errors_describe_themselves() {
    let missing = BuildError::MissingField {
        field: "id".to_string(),
        node: NodeKind::Arg,
    };
    assert_eq!(missing.describe(), "missing required field: id");
    let mismatch = BuildError::TypeMismatch {
        property: "required".to_string(),
        expected: PropType::Bool,
    };
    assert_eq!(
        mismatch.describe(),
        "property has an incompatible type: required"
    );
}

#[test]
fn first_type_mismatch_wins_over_later_entries() {
    let doc = mapping(vec![
        ("name", text("tool")),
        ("about", ConfigValue::Int(1)),
        ("term_width", text("wide")),
    ]);
    assert_eq!(
        compile_document(&doc),
        Err(BuildError::TypeMismatch {
            property: "about".to_string(),
            expected: PropType::Str,
        })
    );
}
