//! The recognized properties of each subtree kind, each paired with the
//! semantic type its value must coerce to.  The builders walk these tables
//! with the generic applier; nothing else decides which properties exist.

use vstd::prelude::*;

use crate::apply::table_model;
use crate::coerce::PropType;

verus! {

/// The recognized command-level properties, in the order they are applied.
pub open spec fn cmd_props() -> Seq<(Seq<char>, PropType)> {
    seq![
        ("about"@, PropType::Str),
        ("after_help"@, PropType::Str),
        ("after_long_help"@, PropType::Str),
        ("alias"@, PropType::Str),
        ("allow_external_subcommands"@, PropType::Bool),
        ("allow_hyphen_values"@, PropType::Bool),
        ("allow_invalid_utf8_for_external_subcommands"@, PropType::Bool),
        ("allow_missing_positional"@, PropType::Bool),
        ("allow_negative_numbers"@, PropType::Bool),
        ("arg_required_else_help"@, PropType::Bool),
        ("args_conflicts_with_subcommands"@, PropType::Bool),
        ("args_override_self"@, PropType::Bool),
        ("author"@, PropType::Str),
        ("before_help"@, PropType::Str),
        ("before_long_help"@, PropType::Str),
        ("bin_name"@, PropType::Str),
        ("disable_colored_help"@, PropType::Bool),
        ("disable_help_flag"@, PropType::Bool),
        ("disable_help_subcommand"@, PropType::Bool),
        ("disable_version_flag"@, PropType::Bool),
        ("display_order"@, PropType::Uint),
        ("dont_collapse_args_in_usage"@, PropType::Bool),
        ("dont_delimit_trailing_values"@, PropType::Bool),
        ("help_expected"@, PropType::Bool),
        ("help_template"@, PropType::Str),
        ("hide"@, PropType::Bool),
        ("hide_possible_values"@, PropType::Bool),
        ("ignore_errors"@, PropType::Bool),
        ("infer_long_args"@, PropType::Bool),
        ("infer_subcommands"@, PropType::Bool),
        ("long_about"@, PropType::Str),
        ("long_flag"@, PropType::Str),
        ("long_flag_alias"@, PropType::Str),
        ("long_version"@, PropType::Str),
        ("max_term_width"@, PropType::Uint),
        ("next_help_heading"@, PropType::Str),
        ("next_line_help"@, PropType::Bool),
        ("no_binary_name"@, PropType::Bool),
        ("override_help"@, PropType::Str),
        ("override_usage"@, PropType::Str),
        ("propagate_version"@, PropType::Bool),
        ("short_flag"@, PropType::Char),
        ("short_flag_alias"@, PropType::Char),
        ("subcommand_help_heading"@, PropType::Str),
        ("subcommand_negates_reqs"@, PropType::Bool),
        ("subcommand_precedence_over_arg"@, PropType::Bool),
        ("subcommand_required"@, PropType::Bool),
        ("subcommand_value_name"@, PropType::Str),
        ("term_width"@, PropType::Uint),
        ("trailing_var_arg"@, PropType::Bool),
        ("version"@, PropType::Str),
        ("visible_alias"@, PropType::Str),
        ("visible_long_flag_alias"@, PropType::Str),
        ("visible_short_flag_alias"@, PropType::Char),
    ]
}

/// Builds the command property table.
pub fn cmd_prop_table() -> (t: Vec<(String, PropType)>)
    ensures
        table_model(t@) == cmd_props(),
{
    let mut t: Vec<(String, PropType)> = Vec::new();
    t.push((String::from_str("about"), PropType::Str));
    t.push((String::from_str("after_help"), PropType::Str));
    t.push((String::from_str("after_long_help"), PropType::Str));
    t.push((String::from_str("alias"), PropType::Str));
    t.push((String::from_str("allow_external_subcommands"), PropType::Bool));
    t.push((String::from_str("allow_hyphen_values"), PropType::Bool));
    t.push((String::from_str("allow_invalid_utf8_for_external_subcommands"), PropType::Bool));
    t.push((String::from_str("allow_missing_positional"), PropType::Bool));
    t.push((String::from_str("allow_negative_numbers"), PropType::Bool));
    t.push((String::from_str("arg_required_else_help"), PropType::Bool));
    t.push((String::from_str("args_conflicts_with_subcommands"), PropType::Bool));
    t.push((String::from_str("args_override_self"), PropType::Bool));
    t.push((String::from_str("author"), PropType::Str));
    t.push((String::from_str("before_help"), PropType::Str));
    t.push((String::from_str("before_long_help"), PropType::Str));
    t.push((String::from_str("bin_name"), PropType::Str));
    t.push((String::from_str("disable_colored_help"), PropType::Bool));
    t.push((String::from_str("disable_help_flag"), PropType::Bool));
    t.push((String::from_str("disable_help_subcommand"), PropType::Bool));
    t.push((String::from_str("disable_version_flag"), PropType::Bool));
    t.push((String::from_str("display_order"), PropType::Uint));
    t.push((String::from_str("dont_collapse_args_in_usage"), PropType::Bool));
    t.push((String::from_str("dont_delimit_trailing_values"), PropType::Bool));
    t.push((String::from_str("help_expected"), PropType::Bool));
    t.push((String::from_str("help_template"), PropType::Str));
    t.push((String::from_str("hide"), PropType::Bool));
    t.push((String::from_str("hide_possible_values"), PropType::Bool));
    t.push((String::from_str("ignore_errors"), PropType::Bool));
    t.push((String::from_str("infer_long_args"), PropType::Bool));
    t.push((String::from_str("infer_subcommands"), PropType::Bool));
    t.push((String::from_str("long_about"), PropType::Str));
    t.push((String::from_str("long_flag"), PropType::Str));
    t.push((String::from_str("long_flag_alias"), PropType::Str));
    t.push((String::from_str("long_version"), PropType::Str));
    t.push((String::from_str("max_term_width"), PropType::Uint));
    t.push((String::from_str("next_help_heading"), PropType::Str));
    t.push((String::from_str("next_line_help"), PropType::Bool));
    t.push((String::from_str("no_binary_name"), PropType::Bool));
    t.push((String::from_str("override_help"), PropType::Str));
    t.push((String::from_str("override_usage"), PropType::Str));
    t.push((String::from_str("propagate_version"), PropType::Bool));
    t.push((String::from_str("short_flag"), PropType::Char));
    t.push((String::from_str("short_flag_alias"), PropType::Char));
    t.push((String::from_str("subcommand_help_heading"), PropType::Str));
    t.push((String::from_str("subcommand_negates_reqs"), PropType::Bool));
    t.push((String::from_str("subcommand_precedence_over_arg"), PropType::Bool));
    t.push((String::from_str("subcommand_required"), PropType::Bool));
    t.push((String::from_str("subcommand_value_name"), PropType::Str));
    t.push((String::from_str("term_width"), PropType::Uint));
    t.push((String::from_str("trailing_var_arg"), PropType::Bool));
    t.push((String::from_str("version"), PropType::Str));
    t.push((String::from_str("visible_alias"), PropType::Str));
    t.push((String::from_str("visible_long_flag_alias"), PropType::Str));
    t.push((String::from_str("visible_short_flag_alias"), PropType::Char));
    proof {
        assert(table_model(t@) =~= cmd_props());
    }
    t
}

/// The recognized argument-level properties, in the order they are applied.
pub open spec fn arg_props() -> Seq<(Seq<char>, PropType)> {
    seq![
        ("alias"@, PropType::Str),
        ("allow_hyphen_values"@, PropType::Bool),
        ("allow_invalid_utf8"@, PropType::Bool),
        ("conflicts_with"@, PropType::Str),
        ("default_missing_value"@, PropType::Str),
        ("default_value"@, PropType::Str),
        ("display_order"@, PropType::Uint),
        ("env"@, PropType::Str),
        ("exclusive"@, PropType::Bool),
        ("forbid_empty_values"@, PropType::Bool),
        ("global"@, PropType::Bool),
        ("group"@, PropType::Str),
        ("help"@, PropType::Str),
        ("hide"@, PropType::Bool),
        ("hide_default_value"@, PropType::Bool),
        ("hide_env"@, PropType::Bool),
        ("hide_env_values"@, PropType::Bool),
        ("hide_long_help"@, PropType::Bool),
        ("hide_possible_values"@, PropType::Bool),
        ("hide_short_help"@, PropType::Bool),
        ("ignore_case"@, PropType::Bool),
        ("index"@, PropType::Uint),
        ("last"@, PropType::Bool),
        ("long"@, PropType::Str),
        ("long_help"@, PropType::Str),
        ("max_occurrences"@, PropType::Uint),
        ("max_values"@, PropType::Uint),
        ("min_values"@, PropType::Uint),
        ("multiple_occurrences"@, PropType::Bool),
        ("multiple_values"@, PropType::Bool),
        ("next_line_help"@, PropType::Bool),
        ("number_of_values"@, PropType::Uint),
        ("overrides_with"@, PropType::Str),
        ("possible_value"@, PropType::Str),
        ("raw"@, PropType::Bool),
        ("require_equals"@, PropType::Bool),
        ("require_value_delimiter"@, PropType::Bool),
        ("required"@, PropType::Bool),
        ("required_unless_present"@, PropType::Str),
        ("requires"@, PropType::Str),
        ("short"@, PropType::Char),
        ("short_alias"@, PropType::Char),
        ("takes_value"@, PropType::Bool),
        ("use_value_delimiter"@, PropType::Bool),
        ("value_delimiter"@, PropType::Char),
        ("value_name"@, PropType::Str),
        ("value_terminator"@, PropType::Str),
        ("visible_alias"@, PropType::Str),
        ("visible_short_alias"@, PropType::Char),
    ]
}

/// Builds the argument property table.
pub fn arg_prop_table() -> (t: Vec<(String, PropType)>)
    ensures
        table_model(t@) == arg_props(),
{
    let mut t: Vec<(String, PropType)> = Vec::new();
    t.push((String::from_str("alias"), PropType::Str));
    t.push((String::from_str("allow_hyphen_values"), PropType::Bool));
    t.push((String::from_str("allow_invalid_utf8"), PropType::Bool));
    t.push((String::from_str("conflicts_with"), PropType::Str));
    t.push((String::from_str("default_missing_value"), PropType::Str));
    t.push((String::from_str("default_value"), PropType::Str));
    t.push((String::from_str("display_order"), PropType::Uint));
    t.push((String::from_str("env"), PropType::Str));
    t.push((String::from_str("exclusive"), PropType::Bool));
    t.push((String::from_str("forbid_empty_values"), PropType::Bool));
    t.push((String::from_str("global"), PropType::Bool));
    t.push((String::from_str("group"), PropType::Str));
    t.push((String::from_str("help"), PropType::Str));
    t.push((String::from_str("hide"), PropType::Bool));
    t.push((String::from_str("hide_default_value"), PropType::Bool));
    t.push((String::from_str("hide_env"), PropType::Bool));
    t.push((String::from_str("hide_env_values"), PropType::Bool));
    t.push((String::from_str("hide_long_help"), PropType::Bool));
    t.push((String::from_str("hide_possible_values"), PropType::Bool));
    t.push((String::from_str("hide_short_help"), PropType::Bool));
    t.push((String::from_str("ignore_case"), PropType::Bool));
    t.push((String::from_str("index"), PropType::Uint));
    t.push((String::from_str("last"), PropType::Bool));
    t.push((String::from_str("long"), PropType::Str));
    t.push((String::from_str("long_help"), PropType::Str));
    t.push((String::from_str("max_occurrences"), PropType::Uint));
    t.push((String::from_str("max_values"), PropType::Uint));
    t.push((String::from_str("min_values"), PropType::Uint));
    t.push((String::from_str("multiple_occurrences"), PropType::Bool));
    t.push((String::from_str("multiple_values"), PropType::Bool));
    t.push((String::from_str("next_line_help"), PropType::Bool));
    t.push((String::from_str("number_of_values"), PropType::Uint));
    t.push((String::from_str("overrides_with"), PropType::Str));
    t.push((String::from_str("possible_value"), PropType::Str));
    t.push((String::from_str("raw"), PropType::Bool));
    t.push((String::from_str("require_equals"), PropType::Bool));
    t.push((String::from_str("require_value_delimiter"), PropType::Bool));
    t.push((String::from_str("required"), PropType::Bool));
    t.push((String::from_str("required_unless_present"), PropType::Str));
    t.push((String::from_str("requires"), PropType::Str));
    t.push((String::from_str("short"), PropType::Char));
    t.push((String::from_str("short_alias"), PropType::Char));
    t.push((String::from_str("takes_value"), PropType::Bool));
    t.push((String::from_str("use_value_delimiter"), PropType::Bool));
    t.push((String::from_str("value_delimiter"), PropType::Char));
    t.push((String::from_str("value_name"), PropType::Str));
    t.push((String::from_str("value_terminator"), PropType::Str));
    t.push((String::from_str("visible_alias"), PropType::Str));
    t.push((String::from_str("visible_short_alias"), PropType::Char));
    proof {
        assert(table_model(t@) =~= arg_props());
    }
    t
}

/// The recognized group-level properties, in the order they are applied.
pub open spec fn group_props() -> Seq<(Seq<char>, PropType)> {
    seq![
        ("arg"@, PropType::Str),
        ("conflicts_with"@, PropType::Str),
        ("multiple"@, PropType::Bool),
        ("required"@, PropType::Bool),
        ("requires"@, PropType::Str),
    ]
}

/// Builds the group property table.
pub fn group_prop_table() -> (t: Vec<(String, PropType)>)
    ensures
        table_model(t@) == group_props(),
{
    let mut t: Vec<(String, PropType)> = Vec::new();
    t.push((String::from_str("arg"), PropType::Str));
    t.push((String::from_str("conflicts_with"), PropType::Str));
    t.push((String::from_str("multiple"), PropType::Bool));
    t.push((String::from_str("required"), PropType::Bool));
    t.push((String::from_str("requires"), PropType::Str));
    proof {
        assert(table_model(t@) =~= group_props());
    }
    t
}

} // verus!
