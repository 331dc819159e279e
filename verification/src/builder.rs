//! The builders: a single recursive descent that compiles a configuration
//! subtree into an argument, group or command specification, failing fast on
//! the first missing identifier or type-mismatched property.

use vstd::prelude::*;

use crate::apply::{apply_table, spec_apply_table};
use crate::coerce::PropModel;
use crate::config::{lemma_lookup_decreases, ConfigValue};
use crate::errors::{BuildError, ErrorModel, NodeKind};
use crate::tables::{arg_prop_table, arg_props, cmd_prop_table, cmd_props, group_prop_table,
    group_props};
use crate::tree::{arg_models, cmds_model, group_models, lemma_cmds_model_index, props_model,
    ArgModel, ArgSpec, CommandModel, CommandSpec, GroupModel, GroupSpec};

verus! {

/// The required identifier stored under `field`: present only when the value
/// is a non-empty string.
pub open spec fn spec_required_name(cv: ConfigValue, field: Seq<char>) -> Option<Seq<char>> {
    match cv.spec_lookup(field) {
        Some(ConfigValue::Str(s)) => if s@.len() > 0 {
            Some(s@)
        } else {
            None
        },
        _ => None,
    }
}

/// What compiling one argument subtree yields: its `id`, which must be a
/// non-empty string, and every present and valid recognized property.
pub open spec fn spec_build_arg(cv: ConfigValue) -> Result<ArgModel, ErrorModel> {
    match spec_required_name(cv, "id"@) {
        None => Err(ErrorModel::MissingField { field: "id"@, node: NodeKind::Arg }),
        Some(id) => match spec_apply_table(cv, arg_props()) {
            Ok(props) => Ok(ArgModel { id, props }),
            Err(e) => Err(e),
        },
    }
}

/// What compiling one group subtree yields.
pub open spec fn spec_build_group(cv: ConfigValue) -> Result<GroupModel, ErrorModel> {
    match spec_required_name(cv, "id"@) {
        None => Err(ErrorModel::MissingField { field: "id"@, node: NodeKind::Group }),
        Some(id) => match spec_apply_table(cv, group_props()) {
            Ok(props) => Ok(GroupModel { id, props }),
            Err(e) => Err(e),
        },
    }
}

/// The `arg` subtree of one `args` entry, or the null node when the entry
/// has none.
pub open spec fn arg_subtree(e: ConfigValue) -> ConfigValue {
    match e.spec_lookup("arg"@) {
        Some(v) => v,
        None => ConfigValue::Null,
    }
}

/// The `group` subtree of one `groups` entry, or the null node when the
/// entry has none.
pub open spec fn group_subtree(e: ConfigValue) -> ConfigValue {
    match e.spec_lookup("group"@) {
        Some(v) => v,
        None => ConfigValue::Null,
    }
}

/// What compiling the entries of an `args` sequence yields: each entry's
/// `arg` subtree compiled in order, stopping at the first failure.  An entry
/// without an `arg` subtree compiles the null node, which fails for want of
/// an `id`.
pub open spec fn spec_build_args(elems: Seq<ConfigValue>) -> Result<Seq<ArgModel>, ErrorModel>
    decreases elems.len(),
{
    if elems.len() == 0 {
        Ok(Seq::empty())
    } else {
        let sub = arg_subtree(elems[0]);
        match spec_build_arg(sub) {
            Err(e) => Err(e),
            Ok(a) => match spec_build_args(elems.drop_first()) {
                Ok(rest) => Ok(seq![a] + rest),
                Err(e) => Err(e),
            },
        }
    }
}

/// What compiling the entries of a `groups` sequence yields.
pub open spec fn spec_build_groups(elems: Seq<ConfigValue>) -> Result<Seq<GroupModel>, ErrorModel>
    decreases elems.len(),
{
    if elems.len() == 0 {
        Ok(Seq::empty())
    } else {
        let sub = group_subtree(elems[0]);
        match spec_build_group(sub) {
            Err(e) => Err(e),
            Ok(g) => match spec_build_groups(elems.drop_first()) {
                Ok(rest) => Ok(seq![g] + rest),
                Err(e) => Err(e),
            },
        }
    }
}

/// The entries of the sequence stored under `key`, or no entries when the
/// key is absent or its value is not a sequence.
pub open spec fn spec_entry_list(cv: ConfigValue, key: Seq<char>) -> Seq<ConfigValue> {
    match cv.spec_lookup(key) {
        Some(ConfigValue::Sequence(v)) => v@,
        _ => Seq::empty(),
    }
}

/// What compiling one command subtree yields: its required non-empty `name`,
/// its recognized properties, and its compiled `args`, `groups` and
/// `subcommands` entries, in that order, stopping at the first failure.
pub open spec fn spec_build_command(cv: ConfigValue) -> Result<CommandModel, ErrorModel>
    decreases cv,
{
    match spec_required_name(cv, "name"@) {
        None => Err(ErrorModel::MissingField { field: "name"@, node: NodeKind::Command }),
        Some(name) => match spec_apply_table(cv, cmd_props()) {
            Err(e) => Err(e),
            Ok(props) => match spec_build_args(spec_entry_list(cv, "args"@)) {
                Err(e) => Err(e),
                Ok(args) => match spec_build_groups(spec_entry_list(cv, "groups"@)) {
                    Err(e) => Err(e),
                    Ok(groups) => {
                        let subs_result = match cv.spec_lookup("subcommands"@) {
                            Some(ConfigValue::Sequence(v)) => {
                                proof {
                                    lemma_lookup_decreases(cv, "subcommands"@);
                                    let sv = cv.spec_lookup("subcommands"@)->Some_0;
                                    assert(decreases_to!(sv => sv->Sequence_0));
                                    assert(decreases_to!(sv->Sequence_0 => sv->Sequence_0@));
                                }
                                spec_build_subcommands(v@)
                            },
                            _ => Ok(Seq::empty()),
                        };
                        match subs_result {
                            Err(e) => Err(e),
                            Ok(subcommands) => Ok(
                                CommandModel { name, props, args, groups, subcommands },
                            ),
                        }
                    },
                },
            },
        },
    }
}

/// What compiling the entries of a `subcommands` sequence yields: each
/// entry's `command` subtree compiled in order, stopping at the first
/// failure.  An entry without a `command` subtree fails for want of a
/// `name`.
pub open spec fn spec_build_subcommands(elems: Seq<ConfigValue>) -> Result<
    Seq<CommandModel>,
    ErrorModel,
>
    decreases elems,
{
    if elems.len() == 0 {
        Ok(Seq::empty())
    } else {
        match elems[0].spec_lookup("command"@) {
            None => Err(ErrorModel::MissingField { field: "name"@, node: NodeKind::Command }),
            Some(sub) => {
                proof {
                    lemma_lookup_decreases(elems[0], "command"@);
                }
                match spec_build_command(sub) {
                    Err(e) => Err(e),
                    Ok(c) => match spec_build_subcommands(elems.drop_first()) {
                        Ok(rest) => Ok(seq![c] + rest),
                        Err(e) => Err(e),
                    },
                }
            },
        }
    }
}

/// What compiling a whole document yields.  The root command subtree may be
/// wrapped under a top-level `command` key or be the document itself.
pub open spec fn spec_compile(doc: ConfigValue) -> Result<CommandModel, ErrorModel> {
    match doc.spec_lookup("command"@) {
        Some(c) => spec_build_command(c),
        None => spec_build_command(doc),
    }
}

/// Extracts the required identifier stored under `field`: a non-empty
/// string.
fn required_name(cv: &ConfigValue, field: &str) -> (r: Option<String>)
    ensures
        match r {
            Some(s) => spec_required_name(*cv, field@) == Some(s@),
            None => spec_required_name(*cv, field@) is None,
        },
{
    let key = String::from_str(field);
    match cv.lookup(&key) {
        Some(ConfigValue::Str(s)) => {
            if s.as_str().is_empty() {
                None
            } else {
                Some(s.clone())
            }
        },
        _ => None,
    }
}

/// Compiles one argument subtree into an `ArgSpec`.
pub fn build_arg_spec(cv: &ConfigValue) -> (r: Result<ArgSpec, BuildError>)
    ensures
        match r {
            Ok(a) => spec_build_arg(*cv) == Ok::<ArgModel, ErrorModel>(a@),
            Err(e) => spec_build_arg(*cv) == Err::<ArgModel, ErrorModel>(e@),
        },
{
    match required_name(cv, "id") {
        None => Err(BuildError::MissingField { field: String::from_str("id"), node: NodeKind::Arg }),
        Some(id) => {
            let table = arg_prop_table();
            match apply_table(cv, &table) {
                Ok(props) => Ok(ArgSpec { id, props }),
                Err(e) => Err(e),
            }
        },
    }
}

/// Compiles one group subtree into a `GroupSpec`.
pub fn build_group_spec(cv: &ConfigValue) -> (r: Result<GroupSpec, BuildError>)
    ensures
        match r {
            Ok(g) => spec_build_group(*cv) == Ok::<GroupModel, ErrorModel>(g@),
            Err(e) => spec_build_group(*cv) == Err::<GroupModel, ErrorModel>(e@),
        },
{
    match required_name(cv, "id") {
        None => Err(
            BuildError::MissingField { field: String::from_str("id"), node: NodeKind::Group },
        ),
        Some(id) => {
            let table = group_prop_table();
            match apply_table(cv, &table) {
                Ok(props) => Ok(GroupSpec { id, props }),
                Err(e) => Err(e),
            }
        },
    }
}

/// Compiles one command subtree into a `CommandSpec`, recursing into its
/// nested subcommands.
pub fn build_command_spec(cv: &ConfigValue) -> (r: Result<CommandSpec, BuildError>)
    ensures
        match r {
            Ok(c) => spec_build_command(*cv) == Ok::<CommandModel, ErrorModel>(c@),
            Err(e) => spec_build_command(*cv) == Err::<CommandModel, ErrorModel>(e@),
        },
    decreases *cv,
{
    let name = match required_name(cv, "name") {
        None => {
            return Err(
                BuildError::MissingField { field: String::from_str("name"), node: NodeKind::Command },
            );
        },
        Some(n) => n,
    };
    let table = cmd_prop_table();
    let props = match apply_table(cv, &table) {
        Ok(p) => p,
        Err(e) => {
            return Err(e);
        },
    };
    let null_node = ConfigValue::Null;

    // The argument entries.
    let mut args: Vec<ArgSpec> = Vec::new();
    let args_key = String::from_str("args");
    let arg_key = String::from_str("arg");
    match cv.lookup(&args_key) {
        Some(ConfigValue::Sequence(elems)) => {
            let ghost ev = elems@;
            let n = elems.len();
            proof {
                assert(ev.skip(0) =~= ev);
            }
            for i in 0..n
                invariant
                    n == ev.len(),
                    ev == elems@,
                    arg_key@ == "arg"@,
                    null_node == ConfigValue::Null,
                    spec_required_name(*cv, "name"@) == Some(name@),
                    spec_apply_table(*cv, cmd_props()) == Ok::<
                        Seq<(Seq<char>, PropModel)>,
                        ErrorModel,
                    >(props_model(props@)),
                    spec_entry_list(*cv, "args"@) == ev,
                    match spec_build_args(ev.skip(i as int)) {
                        Ok(rest) => spec_build_args(ev) == Ok::<Seq<ArgModel>, ErrorModel>(
                            arg_models(args@) + rest,
                        ),
                        Err(e) => spec_build_args(ev) == Err::<Seq<ArgModel>, ErrorModel>(e),
                    },
            {
                let ghost rest_elems = ev.skip(i as int);
                let ghost old_args = args@;
                proof {
                    assert(rest_elems[0] == ev[i as int]);
                    assert(rest_elems.drop_first() =~= ev.skip(i as int + 1));
                }
                let elem = &elems[i];
                let sub = match elem.lookup(&arg_key) {
                    Some(v) => v,
                    None => &null_node,
                };
                match build_arg_spec(sub) {
                    Err(e) => {
                        return Err(e);
                    },
                    Ok(a) => {
                        let ghost am = a@;
                        args.push(a);
                        proof {
                            assert(arg_models(args@) =~= arg_models(old_args).push(am));
                            match spec_build_args(ev.skip(i as int + 1)) {
                                Ok(rest2) => {
                                    assert(arg_models(old_args).push(am) + rest2 =~= arg_models(
                                        old_args,
                                    ) + (seq![am] + rest2));
                                },
                                Err(_) => {},
                            }
                        }
                    },
                }
            }
            proof {
                assert(ev.skip(n as int) =~= Seq::<ConfigValue>::empty());
                assert(arg_models(args@) + Seq::<ArgModel>::empty() =~= arg_models(args@));
            }
        },
        _ => {},
    }
    proof {
        assert(arg_models(Seq::empty()) =~= Seq::<ArgModel>::empty());
        assert(spec_build_args(spec_entry_list(*cv, "args"@)) == Ok::<Seq<ArgModel>, ErrorModel>(
            arg_models(args@),
        ));
    }

    // The group entries.
    let mut groups: Vec<GroupSpec> = Vec::new();
    let groups_key = String::from_str("groups");
    let group_key = String::from_str("group");
    match cv.lookup(&groups_key) {
        Some(ConfigValue::Sequence(elems)) => {
            let ghost ev = elems@;
            let n = elems.len();
            proof {
                assert(ev.skip(0) =~= ev);
            }
            for i in 0..n
                invariant
                    n == ev.len(),
                    ev == elems@,
                    group_key@ == "group"@,
                    null_node == ConfigValue::Null,
                    spec_required_name(*cv, "name"@) == Some(name@),
                    spec_apply_table(*cv, cmd_props()) == Ok::<
                        Seq<(Seq<char>, PropModel)>,
                        ErrorModel,
                    >(props_model(props@)),
                    spec_build_args(spec_entry_list(*cv, "args"@)) == Ok::<
                        Seq<ArgModel>,
                        ErrorModel,
                    >(arg_models(args@)),
                    spec_entry_list(*cv, "groups"@) == ev,
                    match spec_build_groups(ev.skip(i as int)) {
                        Ok(rest) => spec_build_groups(ev) == Ok::<Seq<GroupModel>, ErrorModel>(
                            group_models(groups@) + rest,
                        ),
                        Err(e) => spec_build_groups(ev) == Err::<Seq<GroupModel>, ErrorModel>(e),
                    },
            {
                let ghost rest_elems = ev.skip(i as int);
                let ghost old_groups = groups@;
                proof {
                    assert(rest_elems[0] == ev[i as int]);
                    assert(rest_elems.drop_first() =~= ev.skip(i as int + 1));
                }
                let elem = &elems[i];
                let sub = match elem.lookup(&group_key) {
                    Some(v) => v,
                    None => &null_node,
                };
                match build_group_spec(sub) {
                    Err(e) => {
                        return Err(e);
                    },
                    Ok(g) => {
                        let ghost gm = g@;
                        groups.push(g);
                        proof {
                            assert(group_models(groups@) =~= group_models(old_groups).push(gm));
                            match spec_build_groups(ev.skip(i as int + 1)) {
                                Ok(rest2) => {
                                    assert(group_models(old_groups).push(gm) + rest2
                                        =~= group_models(old_groups) + (seq![gm] + rest2));
                                },
                                Err(_) => {},
                            }
                        }
                    },
                }
            }
            proof {
                assert(ev.skip(n as int) =~= Seq::<ConfigValue>::empty());
                assert(group_models(groups@) + Seq::<GroupModel>::empty() =~= group_models(
                    groups@,
                ));
            }
        },
        _ => {},
    }
    proof {
        assert(group_models(Seq::empty()) =~= Seq::<GroupModel>::empty());
        assert(spec_build_groups(spec_entry_list(*cv, "groups"@)) == Ok::<
            Seq<GroupModel>,
            ErrorModel,
        >(group_models(groups@)));
    }

    // The nested subcommand entries: the one recursive step.
    let mut subcommands: Vec<CommandSpec> = Vec::new();
    let subcommands_key = String::from_str("subcommands");
    let command_key = String::from_str("command");
    match cv.lookup(&subcommands_key) {
        Some(ConfigValue::Sequence(elems)) => {
            let ghost sv = cv.spec_lookup("subcommands"@)->Some_0;
            let ghost ev = elems@;
            let n = elems.len();
            proof {
                assert(ev.skip(0) =~= ev);
            }
            for i in 0..n
                invariant
                    n == ev.len(),
                    ev == elems@,
                    command_key@ == "command"@,
                    spec_required_name(*cv, "name"@) == Some(name@),
                    spec_apply_table(*cv, cmd_props()) == Ok::<
                        Seq<(Seq<char>, PropModel)>,
                        ErrorModel,
                    >(props_model(props@)),
                    spec_build_args(spec_entry_list(*cv, "args"@)) == Ok::<
                        Seq<ArgModel>,
                        ErrorModel,
                    >(arg_models(args@)),
                    spec_build_groups(spec_entry_list(*cv, "groups"@)) == Ok::<
                        Seq<GroupModel>,
                        ErrorModel,
                    >(group_models(groups@)),
                    cv.spec_lookup("subcommands"@) == Some(sv),
                    sv is Sequence,
                    sv->Sequence_0@ == ev,
                    match spec_build_subcommands(ev.skip(i as int)) {
                        Ok(rest) => spec_build_subcommands(ev) == Ok::<
                            Seq<CommandModel>,
                            ErrorModel,
                        >(cmds_model(subcommands@) + rest),
                        Err(e) => spec_build_subcommands(ev) == Err::<
                            Seq<CommandModel>,
                            ErrorModel,
                        >(e),
                    },
            {
                let ghost rest_elems = ev.skip(i as int);
                let ghost old_subs = subcommands@;
                proof {
                    assert(rest_elems[0] == ev[i as int]);
                    assert(rest_elems.drop_first() =~= ev.skip(i as int + 1));
                }
                let elem = &elems[i];
                match elem.lookup(&command_key) {
                    None => {
                        return Err(
                            BuildError::MissingField {
                                field: String::from_str("name"),
                                node: NodeKind::Command,
                            },
                        );
                    },
                    Some(sub) => {
                        proof {
                            lemma_lookup_decreases(*cv, "subcommands"@);
                            assert(decreases_to!(sv => sv->Sequence_0));
                            assert(decreases_to!(sv->Sequence_0 => sv->Sequence_0@));
                            assert(decreases_to!(ev => ev[i as int]));
                            lemma_lookup_decreases(*elem, "command"@);
                        }
                        match build_command_spec(sub) {
                            Err(e) => {
                                return Err(e);
                            },
                            Ok(c) => {
                                let ghost cm = c@;
                                subcommands.push(c);
                                proof {
                                    lemma_cmds_model_index(old_subs.push(
                                        subcommands@[old_subs.len() as int],
                                    ));
                                    lemma_cmds_model_index(old_subs);
                                    assert(cmds_model(subcommands@) =~= cmds_model(old_subs).push(
                                        cm,
                                    ));
                                    match spec_build_subcommands(ev.skip(i as int + 1)) {
                                        Ok(rest2) => {
                                            assert(cmds_model(old_subs).push(cm) + rest2
                                                =~= cmds_model(old_subs) + (seq![cm] + rest2));
                                        },
                                        Err(_) => {},
                                    }
                                }
                            },
                        }
                    },
                }
            }
            proof {
                assert(ev.skip(n as int) =~= Seq::<ConfigValue>::empty());
                assert(cmds_model(subcommands@) + Seq::<CommandModel>::empty() =~= cmds_model(
                    subcommands@,
                ));
            }
        },
        _ => {},
    }

    let r = CommandSpec { name, props, args, groups, subcommands };
    proof {
        assert(cmds_model(Seq::empty()) =~= Seq::<CommandModel>::empty());
    }
    Ok(r)
}

/// Compiles a whole configuration document.  The root command subtree may be
/// wrapped under a top-level `command` key or be the document itself.
pub fn compile_document(doc: &ConfigValue) -> (r: Result<CommandSpec, BuildError>)
    ensures
        match r {
            Ok(c) => spec_compile(*doc) == Ok::<CommandModel, ErrorModel>(c@),
            Err(e) => spec_compile(*doc) == Err::<CommandModel, ErrorModel>(e@),
        },
{
    let key = String::from_str("command");
    match doc.lookup(&key) {
        Some(c) => build_command_spec(c),
        None => build_command_spec(doc),
    }
}

} // verus!
