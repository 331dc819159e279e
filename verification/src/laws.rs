//! The laws the compiler obeys, stated over the specification functions that
//! the executable builders are proved against.

use vstd::prelude::*;

use crate::apply::{spec_apply_table, spec_coerce_prop};
use crate::builder::{arg_subtree, group_subtree, spec_build_arg, spec_build_args,
    spec_build_command, spec_build_group, spec_build_groups, spec_build_subcommands, spec_compile,
    spec_entry_list, spec_required_name};
use crate::coerce::{CoercedModel, PropModel, PropType};
use crate::config::{lemma_lookup_decreases, ConfigValue};
use crate::errors::{ErrorModel, NodeKind};
use crate::tables::{arg_props, cmd_props, group_props};
use crate::tree::{props_lookup, ArgModel, CommandModel, GroupModel};

verus! {

/// The property `name` is absent from `cv`: its key is missing or its value
/// is the null node.
pub open spec fn prop_absent(cv: ConfigValue, name: Seq<char>) -> bool {
    match cv.spec_lookup(name) {
        None => true,
        Some(v) => v is Null,
    }
}

/// An absent property is never recorded: whatever the table, a successful
/// walk yields no entry under a name whose source value is missing or null.
pub proof fn lemma_absent_not_recorded(
    cv: ConfigValue,
    table: Seq<(Seq<char>, PropType)>,
    name: Seq<char>,
    props: Seq<(Seq<char>, PropModel)>,
)
    requires
        spec_apply_table(cv, table) == Ok::<Seq<(Seq<char>, PropModel)>, ErrorModel>(props),
        prop_absent(cv, name),
    ensures
        props_lookup(props, name) is None,
    decreases table.len(),
{
    if table.len() > 0 {
        let head_name = table[0].0;
        let t = table[0].1;
        match spec_coerce_prop(cv, head_name, t) {
            CoercedModel::Mismatch => {},
            CoercedModel::Absent => {
                lemma_absent_not_recorded(cv, table.drop_first(), name, props);
            },
            CoercedModel::Present(pv) => {
                let rest = spec_apply_table(cv, table.drop_first())->Ok_0;
                lemma_absent_not_recorded(cv, table.drop_first(), name, rest);
                assert(head_name != name);
                assert(props == seq![(head_name, pv)] + rest);
                assert(props[0] == (head_name, pv));
                assert(props.drop_first() =~= rest);
            },
        }
    }
}

/// A present, coercible property is recorded with exactly its coerced value.
/// `j` is the first table entry that recognizes the name.
pub proof fn lemma_present_recorded(
    cv: ConfigValue,
    table: Seq<(Seq<char>, PropType)>,
    j: int,
    pv: PropModel,
    props: Seq<(Seq<char>, PropModel)>,
)
    requires
        spec_apply_table(cv, table) == Ok::<Seq<(Seq<char>, PropModel)>, ErrorModel>(props),
        0 <= j < table.len(),
        forall|k: int| 0 <= k < j ==> (#[trigger] table[k]).0 != table[j].0,
        spec_coerce_prop(cv, table[j].0, table[j].1) == CoercedModel::Present(pv),
    ensures
        props_lookup(props, table[j].0) == Some(pv),
    decreases table.len(),
{
    let name = table[j].0;
    let head_name = table[0].0;
    let t = table[0].1;
    if j == 0 {
        let rest = spec_apply_table(cv, table.drop_first())->Ok_0;
        assert(props == seq![(name, pv)] + rest);
        assert(props[0] == (name, pv));
    } else {
        assert(table.drop_first()[j - 1] == table[j]);
        assert(forall|k: int|
            0 <= k < j - 1 ==> (#[trigger] table.drop_first()[k]).0 == table[k + 1].0);
        match spec_coerce_prop(cv, head_name, t) {
            CoercedModel::Mismatch => {},
            CoercedModel::Absent => {
                lemma_present_recorded(cv, table.drop_first(), j - 1, pv, props);
            },
            CoercedModel::Present(hv) => {
                let rest = spec_apply_table(cv, table.drop_first())->Ok_0;
                lemma_present_recorded(cv, table.drop_first(), j - 1, pv, rest);
                assert(props == seq![(head_name, hv)] + rest);
                assert(props[0] == (head_name, hv));
                assert(head_name != name);
                assert(props.drop_first() =~= rest);
            },
        }
    }
}

/// Every recorded property stems from a recognized table entry whose source
/// value was present and coerced successfully.
pub proof fn lemma_recorded_was_present(
    cv: ConfigValue,
    table: Seq<(Seq<char>, PropType)>,
    props: Seq<(Seq<char>, PropModel)>,
)
    requires
        spec_apply_table(cv, table) == Ok::<Seq<(Seq<char>, PropModel)>, ErrorModel>(props),
    ensures
        forall|k: int|
            0 <= k < props.len() ==> exists|j: int|
                0 <= j < table.len() && (#[trigger] props[k]).0 == table[j].0
                    && spec_coerce_prop(cv, table[j].0, table[j].1) == CoercedModel::Present(
                    props[k].1,
                ),
    decreases table.len(),
{
    if table.len() > 0 {
        let head_name = table[0].0;
        let t = table[0].1;
        match spec_coerce_prop(cv, head_name, t) {
            CoercedModel::Mismatch => {},
            CoercedModel::Absent => {
                lemma_recorded_was_present(cv, table.drop_first(), props);
                assert forall|k: int| 0 <= k < props.len() implies exists|j: int|
                    0 <= j < table.len() && (#[trigger] props[k]).0 == table[j].0
                        && spec_coerce_prop(cv, table[j].0, table[j].1) == CoercedModel::Present(
                        props[k].1,
                    ) by {
                    let j0 = choose|j0: int|
                        0 <= j0 < table.drop_first().len() && props[k].0
                            == table.drop_first()[j0].0 && spec_coerce_prop(
                            cv,
                            table.drop_first()[j0].0,
                            table.drop_first()[j0].1,
                        ) == CoercedModel::Present(props[k].1);
                    assert(table.drop_first()[j0] == table[j0 + 1]);
                }
            },
            CoercedModel::Present(hv) => {
                let rest = spec_apply_table(cv, table.drop_first())->Ok_0;
                lemma_recorded_was_present(cv, table.drop_first(), rest);
                assert(props == seq![(head_name, hv)] + rest);
                assert forall|k: int| 0 <= k < props.len() implies exists|j: int|
                    0 <= j < table.len() && (#[trigger] props[k]).0 == table[j].0
                        && spec_coerce_prop(cv, table[j].0, table[j].1) == CoercedModel::Present(
                        props[k].1,
                    ) by {
                    if k == 0 {
                        assert(props[0] == (head_name, hv));
                        assert(0 <= 0 < table.len() && props[0].0 == table[0].0
                            && spec_coerce_prop(cv, table[0].0, table[0].1)
                            == CoercedModel::Present(props[0].1));
                    } else {
                        assert(props[k] == rest[k - 1]);
                        let j0 = choose|j0: int|
                            0 <= j0 < table.drop_first().len() && rest[k - 1].0
                                == table.drop_first()[j0].0 && spec_coerce_prop(
                                cv,
                                table.drop_first()[j0].0,
                                table.drop_first()[j0].1,
                            ) == CoercedModel::Present(rest[k - 1].1);
                        assert(table.drop_first()[j0] == table[j0 + 1]);
                    }
                }
            },
        }
    }
}

/// Every failure of a table walk is a type mismatch on a recognized
/// property whose source value was present and incompatible.
pub proof fn lemma_apply_error_is_mismatch(
    cv: ConfigValue,
    table: Seq<(Seq<char>, PropType)>,
    e: ErrorModel,
)
    requires
        spec_apply_table(cv, table) == Err::<Seq<(Seq<char>, PropModel)>, ErrorModel>(e),
    ensures
        e is TypeMismatch,
        exists|j: int|
            0 <= j < table.len() && (#[trigger] table[j]).0 == e->TypeMismatch_property
                && table[j].1 == e->TypeMismatch_expected && spec_coerce_prop(
                cv,
                table[j].0,
                table[j].1,
            ) is Mismatch,
    decreases table.len(),
{
    if table.len() > 0 {
        let head_name = table[0].0;
        let t = table[0].1;
        match spec_coerce_prop(cv, head_name, t) {
            CoercedModel::Mismatch => {
                assert(0 <= 0 < table.len() && table[0].0 == e->TypeMismatch_property
                    && table[0].1 == e->TypeMismatch_expected && spec_coerce_prop(
                    cv,
                    table[0].0,
                    table[0].1,
                ) is Mismatch);
            },
            CoercedModel::Absent => {
                lemma_apply_error_is_mismatch(cv, table.drop_first(), e);
                let j0 = choose|j0: int|
                    0 <= j0 < table.drop_first().len() && (#[trigger] table.drop_first()[j0]).0
                        == e->TypeMismatch_property && table.drop_first()[j0].1
                        == e->TypeMismatch_expected && spec_coerce_prop(
                        cv,
                        table.drop_first()[j0].0,
                        table.drop_first()[j0].1,
                    ) is Mismatch;
                assert(table.drop_first()[j0] == table[j0 + 1]);
            },
            CoercedModel::Present(_) => {
                lemma_apply_error_is_mismatch(cv, table.drop_first(), e);
                let j0 = choose|j0: int|
                    0 <= j0 < table.drop_first().len() && (#[trigger] table.drop_first()[j0]).0
                        == e->TypeMismatch_property && table.drop_first()[j0].1
                        == e->TypeMismatch_expected && spec_coerce_prop(
                        cv,
                        table.drop_first()[j0].0,
                        table.drop_first()[j0].1,
                    ) is Mismatch;
                assert(table.drop_first()[j0] == table[j0 + 1]);
            },
        }
    }
}

/// A present but incompatible recognized property fails the whole table
/// walk.
pub proof fn lemma_mismatch_fails(cv: ConfigValue, table: Seq<(Seq<char>, PropType)>, j: int)
    requires
        0 <= j < table.len(),
        spec_coerce_prop(cv, table[j].0, table[j].1) is Mismatch,
    ensures
        spec_apply_table(cv, table) is Err,
    decreases table.len(),
{
    if j > 0 {
        let head_name = table[0].0;
        let t = table[0].1;
        match spec_coerce_prop(cv, head_name, t) {
            CoercedModel::Mismatch => {},
            CoercedModel::Absent => {
                assert(table.drop_first()[j - 1] == table[j]);
                lemma_mismatch_fails(cv, table.drop_first(), j - 1);
            },
            CoercedModel::Present(_) => {
                assert(table.drop_first()[j - 1] == table[j]);
                lemma_mismatch_fails(cv, table.drop_first(), j - 1);
            },
        }
    }
}

/// On a successfully compiled argument, a present and coercible recognized
/// property appears with exactly its coerced value.  `j` is the first table
/// entry recognizing the name.
pub proof fn lemma_arg_present_property(cv: ConfigValue, j: int, pv: PropModel, a: ArgModel)
    requires
        spec_build_arg(cv) == Ok::<ArgModel, ErrorModel>(a),
        0 <= j < arg_props().len(),
        forall|k: int| 0 <= k < j ==> (#[trigger] arg_props()[k]).0 != arg_props()[j].0,
        spec_coerce_prop(cv, arg_props()[j].0, arg_props()[j].1) == CoercedModel::Present(pv),
    ensures
        props_lookup(a.props, arg_props()[j].0) == Some(pv),
{
    lemma_present_recorded(cv, arg_props(), j, pv, a.props);
}

/// On a successfully compiled argument, an omitted property is absent, not
/// defaulted.
pub proof fn lemma_arg_absent_property(cv: ConfigValue, name: Seq<char>, a: ArgModel)
    requires
        spec_build_arg(cv) == Ok::<ArgModel, ErrorModel>(a),
        prop_absent(cv, name),
    ensures
        props_lookup(a.props, name) is None,
{
    lemma_absent_not_recorded(cv, arg_props(), name, a.props);
}

/// On a successfully compiled group, a present and coercible recognized
/// property appears with exactly its coerced value.
pub proof fn lemma_group_present_property(cv: ConfigValue, j: int, pv: PropModel, g: GroupModel)
    requires
        spec_build_group(cv) == Ok::<GroupModel, ErrorModel>(g),
        0 <= j < group_props().len(),
        forall|k: int| 0 <= k < j ==> (#[trigger] group_props()[k]).0 != group_props()[j].0,
        spec_coerce_prop(cv, group_props()[j].0, group_props()[j].1) == CoercedModel::Present(pv),
    ensures
        props_lookup(g.props, group_props()[j].0) == Some(pv),
{
    lemma_present_recorded(cv, group_props(), j, pv, g.props);
}

/// On a successfully compiled group, an omitted property is absent.
pub proof fn lemma_group_absent_property(cv: ConfigValue, name: Seq<char>, g: GroupModel)
    requires
        spec_build_group(cv) == Ok::<GroupModel, ErrorModel>(g),
        prop_absent(cv, name),
    ensures
        props_lookup(g.props, name) is None,
{
    lemma_absent_not_recorded(cv, group_props(), name, g.props);
}

/// On a successfully compiled command, a present and coercible recognized
/// property appears with exactly its coerced value.
pub proof fn lemma_command_present_property(cv: ConfigValue, j: int, pv: PropModel, m: CommandModel)
    requires
        spec_build_command(cv) == Ok::<CommandModel, ErrorModel>(m),
        0 <= j < cmd_props().len(),
        forall|k: int| 0 <= k < j ==> (#[trigger] cmd_props()[k]).0 != cmd_props()[j].0,
        spec_coerce_prop(cv, cmd_props()[j].0, cmd_props()[j].1) == CoercedModel::Present(pv),
    ensures
        props_lookup(m.props, cmd_props()[j].0) == Some(pv),
{
    lemma_present_recorded(cv, cmd_props(), j, pv, m.props);
}

/// On a successfully compiled command, an omitted property is absent.
pub proof fn lemma_command_absent_property(cv: ConfigValue, name: Seq<char>, m: CommandModel)
    requires
        spec_build_command(cv) == Ok::<CommandModel, ErrorModel>(m),
        prop_absent(cv, name),
    ensures
        props_lookup(m.props, name) is None,
{
    lemma_absent_not_recorded(cv, cmd_props(), name, m.props);
}

/// A present but incompatible recognized argument property fails the whole
/// argument build; when the required identifier is fine, the error is the
/// type mismatch itself.
pub proof fn lemma_arg_type_mismatch(cv: ConfigValue, j: int)
    requires
        0 <= j < arg_props().len(),
        spec_coerce_prop(cv, arg_props()[j].0, arg_props()[j].1) is Mismatch,
    ensures
        spec_build_arg(cv) is Err,
        spec_required_name(cv, "id"@) is Some ==> spec_build_arg(cv)->Err_0 is TypeMismatch,
{
    lemma_mismatch_fails(cv, arg_props(), j);
    if spec_required_name(cv, "id"@) is Some {
        lemma_apply_error_is_mismatch(cv, arg_props(), spec_apply_table(cv, arg_props())->Err_0);
    }
}

/// A present but incompatible recognized group property fails the whole
/// group build.
pub proof fn lemma_group_type_mismatch(cv: ConfigValue, j: int)
    requires
        0 <= j < group_props().len(),
        spec_coerce_prop(cv, group_props()[j].0, group_props()[j].1) is Mismatch,
    ensures
        spec_build_group(cv) is Err,
        spec_required_name(cv, "id"@) is Some ==> spec_build_group(cv)->Err_0 is TypeMismatch,
{
    lemma_mismatch_fails(cv, group_props(), j);
    if spec_required_name(cv, "id"@) is Some {
        lemma_apply_error_is_mismatch(cv, group_props(), spec_apply_table(cv, group_props())->Err_0);
    }
}

/// A present but incompatible recognized command property fails the whole
/// command build.
pub proof fn lemma_command_type_mismatch(cv: ConfigValue, j: int)
    requires
        0 <= j < cmd_props().len(),
        spec_coerce_prop(cv, cmd_props()[j].0, cmd_props()[j].1) is Mismatch,
    ensures
        spec_build_command(cv) is Err,
        spec_required_name(cv, "name"@) is Some ==> spec_build_command(cv)->Err_0 is TypeMismatch,
{
    lemma_mismatch_fails(cv, cmd_props(), j);
    if spec_required_name(cv, "name"@) is Some {
        lemma_apply_error_is_mismatch(cv, cmd_props(), spec_apply_table(cv, cmd_props())->Err_0);
    }
}

/// An argument build reports a missing `id` exactly when the subtree holds
/// no non-empty string under `id`.
pub proof fn lemma_arg_missing_id(cv: ConfigValue)
    ensures
        (spec_build_arg(cv) == Err::<ArgModel, ErrorModel>(
            ErrorModel::MissingField { field: "id"@, node: NodeKind::Arg },
        )) <==> spec_required_name(cv, "id"@) is None,
{
    if spec_required_name(cv, "id"@) is Some {
        match spec_apply_table(cv, arg_props()) {
            Ok(_) => {},
            Err(e) => {
                lemma_apply_error_is_mismatch(cv, arg_props(), e);
            },
        }
    }
}

/// A group build reports a missing `id` exactly when the subtree holds no
/// non-empty string under `id`.
pub proof fn lemma_group_missing_id(cv: ConfigValue)
    ensures
        (spec_build_group(cv) == Err::<GroupModel, ErrorModel>(
            ErrorModel::MissingField { field: "id"@, node: NodeKind::Group },
        )) <==> spec_required_name(cv, "id"@) is None,
{
    if spec_required_name(cv, "id"@) is Some {
        match spec_apply_table(cv, group_props()) {
            Ok(_) => {},
            Err(e) => {
                lemma_apply_error_is_mismatch(cv, group_props(), e);
            },
        }
    }
}

/// A command build that reports a missing `name` can only stem from a
/// subtree (its own or a nested one) that holds no non-empty string under
/// `name`; and a subtree without one always fails that way.
pub proof fn lemma_command_missing_name(cv: ConfigValue)
    ensures
        spec_required_name(cv, "name"@) is None ==> spec_build_command(cv) == Err::<
            CommandModel,
            ErrorModel,
        >(ErrorModel::MissingField { field: "name"@, node: NodeKind::Command }),
{
}

/// Compiling a document is a function of the document alone: two compiles
/// of the same document yield equal results, so the compiled trees are
/// structurally equal.
pub proof fn lemma_compile_deterministic(
    doc: ConfigValue,
    r1: Result<CommandModel, ErrorModel>,
    r2: Result<CommandModel, ErrorModel>,
)
    requires
        r1 == spec_compile(doc),
        r2 == spec_compile(doc),
    ensures
        r1 == r2,
{
}

/// A successful `args` walk compiles each entry's `arg` subtree, in order.
pub proof fn lemma_args_pointwise(elems: Seq<ConfigValue>, ms: Seq<ArgModel>)
    requires
        spec_build_args(elems) == Ok::<Seq<ArgModel>, ErrorModel>(ms),
    ensures
        ms.len() == elems.len(),
        forall|i: int|
            0 <= i < elems.len() ==> spec_build_arg(arg_subtree(#[trigger] elems[i])) == Ok::<
                ArgModel,
                ErrorModel,
            >(ms[i]),
    decreases elems.len(),
{
    if elems.len() > 0 {
        let rest = spec_build_args(elems.drop_first())->Ok_0;
        lemma_args_pointwise(elems.drop_first(), rest);
        let a0 = spec_build_arg(arg_subtree(elems[0]))->Ok_0;
        assert(ms == seq![a0] + rest);
        assert forall|i: int| 0 <= i < elems.len() implies spec_build_arg(
            arg_subtree(#[trigger] elems[i]),
        ) == Ok::<ArgModel, ErrorModel>(ms[i]) by {
            if i > 0 {
                assert(elems.drop_first()[i - 1] == elems[i]);
                assert(ms[i] == rest[i - 1]);
            }
        }
    }
}

/// A successful `groups` walk compiles each entry's `group` subtree, in
/// order.
pub proof fn lemma_groups_pointwise(elems: Seq<ConfigValue>, ms: Seq<GroupModel>)
    requires
        spec_build_groups(elems) == Ok::<Seq<GroupModel>, ErrorModel>(ms),
    ensures
        ms.len() == elems.len(),
        forall|i: int|
            0 <= i < elems.len() ==> spec_build_group(group_subtree(#[trigger] elems[i])) == Ok::<
                GroupModel,
                ErrorModel,
            >(ms[i]),
    decreases elems.len(),
{
    if elems.len() > 0 {
        let rest = spec_build_groups(elems.drop_first())->Ok_0;
        lemma_groups_pointwise(elems.drop_first(), rest);
        let g0 = spec_build_group(group_subtree(elems[0]))->Ok_0;
        assert(ms == seq![g0] + rest);
        assert forall|i: int| 0 <= i < elems.len() implies spec_build_group(
            group_subtree(#[trigger] elems[i]),
        ) == Ok::<GroupModel, ErrorModel>(ms[i]) by {
            if i > 0 {
                assert(elems.drop_first()[i - 1] == elems[i]);
                assert(ms[i] == rest[i - 1]);
            }
        }
    }
}

/// A successful `subcommands` walk compiles each entry's `command` subtree,
/// in order: sibling order is preserved.
pub proof fn lemma_subcommands_pointwise(elems: Seq<ConfigValue>, ms: Seq<CommandModel>)
    requires
        spec_build_subcommands(elems) == Ok::<Seq<CommandModel>, ErrorModel>(ms),
    ensures
        ms.len() == elems.len(),
        forall|i: int|
            0 <= i < elems.len() ==> (#[trigger] elems[i]).spec_lookup("command"@) is Some
                && spec_build_command(elems[i].spec_lookup("command"@)->Some_0) == Ok::<
                CommandModel,
                ErrorModel,
            >(ms[i]),
    decreases elems.len(),
{
    if elems.len() > 0 {
        let rest = spec_build_subcommands(elems.drop_first())->Ok_0;
        lemma_subcommands_pointwise(elems.drop_first(), rest);
        let c0 = spec_build_command(elems[0].spec_lookup("command"@)->Some_0)->Ok_0;
        assert(ms == seq![c0] + rest);
        assert forall|i: int| 0 <= i < elems.len() implies (#[trigger] elems[i]).spec_lookup(
            "command"@,
        ) is Some && spec_build_command(elems[i].spec_lookup("command"@)->Some_0) == Ok::<
            CommandModel,
            ErrorModel,
        >(ms[i]) by {
            if i > 0 {
                assert(elems.drop_first()[i - 1] == elems[i]);
                assert(ms[i] == rest[i - 1]);
            }
        }
    }
}

/// On a successfully compiled command, the subcommands are the compiled
/// `command` subtrees of the source entries, one for one and in order.
pub proof fn lemma_subcommand_order(cv: ConfigValue, m: CommandModel)
    requires
        spec_build_command(cv) == Ok::<CommandModel, ErrorModel>(m),
    ensures
        m.subcommands.len() == spec_entry_list(cv, "subcommands"@).len(),
        forall|i: int|
            0 <= i < m.subcommands.len() ==> (#[trigger] spec_entry_list(
                cv,
                "subcommands"@,
            )[i]).spec_lookup("command"@) is Some && spec_build_command(
                spec_entry_list(cv, "subcommands"@)[i].spec_lookup("command"@)->Some_0,
            ) == Ok::<CommandModel, ErrorModel>(m.subcommands[i]),
{
    match cv.spec_lookup("subcommands"@) {
        Some(ConfigValue::Sequence(v)) => {
            lemma_subcommands_pointwise(v@, m.subcommands);
        },
        _ => {},
    }
}

/// An `args` entry whose `arg` subtree lacks an `id` fails the whole walk
/// with the missing-field error, however many valid entries precede it.
pub proof fn lemma_args_missing_id_fails(elems: Seq<ConfigValue>, i: int)
    requires
        0 <= i < elems.len(),
        forall|k: int| 0 <= k < i ==> spec_build_arg(arg_subtree(#[trigger] elems[k])) is Ok,
        spec_required_name(arg_subtree(elems[i]), "id"@) is None,
    ensures
        spec_build_args(elems) == Err::<Seq<ArgModel>, ErrorModel>(
            ErrorModel::MissingField { field: "id"@, node: NodeKind::Arg },
        ),
    decreases i,
{
    lemma_arg_missing_id(arg_subtree(elems[i]));
    if i > 0 {
        assert(spec_build_arg(arg_subtree(elems[0])) is Ok);
        assert forall|k: int| 0 <= k < i - 1 implies spec_build_arg(
            arg_subtree(#[trigger] elems.drop_first()[k]),
        ) is Ok by {
            assert(elems.drop_first()[k] == elems[k + 1]);
        }
        assert(elems.drop_first()[i - 1] == elems[i]);
        lemma_args_missing_id_fails(elems.drop_first(), i - 1);
    }
}

/// A `groups` entry whose `group` subtree lacks an `id` fails the whole
/// walk with the missing-field error, however many valid entries precede
/// it.
pub proof fn lemma_groups_missing_id_fails(elems: Seq<ConfigValue>, i: int)
    requires
        0 <= i < elems.len(),
        forall|k: int| 0 <= k < i ==> spec_build_group(group_subtree(#[trigger] elems[k])) is Ok,
        spec_required_name(group_subtree(elems[i]), "id"@) is None,
    ensures
        spec_build_groups(elems) == Err::<Seq<GroupModel>, ErrorModel>(
            ErrorModel::MissingField { field: "id"@, node: NodeKind::Group },
        ),
    decreases i,
{
    lemma_group_missing_id(group_subtree(elems[i]));
    if i > 0 {
        assert(spec_build_group(group_subtree(elems[0])) is Ok);
        assert forall|k: int| 0 <= k < i - 1 implies spec_build_group(
            group_subtree(#[trigger] elems.drop_first()[k]),
        ) is Ok by {
            assert(elems.drop_first()[k] == elems[k + 1]);
        }
        assert(elems.drop_first()[i - 1] == elems[i]);
        lemma_groups_missing_id_fails(elems.drop_first(), i - 1);
    }
}

/// A `subcommands` entry whose `command` subtree is missing or lacks a
/// `name` fails the whole walk with the missing-field error, however many
/// valid entries precede it.
pub proof fn lemma_subcommands_missing_name_fails(elems: Seq<ConfigValue>, i: int)
    requires
        0 <= i < elems.len(),
        forall|k: int|
            0 <= k < i ==> (#[trigger] elems[k]).spec_lookup("command"@) is Some
                && spec_build_command(elems[k].spec_lookup("command"@)->Some_0) is Ok,
        match elems[i].spec_lookup("command"@) {
            None => true,
            Some(sub) => spec_required_name(sub, "name"@) is None,
        },
    ensures
        spec_build_subcommands(elems) == Err::<Seq<CommandModel>, ErrorModel>(
            ErrorModel::MissingField { field: "name"@, node: NodeKind::Command },
        ),
    decreases i,
{
    match elems[i].spec_lookup("command"@) {
        None => {},
        Some(sub) => {
            lemma_command_missing_name(sub);
        },
    }
    if i > 0 {
        assert forall|k: int| 0 <= k < i - 1 implies (#[trigger] elems.drop_first()[k]).spec_lookup(
            "command"@,
        ) is Some && spec_build_command(
            elems.drop_first()[k].spec_lookup("command"@)->Some_0,
        ) is Ok by {
            assert(elems.drop_first()[k] == elems[k + 1]);
        }
        assert(elems.drop_first()[i - 1] == elems[i]);
        lemma_subcommands_missing_name_fails(elems.drop_first(), i - 1);
    }
}

/// An `arg` entry lacking an `id` fails the whole command build with the
/// missing-field error, however many valid sibling entries precede it.
pub proof fn lemma_command_arg_missing_id_fails(cv: ConfigValue, i: int)
    requires
        spec_required_name(cv, "name"@) is Some,
        spec_apply_table(cv, cmd_props()) is Ok,
        0 <= i < spec_entry_list(cv, "args"@).len(),
        forall|k: int|
            0 <= k < i ==> spec_build_arg(
                arg_subtree(#[trigger] spec_entry_list(cv, "args"@)[k]),
            ) is Ok,
        spec_required_name(arg_subtree(spec_entry_list(cv, "args"@)[i]), "id"@) is None,
    ensures
        spec_build_command(cv) == Err::<CommandModel, ErrorModel>(
            ErrorModel::MissingField { field: "id"@, node: NodeKind::Arg },
        ),
{
    lemma_args_missing_id_fails(spec_entry_list(cv, "args"@), i);
}

/// A `group` entry lacking an `id` fails the whole command build with the
/// missing-field error, however many valid sibling entries precede it.
pub proof fn lemma_command_group_missing_id_fails(cv: ConfigValue, i: int)
    requires
        spec_required_name(cv, "name"@) is Some,
        spec_apply_table(cv, cmd_props()) is Ok,
        spec_build_args(spec_entry_list(cv, "args"@)) is Ok,
        0 <= i < spec_entry_list(cv, "groups"@).len(),
        forall|k: int|
            0 <= k < i ==> spec_build_group(
                group_subtree(#[trigger] spec_entry_list(cv, "groups"@)[k]),
            ) is Ok,
        spec_required_name(group_subtree(spec_entry_list(cv, "groups"@)[i]), "id"@) is None,
    ensures
        spec_build_command(cv) == Err::<CommandModel, ErrorModel>(
            ErrorModel::MissingField { field: "id"@, node: NodeKind::Group },
        ),
{
    lemma_groups_missing_id_fails(spec_entry_list(cv, "groups"@), i);
}

/// A `command` entry lacking a `name` fails the whole command build with
/// the missing-field error, however many valid sibling entries precede it.
pub proof fn lemma_command_subcommand_missing_name_fails(cv: ConfigValue, i: int)
    requires
        spec_required_name(cv, "name"@) is Some,
        spec_apply_table(cv, cmd_props()) is Ok,
        spec_build_args(spec_entry_list(cv, "args"@)) is Ok,
        spec_build_groups(spec_entry_list(cv, "groups"@)) is Ok,
        0 <= i < spec_entry_list(cv, "subcommands"@).len(),
        forall|k: int|
            0 <= k < i ==> (#[trigger] spec_entry_list(cv, "subcommands"@)[k]).spec_lookup(
                "command"@,
            ) is Some && spec_build_command(
                spec_entry_list(cv, "subcommands"@)[k].spec_lookup("command"@)->Some_0,
            ) is Ok,
        match spec_entry_list(cv, "subcommands"@)[i].spec_lookup("command"@) {
            None => true,
            Some(sub) => spec_required_name(sub, "name"@) is None,
        },
    ensures
        spec_build_command(cv) == Err::<CommandModel, ErrorModel>(
            ErrorModel::MissingField { field: "name"@, node: NodeKind::Command },
        ),
{
    lemma_subcommands_missing_name_fails(spec_entry_list(cv, "subcommands"@), i);
}

/// The nesting depth of a compiled command tree: one node plus its deepest
/// subcommand chain.
pub open spec fn model_depth(m: CommandModel) -> nat
    decreases m,
{
    1 + models_depth(m.subcommands)
}

/// The deepest nesting depth among a list of compiled command trees.
pub open spec fn models_depth(s: Seq<CommandModel>) -> nat
    decreases s,
{
    if s.len() == 0 {
        0
    } else {
        let d0 = model_depth(s[0]);
        let dr = models_depth(s.drop_first());
        if d0 >= dr {
            d0
        } else {
            dr
        }
    }
}

/// The nesting depth of a command configuration subtree: one node plus the
/// deepest chain through its `subcommands` entries.
pub open spec fn config_depth(cv: ConfigValue) -> nat
    decreases cv,
{
    match cv.spec_lookup("subcommands"@) {
        Some(ConfigValue::Sequence(v)) => {
            proof {
                lemma_lookup_decreases(cv, "subcommands"@);
                let sv = cv.spec_lookup("subcommands"@)->Some_0;
                assert(decreases_to!(sv => sv->Sequence_0));
                assert(decreases_to!(sv->Sequence_0 => sv->Sequence_0@));
            }
            1 + config_children_depth(v@)
        },
        _ => 1,
    }
}

/// The deepest nesting depth among the `command` subtrees of a list of
/// `subcommands` entries.
pub open spec fn config_children_depth(elems: Seq<ConfigValue>) -> nat
    decreases elems,
{
    if elems.len() == 0 {
        0
    } else {
        let d0 = match elems[0].spec_lookup("command"@) {
            Some(sub) => {
                proof {
                    lemma_lookup_decreases(elems[0], "command"@);
                }
                config_depth(sub)
            },
            None => 0,
        };
        let dr = config_children_depth(elems.drop_first());
        if d0 >= dr {
            d0
        } else {
            dr
        }
    }
}

/// A compiled command tree is exactly as deep as the configuration subtree
/// it was compiled from.
pub proof fn lemma_depth(cv: ConfigValue, m: CommandModel)
    requires
        spec_build_command(cv) == Ok::<CommandModel, ErrorModel>(m),
    ensures
        model_depth(m) == config_depth(cv),
    decreases cv,
{
    match cv.spec_lookup("subcommands"@) {
        Some(ConfigValue::Sequence(v)) => {
            lemma_lookup_decreases(cv, "subcommands"@);
            let sv = cv.spec_lookup("subcommands"@)->Some_0;
            assert(decreases_to!(sv => sv->Sequence_0));
            assert(decreases_to!(sv->Sequence_0 => sv->Sequence_0@));
            lemma_children_depth(v@, m.subcommands);
        },
        _ => {
            assert(models_depth(m.subcommands) == 0);
        },
    }
}

proof fn lemma_children_depth(elems: Seq<ConfigValue>, ms: Seq<CommandModel>)
    requires
        spec_build_subcommands(elems) == Ok::<Seq<CommandModel>, ErrorModel>(ms),
    ensures
        models_depth(ms) == config_children_depth(elems),
    decreases elems,
{
    if elems.len() > 0 {
        let sub = elems[0].spec_lookup("command"@)->Some_0;
        let c0 = spec_build_command(sub)->Ok_0;
        let rest = spec_build_subcommands(elems.drop_first())->Ok_0;
        assert(decreases_to!(elems => elems[0]));
        lemma_lookup_decreases(elems[0], "command"@);
        lemma_depth(sub, c0);
        lemma_children_depth(elems.drop_first(), rest);
        assert(ms == seq![c0] + rest);
        assert(ms[0] == c0);
        assert(ms.drop_first() =~= rest);
    }
}

/// Every successfully compiled command tree is well-formed: every node's
/// name and every argument and group identifier is non-empty.
pub proof fn lemma_build_wf(cv: ConfigValue, m: CommandModel)
    requires
        spec_build_command(cv) == Ok::<CommandModel, ErrorModel>(m),
    ensures
        m.wf(),
    decreases cv,
{
    lemma_args_pointwise(spec_entry_list(cv, "args"@), m.args);
    lemma_groups_pointwise(spec_entry_list(cv, "groups"@), m.groups);
    assert forall|i: int| 0 <= i < m.args.len() implies (#[trigger] m.args[i]).wf() by {
        let e = spec_entry_list(cv, "args"@)[i];
        assert(spec_build_arg(arg_subtree(e)) == Ok::<ArgModel, ErrorModel>(m.args[i]));
    }
    assert forall|i: int| 0 <= i < m.groups.len() implies (#[trigger] m.groups[i]).wf() by {
        let e = spec_entry_list(cv, "groups"@)[i];
        assert(spec_build_group(group_subtree(e)) == Ok::<GroupModel, ErrorModel>(m.groups[i]));
    }
    match cv.spec_lookup("subcommands"@) {
        Some(ConfigValue::Sequence(v)) => {
            lemma_lookup_decreases(cv, "subcommands"@);
            let sv = cv.spec_lookup("subcommands"@)->Some_0;
            assert(decreases_to!(sv => sv->Sequence_0));
            assert(decreases_to!(sv->Sequence_0 => sv->Sequence_0@));
            lemma_subs_wf(v@, m.subcommands);
        },
        _ => {},
    }
}

proof fn lemma_subs_wf(elems: Seq<ConfigValue>, ms: Seq<CommandModel>)
    requires
        spec_build_subcommands(elems) == Ok::<Seq<CommandModel>, ErrorModel>(ms),
    ensures
        forall|i: int| 0 <= i < ms.len() ==> (#[trigger] ms[i]).wf(),
    decreases elems,
{
    if elems.len() > 0 {
        let sub = elems[0].spec_lookup("command"@)->Some_0;
        let c0 = spec_build_command(sub)->Ok_0;
        let rest = spec_build_subcommands(elems.drop_first())->Ok_0;
        assert(decreases_to!(elems => elems[0]));
        lemma_lookup_decreases(elems[0], "command"@);
        lemma_build_wf(sub, c0);
        lemma_subs_wf(elems.drop_first(), rest);
        assert(ms == seq![c0] + rest);
        assert forall|i: int| 0 <= i < ms.len() implies (#[trigger] ms[i]).wf() by {
            if i == 0 {
                assert(ms[0] == c0);
            } else {
                assert(ms[i] == rest[i - 1]);
            }
        }
    }
}

} // verus!
