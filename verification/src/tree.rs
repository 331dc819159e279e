//! The compiled command specification tree: a strongly-typed, owned,
//! immutable-after-construction description of one command, its arguments,
//! its argument groups, and its nested subcommands.

use vstd::prelude::*;

use crate::coerce::{PropModel, PropValue};

verus! {

/// One compiled argument: its identifier and every property that was present
/// and valid in the source subtree.
#[derive(Debug, PartialEq, Eq)]
pub struct ArgSpec {
    pub id: String,
    pub props: Vec<(String, PropValue)>,
}

/// One compiled argument group.
#[derive(Debug, PartialEq, Eq)]
pub struct GroupSpec {
    pub id: String,
    pub props: Vec<(String, PropValue)>,
}

/// One compiled command: its name, its command-level properties, and its
/// owned arguments, groups and subcommands, each in source order.
#[derive(Debug, PartialEq, Eq)]
pub struct CommandSpec {
    pub name: String,
    pub props: Vec<(String, PropValue)>,
    pub args: Vec<ArgSpec>,
    pub groups: Vec<GroupSpec>,
    pub subcommands: Vec<CommandSpec>,
}

/// The mathematical shape of a compiled argument.
pub ghost struct ArgModel {
    pub id: Seq<char>,
    pub props: Seq<(Seq<char>, PropModel)>,
}

/// The mathematical shape of a compiled group.
pub ghost struct GroupModel {
    pub id: Seq<char>,
    pub props: Seq<(Seq<char>, PropModel)>,
}

/// The mathematical shape of a compiled command tree.
pub ghost struct CommandModel {
    pub name: Seq<char>,
    pub props: Seq<(Seq<char>, PropModel)>,
    pub args: Seq<ArgModel>,
    pub groups: Seq<GroupModel>,
    pub subcommands: Seq<CommandModel>,
}

/// The mathematical shape of an applied-property list (shared with the
/// applier).
pub use crate::apply::props_model;

impl View for ArgSpec {
    type V = ArgModel;

    open spec fn view(&self) -> ArgModel {
        ArgModel { id: self.id@, props: props_model(self.props@) }
    }
}

impl View for GroupSpec {
    type V = GroupModel;

    open spec fn view(&self) -> GroupModel {
        GroupModel { id: self.id@, props: props_model(self.props@) }
    }
}

/// The models of a list of compiled arguments, in order.
pub open spec fn arg_models(s: Seq<ArgSpec>) -> Seq<ArgModel> {
    s.map_values(|a: ArgSpec| a@)
}

/// The models of a list of compiled groups, in order.
pub open spec fn group_models(s: Seq<GroupSpec>) -> Seq<GroupModel> {
    s.map_values(|g: GroupSpec| g@)
}

/// The model of one command node and its whole subtree.
pub open spec fn cmd_model(c: CommandSpec) -> CommandModel
    decreases c,
{
    CommandModel {
        name: c.name@,
        props: props_model(c.props@),
        args: arg_models(c.args@),
        groups: group_models(c.groups@),
        subcommands: cmds_model(c.subcommands@),
    }
}

/// The models of a list of command nodes, in order.
pub open spec fn cmds_model(s: Seq<CommandSpec>) -> Seq<CommandModel>
    decreases s,
{
    if s.len() == 0 {
        Seq::empty()
    } else {
        seq![cmd_model(s[0])] + cmds_model(s.drop_first())
    }
}

/// `cmds_model` maps the list elementwise.
pub proof fn lemma_cmds_model_index(s: Seq<CommandSpec>)
    ensures
        cmds_model(s).len() == s.len(),
        forall|i: int| 0 <= i < s.len() ==> cmds_model(s)[i] == cmd_model(s[i]),
    decreases s.len(),
{
    if s.len() > 0 {
        lemma_cmds_model_index(s.drop_first());
    }
}

impl View for CommandSpec {
    type V = CommandModel;

    open spec fn view(&self) -> CommandModel {
        cmd_model(*self)
    }
}

/// The value recorded under `name` in an applied-property list, if any.
pub open spec fn props_lookup(props: Seq<(Seq<char>, PropModel)>, name: Seq<char>) -> Option<
    PropModel,
>
    decreases props.len(),
{
    if props.len() == 0 {
        None
    } else if props[0].0 == name {
        Some(props[0].1)
    } else {
        props_lookup(props.drop_first(), name)
    }
}

/// Looks `name` up in an applied-property list.
fn find_prop<'a>(props: &'a Vec<(String, PropValue)>, name: &String) -> (r: Option<&'a PropValue>)
    ensures
        match r {
            Some(v) => props_lookup(props_model(props@), name@) == Some(v@),
            None => props_lookup(props_model(props@), name@) is None,
        },
{
    let ghost all = props_model(props@);
    let n = props.len();
    proof {
        assert(all.skip(0) =~= all);
    }
    for i in 0..n
        invariant
            n == props@.len(),
            all == props_model(props@),
            all.len() == n,
            props_lookup(all, name@) == props_lookup(all.skip(i as int), name@),
    {
        let ghost rest = all.skip(i as int);
        let entry = &props[i];
        proof {
            assert(rest[0] == all[i as int]);
            assert(all[i as int] == (props@[i as int].0@, props@[i as int].1@));
        }
        if entry.0 == *name {
            proof {
                assert(props_lookup(rest, name@) == Some(rest[0].1));
            }
            return Some(&entry.1);
        }
        proof {
            assert(rest.drop_first() =~= all.skip(i as int + 1));
        }
    }
    proof {
        assert(all.skip(n as int) =~= Seq::<(Seq<char>, PropModel)>::empty());
    }
    None
}

impl ArgModel {
    /// A well-formed argument has a non-empty identifier.
    pub open spec fn wf(self) -> bool {
        self.id.len() > 0
    }
}

impl GroupModel {
    /// A well-formed group has a non-empty identifier.
    pub open spec fn wf(self) -> bool {
        self.id.len() > 0
    }
}

impl CommandModel {
    /// A well-formed command tree has a non-empty name at every node and
    /// well-formed arguments and groups throughout.
    pub open spec fn wf(self) -> bool
        decreases self,
    {
        &&& self.name.len() > 0
        &&& forall|i: int| 0 <= i < self.args.len() ==> (#[trigger] self.args[i]).wf()
        &&& forall|i: int| 0 <= i < self.groups.len() ==> (#[trigger] self.groups[i]).wf()
        &&& forall|i: int|
            0 <= i < self.subcommands.len() ==> (#[trigger] self.subcommands[i]).wf()
    }
}

impl ArgSpec {
    /// The coerced value recorded for `name`, or `None` when the source
    /// subtree did not set it.
    pub fn property(&self, name: &String) -> (r: Option<&PropValue>)
        ensures
            match r {
                Some(v) => props_lookup(self@.props, name@) == Some(v@),
                None => props_lookup(self@.props, name@) is None,
            },
    {
        find_prop(&self.props, name)
    }
}

impl GroupSpec {
    /// The coerced value recorded for `name`, or `None` when the source
    /// subtree did not set it.
    pub fn property(&self, name: &String) -> (r: Option<&PropValue>)
        ensures
            match r {
                Some(v) => props_lookup(self@.props, name@) == Some(v@),
                None => props_lookup(self@.props, name@) is None,
            },
    {
        find_prop(&self.props, name)
    }
}

impl CommandSpec {
    /// The coerced command-level value recorded for `name`, or `None` when
    /// the source subtree did not set it.
    pub fn property(&self, name: &String) -> (r: Option<&PropValue>)
        ensures
            match r {
                Some(v) => props_lookup(self@.props, name@) == Some(v@),
                None => props_lookup(self@.props, name@) is None,
            },
    {
        find_prop(&self.props, name)
    }

    /// The command's name.
    pub fn get_name(&self) -> (r: &String)
        ensures
            r@ == self@.name,
    {
        &self.name
    }

    /// The compiled arguments, in source order.
    pub fn get_args(&self) -> (r: &Vec<ArgSpec>)
        ensures
            *r == self.args,
    {
        &self.args
    }

    /// The compiled groups, in source order.
    pub fn get_groups(&self) -> (r: &Vec<GroupSpec>)
        ensures
            *r == self.groups,
    {
        &self.groups
    }

    /// The compiled subcommands, in source order.
    pub fn get_subcommands(&self) -> (r: &Vec<CommandSpec>)
        ensures
            *r == self.subcommands,
    {
        &self.subcommands
    }
}

/// Copies an applied-property list.
fn clone_props(props: &Vec<(String, PropValue)>) -> (r: Vec<(String, PropValue)>)
    ensures
        r@ == props@,
{
    let mut r: Vec<(String, PropValue)> = Vec::new();
    let n = props.len();
    for i in 0..n
        invariant
            n == props@.len(),
            r@ =~= props@.take(i as int),
    {
        let entry = &props[i];
        r.push((entry.0.clone(), entry.1.clone()));
        proof {
            assert(r@ =~= props@.take(i as int + 1));
        }
    }
    proof {
        assert(props@.take(n as int) =~= props@);
    }
    r
}

impl Clone for ArgSpec {
    fn clone(&self) -> (r: Self)
        ensures
            r@ == self@,
    {
        ArgSpec { id: self.id.clone(), props: clone_props(&self.props) }
    }
}

impl Clone for GroupSpec {
    fn clone(&self) -> (r: Self)
        ensures
            r@ == self@,
    {
        GroupSpec { id: self.id.clone(), props: clone_props(&self.props) }
    }
}

impl CommandSpec {
    /// Copies this command and its whole subtree.
    pub fn duplicate(&self) -> (r: Self)
        ensures
            r@ == self@,
        decreases *self,
    {
        let mut args: Vec<ArgSpec> = Vec::new();
        let na = self.args.len();
        for i in 0..na
            invariant
                na == self.args@.len(),
                args@.len() == i,
                forall|j: int| 0 <= j < i ==> (#[trigger] args@[j])@ == self.args@[j]@,
        {
            args.push(self.args[i].clone());
        }
        let mut groups: Vec<GroupSpec> = Vec::new();
        let ng = self.groups.len();
        for i in 0..ng
            invariant
                ng == self.groups@.len(),
                groups@.len() == i,
                forall|j: int| 0 <= j < i ==> (#[trigger] groups@[j])@ == self.groups@[j]@,
        {
            groups.push(self.groups[i].clone());
        }
        let mut subcommands: Vec<CommandSpec> = Vec::new();
        let ns = self.subcommands.len();
        for i in 0..ns
            invariant
                ns == self.subcommands@.len(),
                subcommands@.len() == i,
                forall|j: int|
                    0 <= j < i ==> cmd_model(#[trigger] subcommands@[j]) == cmd_model(
                        self.subcommands@[j],
                    ),
        {
            let sub = &self.subcommands[i];
            proof {
                assert(decreases_to!(*self => self.subcommands));
                assert(decreases_to!(self.subcommands => self.subcommands@));
                assert(decreases_to!(self.subcommands@ => self.subcommands@[i as int]));
            }
            subcommands.push(sub.duplicate());
        }
        let r = CommandSpec {
            name: self.name.clone(),
            props: clone_props(&self.props),
            args,
            groups,
            subcommands,
        };
        proof {
            assert(r.args@.map_values(|a: ArgSpec| a@) =~= self.args@.map_values(
                |a: ArgSpec| a@,
            ));
            assert(r.groups@.map_values(|g: GroupSpec| g@) =~= self.groups@.map_values(
                |g: GroupSpec| g@,
            ));
            lemma_cmds_model_index(r.subcommands@);
            lemma_cmds_model_index(self.subcommands@);
            assert(cmds_model(r.subcommands@) =~= cmds_model(self.subcommands@));
        }
        r
    }
}

impl Clone for CommandSpec {
    fn clone(&self) -> (r: Self)
        ensures
            r@ == self@,
    {
        self.duplicate()
    }
}

} // verus!
