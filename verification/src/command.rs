//! The public handle around a compiled command tree: the root specification
//! together with a pre-extracted wrapper for every subcommand, so that a
//! caller can walk the subcommand hierarchy without re-inspecting the
//! specification tree.

use vstd::prelude::*;

use crate::builder::{compile_document, spec_compile};
use crate::config::ConfigValue;
use crate::errors::{BuildError, ErrorModel};
use crate::tree::{cmd_model, cmds_model, lemma_cmds_model_index, CommandModel, CommandSpec};

verus! {

/// A compiled command: its name, its specification, and a wrapper for each
/// of its subcommands, in order.
#[derive(Debug, PartialEq, Eq)]
pub struct Command {
    pub name: String,
    pub command: CommandSpec,
    pub subcommands: Vec<Command>,
}

/// The wrapper mirrors its specification: the name is the specification's
/// name, and the wrapped subcommands match the specification's subcommands
/// one for one, recursively.
pub open spec fn wrap_consistent(w: Command) -> bool
    decreases w,
{
    &&& w.name@ == cmd_model(w.command).name
    &&& w.subcommands@.len() == w.command.subcommands@.len()
    &&& forall|i: int|
        0 <= i < w.subcommands@.len() ==> {
            &&& cmd_model((#[trigger] w.subcommands@[i]).command) == cmd_model(
                w.command.subcommands@[i],
            )
            &&& wrap_consistent(w.subcommands@[i])
        }
}

impl Command {
    /// Compiles a configuration document and wraps the resulting tree.
    pub fn new(config: &ConfigValue) -> (r: Result<Command, BuildError>)
        ensures
            match r {
                Ok(w) => spec_compile(*config) == Ok::<CommandModel, ErrorModel>(cmd_model(
                    w.command,
                )) && wrap_consistent(w),
                Err(e) => spec_compile(*config) == Err::<CommandModel, ErrorModel>(e@),
            },
    {
        match compile_document(config) {
            Err(e) => Err(e),
            Ok(command) => {
                let name = command.get_name().clone();
                let subcommands = Command::extract_subcommands(&command);
                proof {
                    lemma_cmds_model_index(command.subcommands@);
                }
                Ok(Command { name, command, subcommands })
            },
        }
    }

    /// The compiled command's name.
    pub fn get_name(&self) -> (r: &String)
        ensures
            r@ == self.name@,
            wrap_consistent(*self) ==> r@ == cmd_model(self.command).name,
    {
        &self.name
    }

    /// The compiled command specification.
    pub fn get_command(&self) -> (r: &CommandSpec)
        ensures
            *r == self.command,
    {
        &self.command
    }

    /// The wrapped subcommands, in source order.
    pub fn get_subcommands(&self) -> (r: &Vec<Command>)
        ensures
            *r == self.subcommands,
    {
        &self.subcommands
    }

    /// Builds a wrapper for every subcommand of `command`, recursively.
    fn extract_subcommands(command: &CommandSpec) -> (r: Vec<Command>)
        ensures
            r@.len() == command.subcommands@.len(),
            forall|i: int|
                0 <= i < r@.len() ==> {
                    &&& cmd_model((#[trigger] r@[i]).command) == cmd_model(
                        command.subcommands@[i],
                    )
                    &&& wrap_consistent(r@[i])
                },
        decreases *command,
    {
        let mut subcommands: Vec<Command> = Vec::new();
        let n = command.subcommands.len();
        for i in 0..n
            invariant
                n == command.subcommands@.len(),
                subcommands@.len() == i,
                forall|j: int|
                    0 <= j < i ==> {
                        &&& cmd_model((#[trigger] subcommands@[j]).command) == cmd_model(
                            command.subcommands@[j],
                        )
                        &&& wrap_consistent(subcommands@[j])
                    },
        {
            let sub = &command.subcommands[i];
            proof {
                assert(decreases_to!(*command => command.subcommands));
                assert(decreases_to!(command.subcommands => command.subcommands@));
                assert(decreases_to!(command.subcommands@ => command.subcommands@[i as int]));
            }
            let sub_subcommands = Command::extract_subcommands(sub);
            let copy = sub.duplicate();
            proof {
                lemma_cmds_model_index(copy.subcommands@);
                lemma_cmds_model_index(sub.subcommands@);
            }
            let wrapped = Command {
                name: sub.get_name().clone(),
                command: copy,
                subcommands: sub_subcommands,
            };
            proof {
                assert forall|k: int| 0 <= k < wrapped.subcommands@.len() implies {
                    &&& cmd_model((#[trigger] wrapped.subcommands@[k]).command) == cmd_model(
                        wrapped.command.subcommands@[k],
                    )
                    &&& wrap_consistent(wrapped.subcommands@[k])
                } by {
                    assert(cmds_model(copy.subcommands@)[k] == cmd_model(copy.subcommands@[k]));
                    assert(cmds_model(sub.subcommands@)[k] == cmd_model(sub.subcommands@[k]));
                }
                assert(wrap_consistent(wrapped));
            }
            subcommands.push(wrapped);
        }
        subcommands
    }
}

} // verus!
