//! Commands.

use crate::argument::CommandArgument;
use crate::bindings::Bindings;
use crate::map::NameMap;
use vstd::prelude::*;

verus! {

/// A set of permissions, one bit each.
#[derive(Clone, Copy, Debug, PartialEq, Eq, Structural)]
pub struct Permissions {
    pub bits: u64,
}

/// A map of [commands](Command) by name.
pub type CommandMap<D> = NameMap<Command<D>>;

/// A command executed by the framework.
pub struct Command<D: Bindings> {
    /// The name of the command.
    pub name: &'static str,
    /// The description of the command.
    pub description: &'static str,
    /// All the arguments the command requires, in declaration order.
    pub arguments: Vec<CommandArgument<D>>,
    /// A reference to this command's function.
    pub fun: D::Handler,
    /// The permissions a member needs to use this command.
    pub required_permissions: Option<Permissions>,
    /// The checks that have to pass before this command runs.
    pub checks: Vec<D::Check>,
}

impl<D: Bindings> Command<D> {
    /// Creates a new command around its function, with an empty name, an
    /// empty description, no arguments, no checks and no required permissions.
    pub fn new(fun: D::Handler) -> (r: Self)
        ensures
            r.name@.len() == 0,
            r.description@.len() == 0,
            r.arguments@.len() == 0,
            r.fun == fun,
            r.required_permissions is None,
            r.checks@.len() == 0,
    {
        proof {
            reveal_strlit("");
        }
        Command {
            name: "",
            description: "",
            arguments: Vec::new(),
            fun,
            required_permissions: None,
            checks: Vec::new(),
        }
    }

    /// Sets the command name.
    pub fn name(self, name: &'static str) -> (r: Self)
        ensures
            r == (Command { name, ..self }),
    {
        let mut command = self;
        command.name = name;
        command
    }

    /// Sets the command description.
    pub fn description(self, description: &'static str) -> (r: Self)
        ensures
            r == (Command { description, ..self }),
    {
        let mut command = self;
        command.description = description;
        command
    }

    /// Adds an argument to the command, behind those it already has.
    pub fn add_argument(self, arg: CommandArgument<D>) -> (r: Self)
        ensures
            r.arguments@ == self.arguments@.push(arg),
            r == (Command { arguments: r.arguments, ..self }),
    {
        let mut command = self;
        command.arguments.push(arg);
        command
    }

    /// Sets the checks of the command.
    pub fn checks(self, checks: Vec<D::Check>) -> (r: Self)
        ensures
            r == (Command { checks, ..self }),
    {
        let mut command = self;
        command.checks = checks;
        command
    }

    /// Sets the permissions a member needs to use the command.
    pub fn required_permissions(self, permissions: Permissions) -> (r: Self)
        ensures
            r == (Command { required_permissions: Some(permissions), ..self }),
    {
        let mut command = self;
        command.required_permissions = Some(permissions);
        command
    }
}

} // verus!
