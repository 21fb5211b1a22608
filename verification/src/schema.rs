//! The description of the registered commands that is uploaded when they are
//! registered.

use crate::argument::CommandArgument;
use crate::bindings::Bindings;
use crate::command::{Command, Permissions};
use crate::framework::Framework;
use crate::group::{Group, GroupParent, ParentType};
use crate::value::OptionType;
use vstd::prelude::*;

verus! {

/// The description of one argument.
#[derive(Clone, Copy, Debug, PartialEq, Eq)]
pub struct ArgumentSchema {
    /// The wire-level type of the argument.
    pub kind: OptionType,
    /// The name of the argument.
    pub name: &'static str,
    /// The description of the argument.
    pub description: &'static str,
    /// Whether the argument has to be given.
    pub required: bool,
    /// Whether suggestions can be asked for while the user types.
    pub autocomplete: bool,
}

/// The description of a command inside a group.
#[derive(Debug, PartialEq)]
pub struct SubCommandSchema {
    pub name: &'static str,
    pub description: &'static str,
    /// The arguments, in declaration order.
    pub options: Vec<ArgumentSchema>,
}

/// The description of a subgroup.
#[derive(Debug, PartialEq)]
pub struct SubGroupSchema {
    pub name: &'static str,
    pub description: &'static str,
    /// The commands of the subgroup.
    pub options: Vec<SubCommandSchema>,
}

/// What a top-level entry holds below it.
#[derive(Debug, PartialEq)]
pub enum SchemaOptions {
    /// The arguments of a top-level command.
    Arguments(Vec<ArgumentSchema>),
    /// The commands of a simple group.
    SubCommands(Vec<SubCommandSchema>),
    /// The subgroups of a group.
    SubGroups(Vec<SubGroupSchema>),
}

/// The description of a top-level command or group.
#[derive(Debug, PartialEq)]
pub struct CommandSchema {
    pub name: &'static str,
    pub description: &'static str,
    pub options: SchemaOptions,
    /// The permissions a member needs by default.
    pub default_member_permissions: Option<Permissions>,
}

impl<D: Bindings> CommandArgument<D> {
    /// The description of this argument.
    pub open spec fn schema(self) -> ArgumentSchema {
        ArgumentSchema {
            kind: self.ty.wire_type(),
            name: self.name,
            description: self.description,
            required: self.ty.required(),
            autocomplete: self.autocomplete is Some,
        }
    }

    /// Describes this argument.
    pub fn as_option(&self) -> (r: ArgumentSchema)
        ensures
            r == self.schema(),
    {
        ArgumentSchema {
            kind: self.ty.option_type(),
            name: self.name,
            description: self.description,
            required: self.ty.is_required(),
            autocomplete: self.autocomplete.is_some(),
        }
    }
}

/// Whether `options` describe `arguments`, one by one and in order.
pub open spec fn describes_arguments<D: Bindings>(
    options: Seq<ArgumentSchema>,
    arguments: Seq<CommandArgument<D>>,
) -> bool {
    &&& options.len() == arguments.len()
    &&& forall|i: int| 0 <= i < options.len() ==> #[trigger] options[i] == arguments[i].schema()
}

/// Whether `schema` describes `command` as a subcommand.
pub open spec fn describes_subcommand<D: Bindings>(
    schema: SubCommandSchema,
    command: Command<D>,
) -> bool {
    &&& schema.name == command.name
    &&& schema.description == command.description
    &&& describes_arguments(schema.options@, command.arguments@)
}

/// Whether `schemas` describe `commands`, one by one and in order.
pub open spec fn describes_subcommands<D: Bindings>(
    schemas: Seq<SubCommandSchema>,
    commands: Seq<Command<D>>,
) -> bool {
    &&& schemas.len() == commands.len()
    &&& forall|i: int|
        0 <= i < schemas.len() ==> describes_subcommand(#[trigger] schemas[i], commands[i])
}

/// Whether `schema` describes `group`.
pub open spec fn describes_subgroup<D: Bindings>(schema: SubGroupSchema, group: Group<D>) -> bool {
    &&& schema.name == group.name
    &&& schema.description == group.description
    &&& describes_subcommands(schema.options@, group.subcommands.values())
}

/// Whether `options` describe the children of a top-level group: the commands
/// of a simple group, or the subgroups of a group, in the order in which they
/// were registered.
pub open spec fn describes_children<D: Bindings>(options: SchemaOptions, kind: ParentType<D>) -> bool {
    match kind {
        ParentType::Simple(map) => options matches SchemaOptions::SubCommands(schemas)
            && describes_subcommands(schemas@, map.values()),
        ParentType::Group(map) => options matches SchemaOptions::SubGroups(schemas) && {
            &&& schemas@.len() == map.values().len()
            &&& forall|i: int|
                0 <= i < schemas@.len() ==> describes_subgroup(
                    #[trigger] schemas@[i],
                    map.values()[i],
                )
        },
    }
}

/// Whether `schema` describes the top-level command `command`.
pub open spec fn describes_command<D: Bindings>(schema: CommandSchema, command: Command<D>) -> bool {
    &&& schema.name == command.name
    &&& schema.description == command.description
    &&& schema.options matches SchemaOptions::Arguments(options)
    &&& describes_arguments(options@, command.arguments@)
    &&& schema.default_member_permissions == command.required_permissions
}

/// Whether `schema` describes the top-level group `parent`.
pub open spec fn describes_parent<D: Bindings>(schema: CommandSchema, parent: GroupParent<D>) -> bool {
    &&& schema.name == parent.name
    &&& schema.description == parent.description
    &&& describes_children(schema.options, parent.kind)
    &&& schema.default_member_permissions == parent.required_permissions
}

impl<D: Bindings> Framework<D> {
    /// Describes the given arguments, in their order.
    pub fn arg_options(&self, arguments: &Vec<CommandArgument<D>>) -> (r: Vec<ArgumentSchema>)
        ensures
            describes_arguments(r@, arguments@),
    {
        let mut options: Vec<ArgumentSchema> = Vec::with_capacity(arguments.len());
        let mut i: usize = 0;
        while i < arguments.len()
            invariant
                i <= arguments@.len(),
                options@.len() == i,
                forall|j: int| 0 <= j < i ==> #[trigger] options@[j] == arguments@[j].schema(),
            decreases arguments@.len() - i,
        {
            options.push(arguments[i].as_option());
            i += 1;
        }
        options
    }

    /// Creates a subcommand at the given scope.
    pub fn create_subcommand(&self, cmd: &Command<D>) -> (r: SubCommandSchema)
        ensures
            describes_subcommand(r, *cmd),
    {
        SubCommandSchema {
            name: cmd.name,
            description: cmd.description,
            options: self.arg_options(&cmd.arguments),
        }
    }

    /// Describes the commands of a map, in the order of registration.
    fn create_subcommands(&self, map: &crate::command::CommandMap<D>) -> (r: Vec<SubCommandSchema>)
        ensures
            describes_subcommands(r@, map.values()),
    {
        let mut subcommands: Vec<SubCommandSchema> = Vec::new();
        let n = map.len();
        let mut i: usize = 0;
        while i < n
            invariant
                i <= n,
                n == map.values().len(),
                subcommands@.len() == i,
                forall|j: int|
                    0 <= j < i ==> describes_subcommand(#[trigger] subcommands@[j], map.values()[j]),
            decreases n - i,
        {
            subcommands.push(self.create_subcommand(map.value_at(i)));
            i += 1;
        }
        subcommands
    }

    /// Describes the children of a top-level group.
    pub fn create_group(&self, parent: &GroupParent<D>) -> (r: SchemaOptions)
        ensures
            describes_children(r, parent.kind),
    {
        match &parent.kind {
            ParentType::Group(map) => {
                let mut subgroups: Vec<SubGroupSchema> = Vec::new();
                let n = map.len();
                let mut i: usize = 0;
                while i < n
                    invariant
                        i <= n,
                        n == map.values().len(),
                        subgroups@.len() == i,
                        forall|j: int|
                            0 <= j < i ==> describes_subgroup(
                                #[trigger] subgroups@[j],
                                map.values()[j],
                            ),
                    decreases n - i,
                {
                    let group = map.value_at(i);
                    subgroups.push(
                        SubGroupSchema {
                            name: group.name,
                            description: group.description,
                            options: self.create_subcommands(&group.subcommands),
                        },
                    );
                    i += 1;
                }
                SchemaOptions::SubGroups(subgroups)
            },
            ParentType::Simple(map) => SchemaOptions::SubCommands(self.create_subcommands(map)),
        }
    }

    /// Describes everything that is registered: the top-level commands first,
    /// then the groups, each in the order of registration.
    pub fn command_schemas(&self) -> (r: Vec<CommandSchema>)
        ensures
            r@.len() == self.commands.values().len() + self.groups.values().len(),
            forall|i: int|
                0 <= i < self.commands.values().len() ==> describes_command(
                    #[trigger] r@[i],
                    self.commands.values()[i],
                ),
            forall|i: int|
                0 <= i < self.groups.values().len() ==> describes_parent(
                    #[trigger] r@[self.commands.values().len() + i],
                    self.groups.values()[i],
                ),
    {
        let mut schemas: Vec<CommandSchema> = Vec::new();
        let n = self.commands.len();
        let mut i: usize = 0;
        while i < n
            invariant
                i <= n,
                n == self.commands.values().len(),
                schemas@.len() == i,
                forall|j: int|
                    0 <= j < i ==> describes_command(
                        #[trigger] schemas@[j],
                        self.commands.values()[j],
                    ),
            decreases n - i,
        {
            let cmd = self.commands.value_at(i);
            schemas.push(
                CommandSchema {
                    name: cmd.name,
                    description: cmd.description,
                    options: SchemaOptions::Arguments(self.arg_options(&cmd.arguments)),
                    default_member_permissions: cmd.required_permissions,
                },
            );
            i += 1;
        }
        let m = self.groups.len();
        let mut k: usize = 0;
        while k < m
            invariant
                k <= m,
                n == self.commands.values().len(),
                m == self.groups.values().len(),
                schemas@.len() == n + k,
                forall|j: int|
                    0 <= j < n ==> describes_command(
                        #[trigger] schemas@[j],
                        self.commands.values()[j],
                    ),
                forall|j: int|
                    0 <= j < k ==> describes_parent(
                        #[trigger] schemas@[n + j],
                        self.groups.values()[j],
                    ),
            decreases m - k,
        {
            let group = self.groups.value_at(k);
            schemas.push(
                CommandSchema {
                    name: group.name,
                    description: group.description,
                    options: self.create_group(group),
                    default_member_permissions: group.required_permissions,
                },
            );
            k += 1;
        }
        schemas
    }
}

} // verus!
