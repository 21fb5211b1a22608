//! Building a framework.

use crate::bindings::Bindings;
use crate::command::{Command, CommandMap};
use crate::framework::Framework;
use crate::group::{GroupParent, ParentGroupMap};
use crate::map::NameMap;
use crate::waiter::{guarded, Waiters};
use vstd::prelude::*;

verus! {

/// Collects what a [`Framework`] is made of.
pub struct FrameworkBuilder<D: Bindings> {
    /// The http client used by the framework.
    pub http_client: D::Client,
    /// The application id of the client.
    pub application_id: u64,
    /// Data shared across all command and hook invocations.
    pub data: D::Data,
    /// The top-level commands.
    pub commands: CommandMap<D>,
    /// The top-level groups.
    pub groups: ParentGroupMap<D>,
    /// A hook executed before the command.
    pub before: Option<D::Check>,
    /// A hook executed after command's execution.
    pub after: Option<D::After>,
}

impl<D: Bindings> FrameworkBuilder<D> {
    /// Starts with no commands, no groups and no hooks.
    pub fn new(http_client: D::Client, application_id: u64, data: D::Data) -> (r: Self)
        ensures
            r.http_client == http_client,
            r.application_id == application_id,
            r.data == data,
            r.commands@ == Map::<Seq<char>, Command<D>>::empty(),
            r.commands.keys() == Seq::<Seq<char>>::empty(),
            r.commands.values() == Seq::<Command<D>>::empty(),
            r.groups@ == Map::<Seq<char>, GroupParent<D>>::empty(),
            r.groups.keys() == Seq::<Seq<char>>::empty(),
            r.groups.values() == Seq::<GroupParent<D>>::empty(),
            r.before is None,
            r.after is None,
    {
        FrameworkBuilder {
            http_client,
            application_id,
            data,
            commands: NameMap::new(),
            groups: NameMap::new(),
            before: None,
            after: None,
        }
    }

    /// Sets the hook that is executed before the command and decides whether
    /// it runs.
    pub fn before(self, hook: D::Check) -> (r: Self)
        ensures
            r == (FrameworkBuilder { before: Some(hook), ..self }),
    {
        let mut builder = self;
        builder.before = Some(hook);
        builder
    }

    /// Sets the hook that is executed after the command.
    pub fn after(self, hook: D::After) -> (r: Self)
        ensures
            r == (FrameworkBuilder { after: Some(hook), ..self }),
    {
        let mut builder = self;
        builder.after = Some(hook);
        builder
    }

    /// Registers a top-level command under its name. A command already
    /// registered under that name is replaced and keeps its place; a new name
    /// goes last.
    pub fn command(self, command: Command<D>) -> (r: Self)
        ensures
            r == (FrameworkBuilder { commands: r.commands, ..self }),
            r.commands@ == self.commands@.insert(command.name@, command),
            self.commands@.contains_key(command.name@) ==> r.commands.keys()
                == self.commands.keys() && r.commands.values() == self.commands.values().update(
                self.commands.keys().index_of(command.name@),
                command,
            ),
            !self.commands@.contains_key(command.name@) ==> r.commands.keys()
                == self.commands.keys().push(command.name@) && r.commands.values()
                == self.commands.values().push(command),
    {
        let mut builder = self;
        let name = command.name;
        builder.commands.insert(name, command);
        builder
    }

    /// Registers a top-level group under its name. A group already
    /// registered under that name is replaced and keeps its place; a new name
    /// goes last.
    pub fn group(self, group: GroupParent<D>) -> (r: Self)
        ensures
            r == (FrameworkBuilder { groups: r.groups, ..self }),
            r.groups@ == self.groups@.insert(group.name@, group),
            self.groups@.contains_key(group.name@) ==> r.groups.keys() == self.groups.keys()
                && r.groups.values() == self.groups.values().update(
                self.groups.keys().index_of(group.name@),
                group,
            ),
            !self.groups@.contains_key(group.name@) ==> r.groups.keys() == self.groups.keys().push(
                group.name@,
            ) && r.groups.values() == self.groups.values().push(group),
    {
        let mut builder = self;
        let name = group.name;
        builder.groups.insert(name, group);
        builder
    }

    /// Builds the framework.
    pub fn build(self) -> (r: Framework<D>)
        ensures
            r.built_from(self),
    {
        Framework::from_builder(self)
    }
}

impl<D: Bindings> Framework<D> {
    /// Whether this framework holds what `builder` collected.
    pub open spec fn built_from(self, builder: FrameworkBuilder<D>) -> bool {
        &&& self.http_client == builder.http_client
        &&& self.application_id == builder.application_id
        &&& self.data == builder.data
        &&& self.commands == builder.commands
        &&& self.groups == builder.groups
        &&& self.before == builder.before
        &&& self.after == builder.after
    }

    /// Creates a new framework from the given builder, with no waiters.
    pub fn from_builder(builder: FrameworkBuilder<D>) -> (r: Self)
        ensures
            r.built_from(builder),
    {
        Framework {
            http_client: builder.http_client,
            application_id: builder.application_id,
            data: builder.data,
            commands: builder.commands,
            groups: builder.groups,
            before: builder.before,
            after: builder.after,
            waiters: guarded(Waiters::new()),
        }
    }

    /// Creates a new framework builder.
    pub fn builder(http_client: D::Client, application_id: u64, data: D::Data) -> (r:
        FrameworkBuilder<D>)
        ensures
            r.http_client == http_client,
            r.application_id == application_id,
            r.data == data,
            r.commands@ == Map::<Seq<char>, Command<D>>::empty(),
            r.commands.keys() == Seq::<Seq<char>>::empty(),
            r.commands.values() == Seq::<Command<D>>::empty(),
            r.groups@ == Map::<Seq<char>, GroupParent<D>>::empty(),
            r.groups.keys() == Seq::<Seq<char>>::empty(),
            r.groups.values() == Seq::<GroupParent<D>>::empty(),
            r.before is None,
            r.after is None,
    {
        FrameworkBuilder::new(http_client, application_id, data)
    }

    /// Gets the http client used by the framework.
    pub fn http_client(&self) -> (r: &D::Client)
        ensures
            *r == self.http_client,
    {
        &self.http_client
    }
}

} // verus!
