//! Groups of commands.

use crate::bindings::Bindings;
use crate::command::{CommandMap, Permissions};
use crate::map::NameMap;
use vstd::prelude::*;

verus! {

/// A map of [subgroups](Group) by name.
pub type GroupMap<D> = NameMap<Group<D>>;

/// A map of [top-level groups](GroupParent) by name.
pub type ParentGroupMap<D> = NameMap<GroupParent<D>>;

/// A group inside a top-level group, holding subcommands.
pub struct Group<D: Bindings> {
    /// The name of the subgroup.
    pub name: &'static str,
    /// The description of the subgroup.
    pub description: &'static str,
    /// The commands of the subgroup.
    pub subcommands: CommandMap<D>,
}

/// What a top-level group holds: either commands, or subgroups of commands.
pub enum ParentType<D: Bindings> {
    /// The group holds subcommands directly.
    Simple(CommandMap<D>),
    /// The group holds subgroups.
    Group(GroupMap<D>),
}

/// A top-level group.
pub struct GroupParent<D: Bindings> {
    /// The name of the group.
    pub name: &'static str,
    /// The description of the group.
    pub description: &'static str,
    /// The children of the group.
    pub kind: ParentType<D>,
    /// The permissions a member needs to use the commands of this group.
    pub required_permissions: Option<Permissions>,
}

impl<D: Bindings> ParentType<D> {
    /// The subcommands, if this group holds them directly.
    pub fn as_simple(&self) -> (r: Option<&CommandMap<D>>)
        ensures
            r == (match *self {
                ParentType::Simple(map) => Some(&map),
                ParentType::Group(_) => None,
            }),
    {
        match self {
            ParentType::Simple(map) => Some(map),
            ParentType::Group(_) => None,
        }
    }

    /// The subgroups, if this group holds subgroups.
    pub fn as_group(&self) -> (r: Option<&GroupMap<D>>)
        ensures
            r == (match *self {
                ParentType::Group(map) => Some(&map),
                ParentType::Simple(_) => None,
            }),
    {
        match self {
            ParentType::Group(map) => Some(map),
            ParentType::Simple(_) => None,
        }
    }
}

} // verus!
