//! The untyped values an interaction carries.

use vstd::prelude::*;

verus! {

/// The wire-level type of an option.
#[derive(Clone, Copy, Debug, PartialEq, Eq, Structural)]
pub enum OptionType {
    SubCommand,
    SubCommandGroup,
    String,
    Integer,
    Boolean,
    User,
    Channel,
    Role,
    Mentionable,
    Number,
    Attachment,
}

/// The id of a channel.
#[derive(Clone, Copy, Debug, PartialEq, Eq, Structural)]
pub struct ChannelId(pub u64);

/// The id of a user.
#[derive(Clone, Copy, Debug, PartialEq, Eq, Structural)]
pub struct UserId(pub u64);

/// The id of a role.
#[derive(Clone, Copy, Debug, PartialEq, Eq, Structural)]
pub struct RoleId(pub u64);

/// The id of something that can be mentioned: a user or a role.
#[derive(Clone, Copy, Debug, PartialEq, Eq, Structural)]
pub struct GenericId(pub u64);

/// The id of an attachment.
#[derive(Clone, Copy, Debug, PartialEq, Eq, Structural)]
pub struct AttachmentId(pub u64);

/// The value of one option, as it arrives.
#[derive(Debug, PartialEq)]
pub enum Value {
    String(String),
    Integer(i64),
    /// A 64-bit float, held as its IEEE 754 bit pattern.
    Number(u64),
    Boolean(bool),
    Channel(ChannelId),
    User(UserId),
    Role(RoleId),
    Mentionable(GenericId),
    Attachment(AttachmentId),
    /// A subcommand with the options given to it.
    SubCommand(Vec<DataOption>),
    /// A group of subcommands; its first option is the subcommand invoked.
    SubCommandGroup(Vec<DataOption>),
    /// The option the user is typing: its raw text and its declared type.
    Focused(String, OptionType),
}

/// A named value in an option list.
#[derive(Debug, PartialEq)]
pub struct DataOption {
    pub name: String,
    pub value: Value,
}

impl OptionType {
    /// The name of this type, as messages give it.
    pub open spec fn label(self) -> Seq<char> {
        match self {
            OptionType::SubCommand => "SubCommand"@,
            OptionType::SubCommandGroup => "SubCommandGroup"@,
            OptionType::String => "String"@,
            OptionType::Integer => "Integer"@,
            OptionType::Boolean => "Boolean"@,
            OptionType::User => "User"@,
            OptionType::Channel => "Channel"@,
            OptionType::Role => "Role"@,
            OptionType::Mentionable => "Mentionable"@,
            OptionType::Number => "Number"@,
            OptionType::Attachment => "Attachment"@,
        }
    }

    /// The name of this type, as messages give it.
    pub fn name(&self) -> (r: &'static str)
        ensures
            r@ == self.label(),
    {
        match self {
            OptionType::SubCommand => "SubCommand",
            OptionType::SubCommandGroup => "SubCommandGroup",
            OptionType::String => "String",
            OptionType::Integer => "Integer",
            OptionType::Boolean => "Boolean",
            OptionType::User => "User",
            OptionType::Channel => "Channel",
            OptionType::Role => "Role",
            OptionType::Mentionable => "Mentionable",
            OptionType::Number => "Number",
            OptionType::Attachment => "Attachment",
        }
    }
}

impl Value {
    /// The wire-level type of a value, which its variant determines; a focused
    /// value has the type it was declared with.
    pub open spec fn kind_of(self) -> OptionType {
        match self {
            Value::String(_) => OptionType::String,
            Value::Integer(_) => OptionType::Integer,
            Value::Number(_) => OptionType::Number,
            Value::Boolean(_) => OptionType::Boolean,
            Value::Channel(_) => OptionType::Channel,
            Value::User(_) => OptionType::User,
            Value::Role(_) => OptionType::Role,
            Value::Mentionable(_) => OptionType::Mentionable,
            Value::Attachment(_) => OptionType::Attachment,
            Value::SubCommand(_) => OptionType::SubCommand,
            Value::SubCommandGroup(_) => OptionType::SubCommandGroup,
            Value::Focused(_, kind) => kind,
        }
    }

    /// The wire-level type of this value.
    pub fn kind(&self) -> (r: OptionType)
        ensures
            r == self.kind_of(),
    {
        match self {
            Value::String(_) => OptionType::String,
            Value::Integer(_) => OptionType::Integer,
            Value::Number(_) => OptionType::Number,
            Value::Boolean(_) => OptionType::Boolean,
            Value::Channel(_) => OptionType::Channel,
            Value::User(_) => OptionType::User,
            Value::Role(_) => OptionType::Role,
            Value::Mentionable(_) => OptionType::Mentionable,
            Value::Attachment(_) => OptionType::Attachment,
            Value::SubCommand(_) => OptionType::SubCommand,
            Value::SubCommandGroup(_) => OptionType::SubCommandGroup,
            Value::Focused(_, kind) => *kind,
        }
    }
}

} // verus!
