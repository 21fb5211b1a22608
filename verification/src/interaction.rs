//! Incoming interactions.

use crate::value::DataOption;
use vstd::prelude::*;

verus! {

/// The kind of an interaction.
#[derive(Clone, Copy, Debug, PartialEq, Eq, Structural)]
pub enum InteractionType {
    Ping,
    /// A fresh command invocation.
    ApplicationCommand,
    /// A follow-up action on a message component.
    MessageComponent,
    /// A request for suggestions while the user types an argument.
    ApplicationCommandAutocomplete,
    ModalSubmit,
}

/// The payload of a command invocation or of an autocomplete request.
#[derive(Debug, PartialEq)]
pub struct CommandData {
    /// The name of the top-level command or group.
    pub name: String,
    /// The options given, possibly nested.
    pub options: Vec<DataOption>,
}

/// The payload of an action on a message component or of a submitted modal.
#[derive(Debug, PartialEq)]
pub struct ComponentData {
    /// The id the application gave the component.
    pub custom_id: String,
}

/// The payload of an interaction.
#[derive(Debug, PartialEq)]
pub enum InteractionData {
    ApplicationCommand(CommandData),
    MessageComponent(ComponentData),
    ModalSubmit(ComponentData),
}

/// An inbound request.
#[derive(Debug, PartialEq)]
pub struct Interaction {
    /// The id of the interaction.
    pub id: u64,
    /// The kind of the interaction.
    pub kind: InteractionType,
    /// The payload, where the kind has one.
    pub data: Option<InteractionData>,
}

} // verus!
