//! What handlers and autocomplete functions are given.

use crate::bindings::Bindings;
use crate::value::OptionType;
use vstd::prelude::*;

verus! {

/// The value the user is providing to the argument.
#[derive(Debug, Clone)]
pub struct Focused {
    pub input: String,
    pub kind: OptionType,
}

/// Context given to all functions used to autocomplete arguments.
pub struct AutocompleteContext<'a, D: Bindings> {
    /// The http client used by the framework.
    pub http_client: &'a D::Client,
    /// The data shared across the framework.
    pub data: &'a D::Data,
    /// The user input.
    pub user_input: Focused,
    /// The interaction itself, as the transport delivered it.
    pub interaction: &'a mut D::Source,
}

impl<'a, D: Bindings> AutocompleteContext<'a, D> {
    /// Creates a new context.
    pub fn new(
        http_client: &'a D::Client,
        data: &'a D::Data,
        user_input: Focused,
        interaction: &'a mut D::Source,
    ) -> (r: Self)
        ensures
            r.http_client == http_client,
            r.data == data,
            r.user_input == user_input,
            *r.interaction == *old(interaction),
            *final(r.interaction) == *final(interaction),
    {
        Self { http_client, data, user_input, interaction }
    }

    /// Gets the http client used by the framework.
    pub fn http_client(&self) -> (r: &D::Client)
        ensures
            r == self.http_client,
    {
        self.http_client
    }
}

/// Framework context given to all command functions: what a command needs to
/// respond to the interaction and to reach the shared data.
pub struct SlashContext<'a, D: Bindings> {
    /// The http client used by the framework.
    pub http_client: &'a D::Client,
    /// The application id provided to the framework.
    pub application_id: u64,
    /// The data shared across the framework.
    pub data: &'a D::Data,
    /// The interaction itself, as the transport delivered it.
    pub interaction: D::Source,
}

impl<'a, D: Bindings> SlashContext<'a, D> {
    /// Creates a new context.
    pub fn new(
        http_client: &'a D::Client,
        application_id: u64,
        data: &'a D::Data,
        interaction: D::Source,
    ) -> (r: Self)
        ensures
            r == (SlashContext::<D> { http_client, application_id, data, interaction }),
    {
        Self { http_client, application_id, data, interaction }
    }

    /// Gets the http client used by the framework.
    pub fn http_client(&self) -> (r: &D::Client)
        ensures
            r == self.http_client,
    {
        self.http_client
    }
}

} // verus!
