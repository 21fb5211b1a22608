//! Buttons.

use crate::bindings::Bindings;
use crate::command::Permissions;
use crate::map::NameMap;
use vstd::prelude::*;

verus! {

/// A map of [buttons](Button) by name.
pub type ButtonMap<D> = NameMap<Button<D>>;

/// A button executed by the framework.
pub struct Button<D: Bindings> {
    /// The name of the button.
    pub name: &'static str,
    /// The description of the button.
    pub description: &'static str,
    /// A reference to this button's function.
    pub fun: D::Handler,
    /// The permissions a member needs to use this button.
    pub required_permissions: Option<Permissions>,
}

impl<D: Bindings> Button<D> {
    /// Creates a new button around its function, with an empty name, an empty
    /// description and no required permissions.
    pub fn new(fun: D::Handler) -> (r: Self)
        ensures
            r.name@.len() == 0,
            r.description@.len() == 0,
            r.fun == fun,
            r.required_permissions is None,
    {
        proof {
            reveal_strlit("");
        }
        Button { name: "", description: "", fun, required_permissions: None }
    }

    /// Sets the button name.
    pub fn name(self, name: &'static str) -> (r: Self)
        ensures
            r == (Button { name, ..self }),
    {
        let mut button = self;
        button.name = name;
        button
    }

    /// Sets the button description.
    pub fn description(self, description: &'static str) -> (r: Self)
        ensures
            r == (Button { description, ..self }),
    {
        let mut button = self;
        button.description = description;
        button
    }

    /// Sets the permissions a member needs to use the button.
    pub fn required_permissions(self, permissions: Permissions) -> (r: Self)
        ensures
            r == (Button { required_permissions: Some(permissions), ..self }),
    {
        let mut button = self;
        button.required_permissions = Some(permissions);
        button
    }
}

} // verus!
