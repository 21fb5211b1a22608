//! The types an application plugs into the dispatcher.

use crate::framework::Framework;
use vstd::prelude::*;

verus! {

/// Names the application's own types that the dispatcher stores and hands
/// back without ever looking inside them.
///
/// The dispatcher decides which handler or hook has to run; running it is the
/// caller's part. So handlers and hooks are kept as opaque references here.
pub trait Bindings: Sized {
    /// The client that commands use to answer an interaction.
    type Client;

    /// Data shared by every command and hook invocation.
    type Data;

    /// A reference to the function that executes a command or a button.
    type Handler;

    /// A reference to a function that decides whether a command may run.
    type Check;

    /// A reference to the function that runs after a command has executed.
    type After;

    /// A reference to the function that suggests values for an argument.
    type Autocomplete;

    /// An interaction as the transport delivers it, with all it holds. The
    /// dispatcher reads none of it: it shows it to the predicates of waiters
    /// and carries it in the contexts.
    type Source;

    /// A predicate that a waiter applies to the dispatcher and to an incoming
    /// interaction, to tell whether it is the one it waits for.
    type Predicate: Fn(&Framework<Self>, &Self::Source) -> bool;

    /// The sending half of a one-shot slot that hands an interaction to a
    /// suspended handler.
    type Slot;

    /// A message as the transport delivers it.
    type Message;
}

} // verus!
