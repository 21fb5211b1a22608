//! Messages.

use crate::bindings::Bindings;
use crate::context::SlashContext;
use vstd::prelude::*;

verus! {

/// A message of the transport together with the context it was sent in.
pub struct Message<'a, D: Bindings> {
    inner: D::Message,
    context: &'a SlashContext<'a, D>,
}

impl<'a, D: Bindings> Message<'a, D> {
    /// The message of the transport.
    pub closed spec fn inner(self) -> D::Message {
        self.inner
    }

    /// The context the message was sent in.
    pub closed spec fn context(self) -> &'a SlashContext<'a, D> {
        self.context
    }

    /// Creates a new message.
    pub fn new(context: &'a SlashContext<'a, D>, msg: D::Message) -> (r: Self)
        ensures
            r.inner() == msg,
            r.context() == context,
    {
        Self { inner: msg, context }
    }

    /// The message of the transport.
    pub fn get(&self) -> (r: &D::Message)
        ensures
            *r == self.inner(),
    {
        &self.inner
    }

    /// The message of the transport, to be changed in place. The context stays
    /// as it is.
    pub fn get_mut(&mut self) -> (r: &mut D::Message)
        ensures
            *r == old(self).inner(),
            final(self).inner() == *final(r),
            final(self).context() == old(self).context(),
    {
        &mut self.inner
    }

    /// The message of the transport, given up by this wrapper.
    pub fn into_inner(self) -> (r: D::Message)
        ensures
            r == self.inner(),
    {
        self.inner
    }
}

} // verus!
