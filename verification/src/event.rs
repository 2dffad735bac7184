//! Input events, the status a handler reports, and the shell: the
//! caller-supplied buffer into which a widget's event handler emits its
//! output messages during one traversal.

use vstd::prelude::*;
use crate::mapper::{map_vec, MessageMapper};

verus! {

/// One input event, identified by a plain code.
#[derive(Clone, Copy, Debug, PartialEq, Eq, Structural)]
pub struct Event {
    pub code: u64,
}

/// Whether an event handler consumed the event or left it for others.
#[derive(Clone, Copy, Debug, PartialEq, Eq, Structural)]
pub enum Status {
    Ignored,
    Captured,
}

/// The message buffer one event-handling traversal writes into. Its view is
/// the sequence of messages published so far, oldest first.
#[derive(Clone, Debug, PartialEq)]
pub struct Shell<M> {
    messages: Vec<M>,
}

impl<M> View for Shell<M> {
    type V = Seq<M>;

    closed spec fn view(&self) -> Seq<M> {
        self.messages@
    }
}

impl<M> Shell<M> {
    /// A fresh, empty shell.
    pub fn new() -> (s: Shell<M>)
        ensures
            s@ == Seq::<M>::empty(),
    {
        Shell { messages: Vec::new() }
    }

    /// Appends one message.
    pub fn publish(&mut self, message: M)
        ensures
            final(self)@ == old(self)@.push(message),
    {
        self.messages.push(message);
    }

    /// Drains another shell into this one, translating every message through
    /// the mapper and keeping the original order.
    pub fn merge<A, F: MessageMapper<A, M>>(&mut self, other: Shell<A>, mapper: &F)
        ensures
            final(self)@ == old(self)@ + other@.map_values(|a: A| mapper.spec_map(a)),
    {
        let mut translated = map_vec(other.messages, mapper);
        self.messages.append(&mut translated);
    }

    /// Gives the published messages up, oldest first.
    pub fn into_messages(self) -> (v: Vec<M>)
        ensures
            v@ == self@,
    {
        self.messages
    }

    /// The messages published so far, oldest first.
    pub fn messages(&self) -> (v: &Vec<M>)
        ensures
            v@ == self@,
    {
        &self.messages
    }
}

} // verus!
