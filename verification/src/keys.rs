//! The key bindings: which key sends which message, whether the platform's
//! global key hooks are in place, and what is reported to the UI about it.
//!
//! Installing the hooks is the program's work. It hands in the outcome and
//! asks, for each key press a hook reports, which message to send.

use vstd::prelude::*;
use std::collections::HashMap;
use crate::message::Message;

verus! {

broadcast use vstd::std_specs::hash::group_hash_axioms;

/// The plain values of the bindings.
pub struct KeyModel {
    /// The message each bound key sends.
    pub bindings: Map<u32, Message>,
    /// Whether the global key hooks are installed.
    pub active: bool,
}

impl KeyModel {
    /// What a press of `key` sends: the bound message while the hooks are
    /// installed, nothing otherwise.
    pub open spec fn dispatched(self, key: u32) -> Option<Message> {
        if self.active && self.bindings.contains_key(key) {
            Some(self.bindings[key])
        } else {
            None
        }
    }
}

/// The table of key bindings and the state of the key hooks.
pub struct KeyBindings {
    table: HashMap<u32, Message>,
    active: bool,
}

impl View for KeyBindings {
    type V = KeyModel;

    closed spec fn view(&self) -> KeyModel {
        KeyModel { bindings: self.table@, active: self.active }
    }
}

impl KeyBindings {
    /// No binding, and no hook installed.
    pub fn new() -> (k: KeyBindings)
        ensures
            k@.bindings == Map::<u32, Message>::empty(),
            !k@.active,
    {
        KeyBindings { table: HashMap::new(), active: false }
    }

    /// Binds `key` to `message`, in place of what it was bound to.
    pub fn bind(&mut self, key: u32, message: Message)
        ensures
            final(self)@.bindings == old(self)@.bindings.insert(key, message),
            final(self)@.active == old(self)@.active,
    {
        self.table.insert(key, message);
    }

    /// Records whether the platform installed the global key hooks and
    /// answers the capability flag that the startup sequence reports to the
    /// UI. A refusal is no error: the flag is false.
    pub fn installed(&mut self, hooked: bool) -> (flag: bool)
        ensures
            final(self)@.bindings == old(self)@.bindings,
            final(self)@.active == hooked,
            flag == hooked,
    {
        self.active = hooked;
        hooked
    }

    /// Whether native key bindings are active.
    pub fn active(&self) -> (a: bool)
        ensures
            a == self@.active,
    {
        self.active
    }

    /// The message a press of `key` sends, if any.
    pub fn dispatch(&self, key: u32) -> (m: Option<Message>)
        ensures
            m == self@.dispatched(key),
    {
        if !self.active {
            return None;
        }
        match self.table.get(&key) {
            Some(message) => Some(*message),
            None => None,
        }
    }
}

/// Without the hooks no key sends anything, whatever is bound.
pub proof fn lemma_inactive_bindings_are_silent(k: KeyModel, key: u32)
    requires
        !k.active,
    ensures
        k.dispatched(key) is None,
{
}

} // verus!
