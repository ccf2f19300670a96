//! The server's table of connected clients: each connection gets the next
//! client number, and a number is never handed out twice.
use std::collections::HashMap;
use vstd::prelude::*;
use crate::message::MessageKind;

verus! {

broadcast use vstd::std_specs::hash::group_hash_axioms;

/// Connected clients by client number; `C` is the type of a connection.
pub struct ClientRegistry<C> {
    pub clients: HashMap<usize, C>,
    /// The number the next client gets.
    pub next_client_id: usize,
}

impl<C> ClientRegistry<C> {
    /// Every registered number is below the next one.
    pub open spec fn well_formed(&self) -> bool {
        forall|id: usize| #[trigger] self.clients@.contains_key(id) ==> id < self.next_client_id
    }

    /// An empty table whose first client gets number 0.
    pub fn new() -> (r: ClientRegistry<C>)
        ensures
            r.clients@ == Map::<usize, C>::empty(),
            r.next_client_id == 0,
            r.well_formed(),
    {
        ClientRegistry { clients: HashMap::new(), next_client_id: 0 }
    }

    /// Adds a connection under the next client number and returns that number.
    pub fn register(&mut self, client: C) -> (id: usize)
        requires
            old(self).well_formed(),
            old(self).next_client_id < usize::MAX,
        ensures
            id == old(self).next_client_id,
            !old(self).clients@.contains_key(id),
            final(self).clients@ == old(self).clients@.insert(id, client),
            final(self).next_client_id == old(self).next_client_id + 1,
            final(self).well_formed(),
    {
        let id = self.next_client_id;
        self.next_client_id = id + 1;
        self.clients.insert(id, client);
        id
    }

    /// Drops the connection of client `id`, if there is one.
    pub fn remove(&mut self, id: usize)
        requires
            old(self).well_formed(),
        ensures
            final(self).clients@ == old(self).clients@.remove(id),
            final(self).next_client_id == old(self).next_client_id,
            final(self).well_formed(),
    {
        self.clients.remove(&id);
    }

    /// The connection of client `id`, if there is one.
    pub fn get(&self, id: usize) -> (r: Option<&C>)
        ensures
            match r {
                Some(c) => self.clients@.contains_key(id) && self.clients@[id] == *c,
                None => !self.clients@.contains_key(id),
            },
    {
        self.clients.get(&id)
    }
}

/// What the server does with one read from a client's connection.
#[derive(Clone, Copy, PartialEq, Eq, Structural, Debug)]
pub enum ClientAction {
    /// The read failed: drop the client from the table and stop reading from it.
    Disconnect,
    /// The client sent an action: hand it to the battle.
    Perform,
    /// The client sent an event: show its code.
    ShowEvent { code: u8 },
    /// The client sent a text: show it.
    ShowText,
    /// The client sent a battle update: show what kind of message it is.
    ShowUpdate,
}

/// The server's response to a read from a client: `received` is the message
/// read, or `None` when the read failed.
pub fn client_action<H>(received: Option<&MessageKind<H>>) -> (a: ClientAction)
    ensures
        match received {
            None => a == ClientAction::Disconnect,
            Some(MessageKind::Action { .. }) => a == ClientAction::Perform,
            Some(MessageKind::Event { code }) => a == (ClientAction::ShowEvent { code: *code }),
            Some(MessageKind::Text { .. }) => a == ClientAction::ShowText,
            Some(MessageKind::BattleUpdate { .. }) => a == ClientAction::ShowUpdate,
        },
{
    match received {
        None => ClientAction::Disconnect,
        Some(MessageKind::Action { .. }) => ClientAction::Perform,
        Some(MessageKind::Event { code }) => ClientAction::ShowEvent { code: *code },
        Some(MessageKind::Text { .. }) => ClientAction::ShowText,
        Some(MessageKind::BattleUpdate { .. }) => ClientAction::ShowUpdate,
    }
}

/// Two clients registered one after the other get different numbers, and the
/// first is still registered after the second.
pub proof fn lemma_numbers_not_reused<C>(r: ClientRegistry<C>, a: C, b: C)
    requires
        r.well_formed(),
        r.next_client_id + 1 < usize::MAX,
    ensures
        ({
            let first = r.next_client_id;
            let after_first = r.clients@.insert(first, a);
            let second = (r.next_client_id + 1) as usize;
            &&& first != second
            &&& !after_first.contains_key(second)
            &&& after_first.insert(second, b).contains_key(first)
        }),
{
}

} // verus!
