//! A client of the world server: a connection that completed the
//! authentication handshake, with the account it logged into and the
//! character it plays, if any.

use crate::guid::Guid;
use crate::handlers::login_handler::LogoutState;
use vstd::prelude::*;

verus! {

/// Where a client is in its session.
#[derive(PartialEq, Eq, Structural, Clone, Copy, Debug)]
pub enum ClientState {
    PreLogin,
    CharacterSelection,
    /// The connection closed; the client is cleaned up at the next tick.
    DisconnectPendingCleanup,
    /// Cleaned up; the client is removed at the next tick.
    Disconnected,
}

/// The session data of a client.
#[derive(PartialEq, Eq, Structural, Clone, Copy, Debug)]
pub struct ClientData {
    pub client_state: ClientState,
    pub account_id: u32,
    pub active_character: Option<Guid>,
}

/// A client, known by the id of its connection. `Sender` is how messages
/// reach the connection.
pub struct Client<Sender> {
    pub id: u64,
    pub connection_sender: Sender,
    pub data: ClientData,
}

impl<Sender> Client<Sender> {
    /// A client that just logged into `account_id`: it is at character
    /// selection and plays no character.
    pub fn new(id: u64, account_id: u32, connection_sender: Sender) -> (r: Self)
        ensures
            r.id == id,
            r.connection_sender == connection_sender,
            r.data == (ClientData {
                client_state: ClientState::CharacterSelection,
                account_id,
                active_character: None,
            }),
    {
        Client {
            id,
            connection_sender,
            data: ClientData {
                client_state: ClientState::CharacterSelection,
                account_id,
                active_character: None,
            },
        }
    }

    /// The client's part of a server tick, once its active character has
    /// had its own tick and is in `logout_state`: a character that logged
    /// out leaves, and the client returns to character selection.
    pub fn tick(&mut self, logout_state: LogoutState)
        ensures
            final(self).id == old(self).id,
            final(self).connection_sender == old(self).connection_sender,
            old(self).data.active_character is Some && logout_state == LogoutState::ReturnToCharSelect
                ==> final(self).data == (ClientData {
                client_state: ClientState::CharacterSelection,
                active_character: None,
                ..old(self).data
            }),
            !(old(self).data.active_character is Some && logout_state
                == LogoutState::ReturnToCharSelect) ==> final(self).data == old(self).data,
    {
        if self.data.active_character.is_some() {
            if let LogoutState::ReturnToCharSelect = logout_state {
                self.data.active_character = None;
                self.data.client_state = ClientState::CharacterSelection;
            }
        }
    }

    /// The character the client plays.
    pub fn get_active_character(&self) -> (r: Guid)
        requires
            self.data.active_character is Some,
        ensures
            self.data.active_character == Some(r),
    {
        self.data.active_character.unwrap()
    }

    /// The cleanup of a closed connection is done: the client is
    /// disconnected and plays no character.
    pub fn disconnected_post_cleanup(&mut self)
        ensures
            final(self).id == old(self).id,
            final(self).connection_sender == old(self).connection_sender,
            final(self).data == (ClientData {
                client_state: ClientState::Disconnected,
                active_character: None,
                ..old(self).data
            }),
    {
        self.data.client_state = ClientState::Disconnected;
        self.data.active_character = None;
    }

    /// Whether the client completed the login.
    pub fn is_authenticated(&self) -> (r: bool)
        ensures
            r == (self.data.client_state != ClientState::PreLogin),
    {
        !matches!(self.data.client_state, ClientState::PreLogin)
    }

    /// Makes `character_guid` the character the client plays.
    pub fn set_active_character(&mut self, character_guid: Guid)
        ensures
            final(self).id == old(self).id,
            final(self).connection_sender == old(self).connection_sender,
            final(self).data == (ClientData {
                active_character: Some(character_guid),
                ..old(self).data
            }),
    {
        self.data.active_character = Some(character_guid);
    }
}

} // verus!
