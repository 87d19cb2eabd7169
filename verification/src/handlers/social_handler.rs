//! Selection of targets and the delivery of whispers.

use crate::character::character_fields::CharacterFields;
use crate::character::character_manager::CharacterManager;
use crate::character::character_name::name_key;
use crate::client_manager::{first_playing, name_search, ClientError, ClientManager};
use crate::guid::Guid;
use vstd::prelude::*;

verus! {

/// What the sender of a whisper to an unknown name is told.
pub const NO_PLAYER_BY_THAT_NAME: &'static str = "No player by that name";

/// Where a whisper goes.
#[derive(PartialEq, Eq, Structural, Clone, Copy, Debug)]
pub enum WhisperDelivery {
    /// To the client with this connection id, which plays the character
    /// named.
    ToReceiver(u64),
    /// No client plays a character of that name: the sender, whose client
    /// has this connection id, is told so.
    NoSuchPlayer(u64),
}

/// Where a whisper from character `sender` to the character named
/// `receiver_name` goes: to the client found by `name_search`, or, when
/// none is found for any reason, back to the first client, in the
/// registry's order, that plays the sender.
/// An error when no client plays the sender either.
pub fn whisper_delivery<S, C>(
    client_manager: &ClientManager<S>,
    character_manager: &CharacterManager<C>,
    sender: Guid,
    receiver_name: &str,
) -> (r: Result<WhisperDelivery, ClientError>)
    requires
        client_manager.wf(),
        character_manager.wf(),
    ensures
        match name_search(client_manager@, character_manager@, name_key(receiver_name@), 0) {
            Ok(i) => r == Ok::<WhisperDelivery, ClientError>(
                WhisperDelivery::ToReceiver(client_manager@[i].id),
            ),
            Err(_) => match r {
                Ok(WhisperDelivery::NoSuchPlayer(id)) => exists|j: int|
                    #[trigger] first_playing(client_manager@, j, sender) && client_manager@[j].id == id,
                Ok(WhisperDelivery::ToReceiver(_)) => false,
                Err(e) => e == ClientError::CharacterNotPlayed && forall|j: int|
                    0 <= j < client_manager@.len() ==> client_manager@[j].data.active_character
                        != Some(sender),
            },
        },
{
    match client_manager.find_client_from_active_character_name(receiver_name, character_manager) {
        Ok(receiving_client) => Ok(WhisperDelivery::ToReceiver(receiving_client.id)),
        Err(_) => {
            let client = client_manager.find_client_from_active_character_guid(sender)?;
            let ghost j = choose|j: int|
                #[trigger] first_playing(client_manager@, j, sender) && client_manager@[j] == *client;
            assert(client_manager@[j].id == client.id);
            Ok(WhisperDelivery::NoSuchPlayer(client.id))
        },
    }
}

/// The client selected a target: a zero target clears the selection.
pub fn handle_cmsg_set_selection(fields: &mut CharacterFields, target: Guid)
    ensures
        final(fields).unit_target == Some(target),
        final(fields).unit_bytes_0 == old(fields).unit_bytes_0,
        final(fields).unit_bytes_1 == old(fields).unit_bytes_1,
        final(fields).unit_flags == old(fields).unit_flags,
        final(fields).player_features == old(fields).player_features,
{
    let selection = if target.0 == 0 {
        None
    } else {
        Some(target)
    };
    fields.set_selection(selection);
}

} // verus!
