use world_server::character::character_manager::{CharacterError, CharacterManager};
use world_server::client::{Client, ClientData, ClientState};
use world_server::client_manager::{ClientError, ClientManager};
use world_server::guid::Guid;
use world_server::handlers::login_handler::LogoutState;
use world_server::handlers::social_handler::{whisper_delivery, WhisperDelivery, NO_PLAYER_BY_THAT_NAME};

#[test]
fn new_client_is_at_character_selection() {
    let c = Client::new(7, 42, "sender");
    assert_eq!(c.id, 7);
    assert_eq!(c.connection_sender, "sender");
    assert_eq!(
        c.data,
        ClientData { client_state: ClientState::CharacterSelection, account_id: 42, active_character: None }
    );
    assert!(c.is_authenticated());
}

#[test]
fn client_tick_returns_a_logged_out_character_to_selection() {
    let mut c = Client::new(1, 2, ());
    c.set_active_character(Guid(9));
    assert_eq!(c.get_active_character(), Guid(9));
    c.tick(LogoutState::Pending(5));
    assert_eq!(c.data.active_character, Some(Guid(9)));
    c.tick(LogoutState::ReturnToCharSelect);
    assert_eq!(c.data.active_character, None);
    assert_eq!(c.data.client_state, ClientState::CharacterSelection);
}

#[test]
fn client_before_login_is_not_authenticated() {
    let mut c = Client::new(1, 2, ());
    c.data.client_state = ClientState::PreLogin;
    assert!(!c.is_authenticated());
    c.disconnected_post_cleanup();
    assert_eq!(c.data.client_state, ClientState::Disconnected);
}

#[test]
fn connected_clients_are_found_by_id() {
    let mut m: ClientManager<u8> = ClientManager::new();
    m.handle_client_connected(10, 100, 1);
    m.handle_client_connected(11, 101, 2);
    assert_eq!(m.get_client(10).unwrap().data.account_id, 100);
    assert_eq!(m.get_client(11).unwrap().connection_sender, 2);
    assert_eq!(m.get_client(12).err(), Some(ClientError::ClientNotFound));
    // A second connection with the same id replaces the first.
    m.handle_client_connected(10, 200, 3);
    assert_eq!(m.get_client(10).unwrap().data.account_id, 200);
}

#[test]
fn disconnected_clients_are_removed_after_two_ticks() {
    let mut m: ClientManager<()> = ClientManager::new();
    m.handle_client_connected(1, 10, ());
    m.handle_client_connected(2, 20, ());
    m.get_client_mut(1).unwrap().set_active_character(Guid(77));
    assert_eq!(m.handle_client_disconnected(1), Ok(()));
    assert_eq!(m.handle_client_disconnected(3), Err(ClientError::ClientNotFound));
    assert_eq!(m.get_client(1).unwrap().data.client_state, ClientState::DisconnectPendingCleanup);

    let started = m.cleanup_disconnected_clients();
    assert_eq!(started, vec![(1, Some(Guid(77)))]);
    let c = m.get_client(1).unwrap();
    assert_eq!(c.data.client_state, ClientState::Disconnected);
    assert_eq!(c.data.active_character, None);

    assert!(m.cleanup_disconnected_clients().is_empty());
    assert_eq!(m.get_client(1).err(), Some(ClientError::ClientNotFound));
    assert_eq!(m.get_client(2).unwrap().data.account_id, 20);
}

#[test]
fn removing_a_client_hands_it_back() {
    let mut m: ClientManager<()> = ClientManager::new();
    m.handle_client_connected(1, 10, ());
    assert_eq!(m.remove_client(1).map(|c| c.data.account_id), Some(10));
    assert!(m.remove_client(1).is_none());
}

#[test]
fn authenticated_client_and_its_character() {
    let mut m: ClientManager<()> = ClientManager::new();
    m.handle_client_connected(1, 10, ());
    m.get_client_mut(1).unwrap().set_active_character(Guid(5));
    assert_eq!(m.get_authenticated_client(1).unwrap().id, 1);
    assert_eq!(m.get_character_from_client(1), Ok(Guid(5)));
    assert_eq!(m.get_character_from_client(2), Err(ClientError::ClientNotFound));
    m.get_client_mut(1).unwrap().data.client_state = ClientState::PreLogin;
    assert_eq!(m.get_authenticated_client(1).err(), Some(ClientError::NotAuthenticated));
    assert_eq!(m.get_character_from_client(1), Err(ClientError::NotAuthenticated));
    assert_eq!(m.get_authenticated_client_mut(1).err(), Some(ClientError::NotAuthenticated));
    m.get_client_mut(1).unwrap().data.client_state = ClientState::CharacterSelection;
    m.get_authenticated_client_mut(1).unwrap().set_active_character(Guid(6));
    assert_eq!(m.get_character_from_client(1), Ok(Guid(6)));
    assert_eq!(m.get_authenticated_client_mut(9).err(), Some(ClientError::ClientNotFound));
}

#[test]
fn clients_are_found_by_their_character() {
    let mut m: ClientManager<()> = ClientManager::new();
    let mut chars: CharacterManager<u32> = CharacterManager::new();
    m.handle_client_connected(1, 10, ());
    m.handle_client_connected(2, 20, ());
    m.get_client_mut(2).unwrap().set_active_character(Guid(50));
    chars.add_character(Guid(50), "Uther".to_string(), 500);
    assert_eq!(m.find_client_from_active_character_guid(Guid(50)).unwrap().id, 2);
    assert_eq!(m.find_client_from_active_character_guid(Guid(51)).err(), Some(ClientError::CharacterNotPlayed));
    assert_eq!(m.find_client_from_active_character_name(" uTHER", &chars).unwrap().id, 2);
    assert_eq!(m.find_client_from_active_character_name("Arthas", &chars).err(), Some(ClientError::CharacterNotPlayed));
    // A client whose character is not in play stops the search.
    m.get_client_mut(1).unwrap().set_active_character(Guid(60));
    assert_eq!(
        m.find_client_from_active_character_name("Uther", &chars).err(),
        Some(ClientError::ActiveCharacterNotInPlay)
    );
}

#[test]
fn characters_in_play_by_guid() {
    let mut chars: CharacterManager<u32> = CharacterManager::new();
    chars.add_character(Guid(1), "A".to_string(), 10);
    chars.add_character(Guid(2), "B".to_string(), 20);
    assert_eq!(chars.find_character(Guid(1)), Some(&10));
    assert_eq!(chars.find_character_name(Guid(2)).map(|s| s.as_str()), Some("B"));
    *chars.get_character_mut(Guid(2)).unwrap() += 1;
    assert_eq!(chars.get_character(Guid(2)), Ok(&21));
    if let Some(c) = chars.find_character_mut(Guid(1)) {
        *c = 11;
    }
    assert_eq!(chars.get_character(Guid(1)), Ok(&11));
    chars.add_character(Guid(1), "A2".to_string(), 12);
    assert_eq!(chars.get_character(Guid(1)), Ok(&12));
    chars.remove_character(Guid(1));
    assert_eq!(chars.get_character(Guid(1)), Err(CharacterError::CharacterNotFound));
    assert!(chars.get_character_mut(Guid(1)).is_err());
    assert!(chars.find_character(Guid(1)).is_none());
    chars.remove_character(Guid(1));
    assert_eq!(chars.get_character(Guid(2)), Ok(&21));
}

#[test]
fn whispers_go_to_the_named_character_or_back() {
    let mut m: ClientManager<()> = ClientManager::new();
    let mut chars: CharacterManager<()> = CharacterManager::new();
    m.handle_client_connected(1, 10, ());
    m.handle_client_connected(2, 20, ());
    m.get_client_mut(1).unwrap().set_active_character(Guid(100));
    m.get_client_mut(2).unwrap().set_active_character(Guid(200));
    chars.add_character(Guid(100), "Jaina".to_string(), ());
    chars.add_character(Guid(200), "Thrall".to_string(), ());
    assert_eq!(whisper_delivery(&m, &chars, Guid(100), "thrall"), Ok(WhisperDelivery::ToReceiver(2)));
    assert_eq!(whisper_delivery(&m, &chars, Guid(100), "Nobody"), Ok(WhisperDelivery::NoSuchPlayer(1)));
    assert_eq!(whisper_delivery(&m, &chars, Guid(300), "Nobody"), Err(ClientError::CharacterNotPlayed));
    assert_eq!(NO_PLAYER_BY_THAT_NAME, "No player by that name");
}
