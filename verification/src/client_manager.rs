//! The registry of connected clients, keyed by connection id, with the
//! two-stage removal of disconnected ones.

use crate::character::character_manager::{character_lookup, CharacterManager, ManagedCharacter};
use crate::character::character_name::{character_name_key, name_key};
use crate::client::{Client, ClientData, ClientState};
use crate::guid::Guid;
use vstd::prelude::*;

verus! {

/// Why a client could not be found or used.
#[derive(PartialEq, Eq, Structural, Clone, Copy, Debug)]
pub enum ClientError {
    /// No client has this connection id.
    ClientNotFound,
    /// The client did not complete the login.
    NotAuthenticated,
    /// No client plays this character.
    CharacterNotPlayed,
    /// A client plays a character that is not in play.
    ActiveCharacterNotInPlay,
}

/// The search of `clients[k..]`, in order, for a client whose active
/// character's name compares as `key`: an error when a client plays a
/// character that is not among `characters`, or when none matches.
pub open spec fn name_search<S, C>(
    clients: Seq<Client<S>>,
    characters: Seq<ManagedCharacter<C>>,
    key: Seq<char>,
    k: int,
) -> Result<int, ClientError>
    decreases clients.len() - k,
{
    if k < 0 || k >= clients.len() {
        Err(ClientError::CharacterNotPlayed)
    } else {
        match clients[k].data.active_character {
            Some(g) => match character_lookup(characters, g) {
                None => Err(ClientError::ActiveCharacterNotInPlay),
                Some(m) => if name_key(m.name@) == key {
                    Ok(k)
                } else {
                    name_search(clients, characters, key, k + 1)
                },
            },
            None => name_search(clients, characters, key, k + 1),
        }
    }
}

/// The position of the client with connection id `id` in `s`, or -1.
pub open spec fn index_of<S>(s: Seq<Client<S>>, id: u64) -> int
    decreases s.len(),
{
    if s.len() == 0 {
        -1
    } else if s.last().id == id {
        s.len() - 1
    } else {
        index_of(s.drop_last(), id)
    }
}

/// The client with connection id `id` in `s`, if any.
pub open spec fn lookup<S>(s: Seq<Client<S>>, id: u64) -> Option<Client<S>> {
    if index_of(s, id) >= 0 {
        Some(s[index_of(s, id)])
    } else {
        None
    }
}

/// Whether client `j` of `s` is the first, in order, that plays character
/// `guid`.
pub open spec fn first_playing<S>(s: Seq<Client<S>>, j: int, guid: Guid) -> bool {
    &&& 0 <= j < s.len()
    &&& s[j].data.active_character == Some(guid)
    &&& forall|k: int| 0 <= k < j ==> s[k].data.active_character != Some(guid)
}

/// No two clients share a connection id.
pub open spec fn ids_distinct<S>(s: Seq<Client<S>>) -> bool {
    forall|i: int, j: int| 0 <= i < j < s.len() ==> s[i].id != s[j].id
}

/// What the cleanup of a tick makes of a client: a disconnected client is
/// removed, one pending cleanup becomes disconnected and plays no
/// character, and others stay as they are.
pub open spec fn cleaned<S>(c: Client<S>) -> Option<Client<S>> {
    match c.data.client_state {
        ClientState::Disconnected => None,
        ClientState::DisconnectPendingCleanup => Some(
            Client {
                data: ClientData {
                    client_state: ClientState::Disconnected,
                    active_character: None,
                    ..c.data
                },
                ..c
            },
        ),
        _ => Some(c),
    }
}

/// The clients after the cleanup of a tick, in their order.
pub open spec fn after_cleanup<S>(s: Seq<Client<S>>) -> Seq<Client<S>>
    decreases s.len(),
{
    if s.len() == 0 {
        Seq::empty()
    } else {
        let rest = after_cleanup(s.drop_last());
        match cleaned(s.last()) {
            Some(c) => rest.push(c),
            None => rest,
        }
    }
}

/// The clients whose cleanup starts at this tick, each with the character
/// it played, in their order.
pub open spec fn cleanup_started<S>(s: Seq<Client<S>>) -> Seq<(u64, Option<Guid>)>
    decreases s.len(),
{
    if s.len() == 0 {
        Seq::empty()
    } else {
        let rest = cleanup_started(s.drop_last());
        if s.last().data.client_state == ClientState::DisconnectPendingCleanup {
            rest.push((s.last().id, s.last().data.active_character))
        } else {
            rest
        }
    }
}

/// A client found at position `i` is what `lookup` gives, when ids are
/// distinct; and `lookup` finds nothing for an id no client has.
pub proof fn lemma_index_of<S>(s: Seq<Client<S>>, id: u64)
    ensures
        -1 <= index_of(s, id) < s.len(),
        index_of(s, id) >= 0 ==> s[index_of(s, id)].id == id,
        index_of(s, id) == -1 ==> forall|i: int| 0 <= i < s.len() ==> s[i].id != id,
        ids_distinct(s) ==> forall|i: int| 0 <= i < s.len() && s[i].id == id ==> index_of(s, id) == i,
    decreases s.len(),
{
    if s.len() > 0 {
        lemma_index_of(s.drop_last(), id);
        assert forall|i: int| 0 <= i < s.len() - 1 implies s.drop_last()[i] == s[i] by {}
    }
}

/// After the cleanup of a tick ids stay distinct, and each client is what
/// `cleaned` makes of it.
pub proof fn lemma_after_cleanup<S>(s: Seq<Client<S>>, id: u64)
    requires
        ids_distinct(s),
    ensures
        ids_distinct(after_cleanup(s)),
        lookup(after_cleanup(s), id) == (match lookup(s, id) {
            Some(c) => cleaned(c),
            None => None,
        }),
    decreases s.len(),
{
    if s.len() > 0 {
        let dl = s.drop_last();
        let last = s.last();
        assert(ids_distinct(dl));
        lemma_after_cleanup(dl, id);
        lemma_after_cleanup(dl, last.id);
        lemma_index_of(dl, last.id);
        lemma_index_of(dl, id);
        let rest = after_cleanup(dl);
        lemma_index_of(rest, last.id);
        lemma_index_of(rest, id);
        assert(index_of(dl, last.id) == -1) by {
            if index_of(dl, last.id) >= 0 {
                assert(s[index_of(dl, last.id)].id == last.id);
            }
        }
        assert(lookup(rest, last.id) is None);
        if last.id != id {
            assert(index_of(s, id) == index_of(dl, id));
            if index_of(dl, id) >= 0 {
                assert(s[index_of(dl, id)] == dl[index_of(dl, id)]);
            }
        }
        match cleaned(last) {
            Some(c) => {
                let t = rest.push(c);
                assert(t.drop_last() =~= rest);
                assert(t.last() == c);
                assert forall|i: int, j: int| 0 <= i < j < t.len() implies t[i].id != t[j].id by {
                    if j == t.len() - 1 {
                        assert(t[i] == rest[i]);
                    } else {
                        assert(t[i] == rest[i]);
                        assert(t[j] == rest[j]);
                    }
                }
                if last.id != id {
                    assert(index_of(t, id) == index_of(rest, id));
                    if index_of(rest, id) >= 0 {
                        assert(t[index_of(rest, id)] == rest[index_of(rest, id)]);
                    }
                }
            },
            None => {},
        }
    }
}

/// A client whose connection closed is cleaned up at the next tick, where
/// it becomes disconnected and plays no character, and is gone after the
/// tick after that; a client that is connected stays as it is.
pub proof fn lemma_cleanup_takes_two_ticks<S>(s: Seq<Client<S>>, id: u64)
    requires
        ids_distinct(s),
    ensures
        lookup(s, id) matches Some(c) ==> (c.data.client_state
            == ClientState::DisconnectPendingCleanup ==> lookup(after_cleanup(s), id) == Some(
            Client {
                data: ClientData {
                    client_state: ClientState::Disconnected,
                    active_character: None,
                    ..c.data
                },
                ..c
            },
        ) && lookup(after_cleanup(after_cleanup(s)), id) is None),
        lookup(s, id) matches Some(c) ==> ((c.data.client_state == ClientState::PreLogin
            || c.data.client_state == ClientState::CharacterSelection) ==> lookup(
            after_cleanup(s),
            id,
        ) == Some(c)),
        lookup(s, id) is None ==> lookup(after_cleanup(s), id) is None,
{
    lemma_after_cleanup(s, id);
    lemma_after_cleanup(after_cleanup(s), id);
}

/// The clients of a server, with distinct connection ids.
pub struct ClientManager<Sender> {
    clients: Vec<Client<Sender>>,
}

impl<Sender> View for ClientManager<Sender> {
    type V = Seq<Client<Sender>>;

    closed spec fn view(&self) -> Seq<Client<Sender>> {
        self.clients@
    }
}

impl<Sender> ClientManager<Sender> {
    /// No two clients share a connection id.
    pub open spec fn wf(&self) -> bool {
        ids_distinct(self@)
    }

    /// A registry with no clients.
    pub fn new() -> (r: Self)
        ensures
            r.wf(),
            r@ == Seq::<Client<Sender>>::empty(),
    {
        ClientManager { clients: Vec::new() }
    }

    /// The position of the client with connection id `id`.
    fn find_index(&self, id: u64) -> (r: Option<usize>)
        requires
            self.wf(),
        ensures
            r matches Some(i) ==> index_of(self@, id) == i && i < self@.len() && self@[i as int].id == id,
            r is None ==> index_of(self@, id) == -1,
    {
        proof {
            lemma_index_of(self@, id);
        }
        let mut i: usize = 0;
        while i < self.clients.len()
            invariant
                0 <= i <= self.clients@.len(),
                ids_distinct(self@),
                self.clients@ == self@,
                forall|j: int| 0 <= j < i ==> self@[j].id != id,
                -1 <= index_of(self@, id) < self@.len(),
                index_of(self@, id) >= 0 ==> self@[index_of(self@, id)].id == id,
                index_of(self@, id) == -1 ==> forall|j: int| 0 <= j < self@.len() ==> self@[j].id != id,
                forall|j: int| 0 <= j < self@.len() && self@[j].id == id ==> index_of(self@, id) == j,
            decreases self.clients@.len() - i,
        {
            if self.clients[i].id == id {
                return Some(i);
            }
            i = i + 1;
        }
        None
    }

    /// A connection completed its login into `account_id`: a new client
    /// is registered for it, in place of any with the same id.
    pub fn handle_client_connected(&mut self, id: u64, account_id: u32, connection_sender: Sender)
        requires
            old(self).wf(),
        ensures
            final(self).wf(),
            index_of(old(self)@, id) >= 0 ==> final(self)@.len() == old(self)@.len()
                && final(self)@.remove(index_of(old(self)@, id)) == old(self)@.remove(index_of(old(self)@, id)),
            index_of(old(self)@, id) == -1 ==> final(self)@.drop_last() == old(self)@,
            lookup(final(self)@, id) matches Some(c) && c.id == id && c.connection_sender
                == connection_sender && c.data == (ClientData {
                client_state: ClientState::CharacterSelection,
                account_id,
                active_character: None,
            }),
    {
        let client = Client::new(id, account_id, connection_sender);
        proof {
            lemma_index_of(self@, id);
        }
        match self.find_index(id) {
            Some(i) => {
                self.clients.set(i, client);
                assert(self@.remove(i as int) =~= old(self)@.remove(i as int));
                assert forall|a: int, b: int| 0 <= a < b < self@.len() implies self@[a].id
                    != self@[b].id by {
                    assert(self@[a].id == old(self)@[a].id);
                    assert(self@[b].id == old(self)@[b].id);
                }
                proof {
                    lemma_index_of(self@, id);
                    assert(self@[i as int].id == id);
                }
            },
            None => {
                self.clients.push(client);
                assert(self@.drop_last() =~= old(self)@);
                assert forall|a: int, b: int| 0 <= a < b < self@.len() implies self@[a].id
                    != self@[b].id by {
                    if b < self@.len() - 1 {
                        assert(self@[a] == old(self)@[a]);
                        assert(self@[b] == old(self)@[b]);
                    } else {
                        assert(self@[a] == old(self)@[a]);
                    }
                }
                proof {
                    lemma_index_of(self@, id);
                    assert(self@[self@.len() - 1].id == id);
                }
            },
        }
    }

    /// The connection of client `id` closed: its cleanup starts at the
    /// next tick. An unknown id is an error.
    pub fn handle_client_disconnected(&mut self, id: u64) -> (r: Result<(), ClientError>)
        requires
            old(self).wf(),
        ensures
            final(self).wf(),
            index_of(old(self)@, id) >= 0 ==> r is Ok && final(self)@ == old(self)@.update(
                index_of(old(self)@, id),
                Client {
                    data: ClientData {
                        client_state: ClientState::DisconnectPendingCleanup,
                        ..old(self)@[index_of(old(self)@, id)].data
                    },
                    ..old(self)@[index_of(old(self)@, id)]
                },
            ),
            index_of(old(self)@, id) == -1 ==> r == Err::<(), ClientError>(ClientError::ClientNotFound)
                && final(self)@ == old(self)@,
    {
        match self.find_index(id) {
            Some(i) => {
                self.clients[i].data.client_state = ClientState::DisconnectPendingCleanup;
                assert forall|a: int, b: int| 0 <= a < b < self@.len() implies self@[a].id
                    != self@[b].id by {
                    assert(self@[a].id == old(self)@[a].id);
                    assert(self@[b].id == old(self)@[b].id);
                }
                Ok(())
            },
            None => Err(ClientError::ClientNotFound),
        }
    }

    /// The cleanup of a tick, in two stages: clients disconnected at the
    /// last tick are removed, and those pending cleanup become
    /// disconnected and play no character. Returns the clients whose
    /// cleanup starts now, each with the character it played, for the
    /// world to let go of them.
    pub fn cleanup_disconnected_clients(&mut self) -> (r: Vec<(u64, Option<Guid>)>)
        requires
            old(self).wf(),
        ensures
            final(self).wf(),
            final(self)@ == after_cleanup(old(self)@),
            r@ == cleanup_started(old(self)@),
    {
        let ghost orig = self@;
        let mut remaining: Vec<Client<Sender>> = Vec::new();
        core::mem::swap(&mut remaining, &mut self.clients);
        let mut kept: Vec<Client<Sender>> = Vec::new();
        let mut started: Vec<(u64, Option<Guid>)> = Vec::new();
        let n = remaining.len();
        let mut k: usize = 0;
        while k < n
            invariant
                n == orig.len(),
                0 <= k <= n,
                remaining@ == orig.skip(k as int),
                kept@ == after_cleanup(orig.take(k as int)),
                started@ == cleanup_started(orig.take(k as int)),
            decreases n - k,
        {
            let ghost before = remaining@;
            let mut c = remaining.remove(0);
            assert(c == orig[k as int]);
            assert(remaining@ =~= orig.skip(k + 1));
            assert(orig.take(k + 1).drop_last() =~= orig.take(k as int));
            assert(orig.take(k + 1).last() == orig[k as int]);
            match c.data.client_state {
                ClientState::Disconnected => {},
                ClientState::DisconnectPendingCleanup => {
                    started.push((c.id, c.data.active_character));
                    c.disconnected_post_cleanup();
                    kept.push(c);
                },
                _ => {
                    kept.push(c);
                },
            }
            k = k + 1;
        }
        assert(orig.take(n as int) =~= orig);
        self.clients = kept;
        proof {
            lemma_after_cleanup(orig, 0);
        }
        started
    }

    /// Removes client `id` and returns it, if there is one.
    pub fn remove_client(&mut self, client_id: u64) -> (r: Option<Client<Sender>>)
        requires
            old(self).wf(),
        ensures
            final(self).wf(),
            r == lookup(old(self)@, client_id),
            index_of(old(self)@, client_id) >= 0 ==> final(self)@ == old(self)@.remove(
                index_of(old(self)@, client_id),
            ),
            index_of(old(self)@, client_id) == -1 ==> final(self)@ == old(self)@,
    {
        match self.find_index(client_id) {
            Some(i) => {
                let c = self.clients.remove(i);
                assert forall|a: int, b: int| 0 <= a < b < self@.len() implies self@[a].id
                    != self@[b].id by {
                    if a >= i {
                        assert(self@[a] == old(self)@[a + 1]);
                    }
                    if b >= i {
                        assert(self@[b] == old(self)@[b + 1]);
                    }
                }
                Some(c)
            },
            None => None,
        }
    }

    /// The client with connection id `id`.
    pub fn get_client(&self, id: u64) -> (r: Result<&Client<Sender>, ClientError>)
        requires
            self.wf(),
        ensures
            r matches Ok(c) ==> lookup(self@, id) == Some(*c),
            r is Err ==> lookup(self@, id) is None && r == Err::<&Client<Sender>, ClientError>(
                ClientError::ClientNotFound,
            ),
    {
        match self.find_index(id) {
            Some(i) => Ok(&self.clients[i]),
            None => Err(ClientError::ClientNotFound),
        }
    }

    /// The client with connection id `id`, to change.
    pub fn get_client_mut(&mut self, id: u64) -> (r: Result<&mut Client<Sender>, ClientError>)
        requires
            old(self).wf(),
        ensures
            r matches Ok(c) ==> lookup(old(self)@, id) == Some(*c) && final(self)@ == old(self)@.update(
                index_of(old(self)@, id),
                *final(c),
            ),
            r is Err ==> lookup(old(self)@, id) is None && final(self)@ == old(self)@,
    {
        match self.find_index(id) {
            Some(i) => Ok(&mut self.clients[i]),
            None => Err(ClientError::ClientNotFound),
        }
    }

    /// The client with connection id `id`, if it completed the login.
    pub fn get_authenticated_client(&self, id: u64) -> (r: Result<&Client<Sender>, ClientError>)
        requires
            self.wf(),
        ensures
            match lookup(self@, id) {
                None => r == Err::<&Client<Sender>, ClientError>(ClientError::ClientNotFound),
                Some(c) => if c.data.client_state == ClientState::PreLogin {
                    r == Err::<&Client<Sender>, ClientError>(ClientError::NotAuthenticated)
                } else {
                    r matches Ok(found) && *found == c
                },
            },
    {
        let client = self.get_client(id)?;
        if !client.is_authenticated() {
            return Err(ClientError::NotAuthenticated);
        }
        Ok(client)
    }

    /// The client with connection id `id`, to change, if it completed the
    /// login.
    pub fn get_authenticated_client_mut(&mut self, id: u64) -> (r: Result<&mut Client<Sender>, ClientError>)
        requires
            old(self).wf(),
        ensures
            match lookup(old(self)@, id) {
                None => r == Err::<&mut Client<Sender>, ClientError>(ClientError::ClientNotFound)
                    && final(self)@ == old(self)@,
                Some(c) => if c.data.client_state == ClientState::PreLogin {
                    r == Err::<&mut Client<Sender>, ClientError>(ClientError::NotAuthenticated)
                        && final(self)@ == old(self)@
                } else {
                    r matches Ok(found) && *found == c && final(self)@ == old(self)@.update(
                        index_of(old(self)@, id),
                        *final(found),
                    )
                },
            },
    {
        match self.find_index(id) {
            Some(i) => {
                if !self.clients[i].is_authenticated() {
                    return Err(ClientError::NotAuthenticated);
                }
                Ok(&mut self.clients[i])
            },
            None => Err(ClientError::ClientNotFound),
        }
    }

    /// The character that client `id` plays; the client must have
    /// completed the login and play a character.
    pub fn get_character_from_client(&self, id: u64) -> (r: Result<Guid, ClientError>)
        requires
            self.wf(),
            lookup(self@, id) matches Some(c) ==> (c.data.client_state != ClientState::PreLogin
                ==> c.data.active_character is Some),
        ensures
            match lookup(self@, id) {
                None => r == Err::<Guid, ClientError>(ClientError::ClientNotFound),
                Some(c) => if c.data.client_state == ClientState::PreLogin {
                    r == Err::<Guid, ClientError>(ClientError::NotAuthenticated)
                } else {
                    c.data.active_character == Some(r->Ok_0) && r is Ok
                },
            },
    {
        let client = self.get_authenticated_client(id)?;
        Ok(client.get_active_character())
    }

    /// The first client whose active character is named `character_name`,
    /// with case and surrounding white space ignored; see `name_search`.
    pub fn find_client_from_active_character_name<C>(
        &self,
        character_name: &str,
        character_manager: &CharacterManager<C>,
    ) -> (r: Result<&Client<Sender>, ClientError>)
        requires
            self.wf(),
            character_manager.wf(),
        ensures
            match name_search(self@, character_manager@, name_key(character_name@), 0) {
                Ok(i) => r matches Ok(c) && *c == self@[i],
                Err(e) => r == Err::<&Client<Sender>, ClientError>(e),
            },
    {
        let key = character_name_key(character_name);
        let mut i: usize = 0;
        while i < self.clients.len()
            invariant
                0 <= i <= self.clients@.len(),
                self.clients@ == self@,
                character_manager.wf(),
                key@ == name_key(character_name@),
                name_search(self@, character_manager@, key@, 0) == name_search(
                    self@,
                    character_manager@,
                    key@,
                    i as int,
                ),
            decreases self.clients@.len() - i,
        {
            if let Some(active_character) = self.clients[i].data.active_character {
                let name = match character_manager.find_character_name(active_character) {
                    Some(n) => n,
                    None => {
                        return Err(ClientError::ActiveCharacterNotInPlay);
                    },
                };
                let name_key_of_character = character_name_key(name.as_str());
                if name_key_of_character == key {
                    return Ok(&self.clients[i]);
                }
            }
            i = i + 1;
        }
        Err(ClientError::CharacterNotPlayed)
    }

    /// The first client, in the registry's order, that plays character
    /// `character_guid`.
    pub fn find_client_from_active_character_guid(&self, character_guid: Guid) -> (r: Result<
        &Client<Sender>,
        ClientError,
    >)
        requires
            self.wf(),
        ensures
            r matches Ok(c) ==> exists|i: int|
                #[trigger] first_playing(self@, i, character_guid) && self@[i] == *c,
            r is Err ==> r == Err::<&Client<Sender>, ClientError>(ClientError::CharacterNotPlayed)
                && forall|i: int|
                0 <= i < self@.len() ==> self@[i].data.active_character != Some(character_guid),
    {
        let mut i: usize = 0;
        while i < self.clients.len()
            invariant
                0 <= i <= self.clients@.len(),
                self.clients@ == self@,
                forall|j: int| 0 <= j < i ==> self@[j].data.active_character != Some(character_guid),
            decreases self.clients@.len() - i,
        {
            if let Some(guid) = self.clients[i].data.active_character {
                if guid == character_guid {
                    assert(first_playing(self@, i as int, character_guid));
                    return Ok(&self.clients[i]);
                }
            }
            i = i + 1;
        }
        Err(ClientError::CharacterNotPlayed)
    }
}

} // verus!
