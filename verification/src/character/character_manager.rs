//! The characters in play, each known by its object id and its name.

use crate::guid::Guid;
use vstd::prelude::*;

verus! {

/// Why a character could not be found.
#[derive(PartialEq, Eq, Structural, Clone, Copy, Debug)]
pub enum CharacterError {
    /// No character in play has this object id.
    CharacterNotFound,
}

/// A character in play.
pub struct ManagedCharacter<C> {
    pub guid: Guid,
    pub name: String,
    pub character: C,
}

/// The position of the character with object id `guid` in `s`, or -1.
pub open spec fn character_index<C>(s: Seq<ManagedCharacter<C>>, guid: Guid) -> int
    decreases s.len(),
{
    if s.len() == 0 {
        -1
    } else if s.last().guid == guid {
        s.len() - 1
    } else {
        character_index(s.drop_last(), guid)
    }
}

/// The character with object id `guid` in `s`, if any.
pub open spec fn character_lookup<C>(s: Seq<ManagedCharacter<C>>, guid: Guid) -> Option<
    ManagedCharacter<C>,
> {
    if character_index(s, guid) >= 0 {
        Some(s[character_index(s, guid)])
    } else {
        None
    }
}

/// No two characters share an object id.
pub open spec fn guids_distinct<C>(s: Seq<ManagedCharacter<C>>) -> bool {
    forall|i: int, j: int| 0 <= i < j < s.len() ==> s[i].guid != s[j].guid
}

/// `character_index` finds the one character with the object id, when
/// object ids are distinct, and -1 when none has it.
pub proof fn lemma_character_index<C>(s: Seq<ManagedCharacter<C>>, guid: Guid)
    ensures
        -1 <= character_index(s, guid) < s.len(),
        character_index(s, guid) >= 0 ==> s[character_index(s, guid)].guid == guid,
        character_index(s, guid) == -1 ==> forall|i: int| 0 <= i < s.len() ==> s[i].guid != guid,
        guids_distinct(s) ==> forall|i: int|
            0 <= i < s.len() && s[i].guid == guid ==> character_index(s, guid) == i,
    decreases s.len(),
{
    if s.len() > 0 {
        lemma_character_index(s.drop_last(), guid);
        assert forall|i: int| 0 <= i < s.len() - 1 implies s.drop_last()[i] == s[i] by {}
    }
}

/// The characters in play, with distinct object ids.
pub struct CharacterManager<C> {
    characters: Vec<ManagedCharacter<C>>,
}

impl<C> View for CharacterManager<C> {
    type V = Seq<ManagedCharacter<C>>;

    closed spec fn view(&self) -> Seq<ManagedCharacter<C>> {
        self.characters@
    }
}

impl<C> CharacterManager<C> {
    /// No two characters share an object id.
    pub open spec fn wf(&self) -> bool {
        guids_distinct(self@)
    }

    /// No characters.
    pub fn new() -> (r: Self)
        ensures
            r.wf(),
            r@ == Seq::<ManagedCharacter<C>>::empty(),
    {
        CharacterManager { characters: Vec::new() }
    }

    /// The position of the character with object id `guid`.
    fn find_index(&self, guid: Guid) -> (r: Option<usize>)
        requires
            self.wf(),
        ensures
            r matches Some(i) ==> character_index(self@, guid) == i && i < self@.len()
                && self@[i as int].guid == guid,
            r is None ==> character_index(self@, guid) == -1,
    {
        proof {
            lemma_character_index(self@, guid);
        }
        let mut i: usize = 0;
        while i < self.characters.len()
            invariant
                0 <= i <= self.characters@.len(),
                guids_distinct(self@),
                self.characters@ == self@,
                forall|j: int| 0 <= j < i ==> self@[j].guid != guid,
                -1 <= character_index(self@, guid) < self@.len(),
                character_index(self@, guid) >= 0 ==> self@[character_index(self@, guid)].guid == guid,
                forall|j: int|
                    0 <= j < self@.len() && self@[j].guid == guid ==> character_index(self@, guid) == j,
            decreases self.characters@.len() - i,
        {
            if self.characters[i].guid == guid {
                return Some(i);
            }
            i = i + 1;
        }
        None
    }

    /// Puts a character in play under its object id and name, in place of
    /// any with the same object id.
    pub fn add_character(&mut self, guid: Guid, name: String, character: C)
        requires
            old(self).wf(),
        ensures
            final(self).wf(),
            character_index(old(self)@, guid) >= 0 ==> final(self)@.len() == old(self)@.len()
                && final(self)@.remove(character_index(old(self)@, guid)) == old(self)@.remove(
                character_index(old(self)@, guid),
            ),
            character_index(old(self)@, guid) == -1 ==> final(self)@.drop_last() == old(self)@,
            character_lookup(final(self)@, guid) matches Some(m) && m.guid == guid && m.name@
                == name@ && m.character == character,
    {
        let ghost name_view = name@;
        let entry = ManagedCharacter { guid, name, character };
        proof {
            lemma_character_index(self@, guid);
        }
        match self.find_index(guid) {
            Some(i) => {
                self.characters.set(i, entry);
                assert(self@.remove(i as int) =~= old(self)@.remove(i as int));
                assert forall|a: int, b: int| 0 <= a < b < self@.len() implies self@[a].guid
                    != self@[b].guid by {
                    assert(self@[a].guid == old(self)@[a].guid);
                    assert(self@[b].guid == old(self)@[b].guid);
                }
                proof {
                    lemma_character_index(self@, guid);
                    assert(self@[i as int].guid == guid);
                }
            },
            None => {
                self.characters.push(entry);
                assert(self@.drop_last() =~= old(self)@);
                assert forall|a: int, b: int| 0 <= a < b < self@.len() implies self@[a].guid
                    != self@[b].guid by {
                    assert(self@[a] == old(self)@[a]);
                    if b < self@.len() - 1 {
                        assert(self@[b] == old(self)@[b]);
                    }
                }
                proof {
                    lemma_character_index(self@, guid);
                    assert(self@[self@.len() - 1].guid == guid);
                }
            },
        }
    }

    /// The character with object id `guid`, if it is in play.
    pub fn find_character(&self, guid: Guid) -> (r: Option<&C>)
        requires
            self.wf(),
        ensures
            r is Some <==> character_lookup(self@, guid) is Some,
            r matches Some(c) ==> character_lookup(self@, guid)->0.character == *c,
    {
        match self.find_index(guid) {
            Some(i) => Some(&self.characters[i].character),
            None => None,
        }
    }

    /// The name of the character with object id `guid`, if it is in play.
    pub fn find_character_name(&self, guid: Guid) -> (r: Option<&String>)
        requires
            self.wf(),
        ensures
            r is Some <==> character_lookup(self@, guid) is Some,
            r matches Some(n) ==> character_lookup(self@, guid)->0.name == *n,
    {
        match self.find_index(guid) {
            Some(i) => Some(&self.characters[i].name),
            None => None,
        }
    }

    /// The character with object id `guid`, to change, if it is in play.
    pub fn find_character_mut(&mut self, guid: Guid) -> (r: Option<&mut C>)
        requires
            old(self).wf(),
        ensures
            r is Some <==> character_lookup(old(self)@, guid) is Some,
            r matches Some(c) ==> character_lookup(old(self)@, guid)->0.character == *c
                && final(self)@ == old(self)@.update(
                character_index(old(self)@, guid),
                ManagedCharacter { character: *final(c), ..old(self)@[character_index(old(self)@, guid)] },
            ),
            r is None ==> final(self)@ == old(self)@,
    {
        match self.find_index(guid) {
            Some(i) => Some(&mut self.characters[i].character),
            None => None,
        }
    }

    /// The character with object id `guid`; an error when it is not in
    /// play.
    pub fn get_character(&self, guid: Guid) -> (r: Result<&C, CharacterError>)
        requires
            self.wf(),
        ensures
            r is Ok <==> character_lookup(self@, guid) is Some,
            r matches Ok(c) ==> character_lookup(self@, guid)->0.character == *c,
            r is Err ==> r == Err::<&C, CharacterError>(CharacterError::CharacterNotFound),
    {
        match self.find_character(guid) {
            Some(c) => Ok(c),
            None => Err(CharacterError::CharacterNotFound),
        }
    }

    /// The character with object id `guid`, to change; an error when it is
    /// not in play.
    pub fn get_character_mut(&mut self, guid: Guid) -> (r: Result<&mut C, CharacterError>)
        requires
            old(self).wf(),
        ensures
            r is Ok <==> character_lookup(old(self)@, guid) is Some,
            r matches Ok(c) ==> character_lookup(old(self)@, guid)->0.character == *c
                && final(self)@ == old(self)@.update(
                character_index(old(self)@, guid),
                ManagedCharacter { character: *final(c), ..old(self)@[character_index(old(self)@, guid)] },
            ),
            r is Err ==> final(self)@ == old(self)@ && r == Err::<&mut C, CharacterError>(
                CharacterError::CharacterNotFound,
            ),
    {
        match self.find_index(guid) {
            Some(i) => Ok(&mut self.characters[i].character),
            None => Err(CharacterError::CharacterNotFound),
        }
    }

    /// Takes the character with object id `guid` out of play, if it is in
    /// play.
    pub fn remove_character(&mut self, guid: Guid)
        requires
            old(self).wf(),
        ensures
            final(self).wf(),
            character_index(old(self)@, guid) >= 0 ==> final(self)@ == old(self)@.remove(
                character_index(old(self)@, guid),
            ),
            character_index(old(self)@, guid) == -1 ==> final(self)@ == old(self)@,
            character_lookup(final(self)@, guid) is None,
    {
        match self.find_index(guid) {
            Some(i) => {
                self.characters.remove(i);
                assert forall|a: int, b: int| 0 <= a < b < self@.len() implies self@[a].guid
                    != self@[b].guid by {
                    if a >= i {
                        assert(self@[a] == old(self)@[a + 1]);
                    } else {
                        assert(self@[a] == old(self)@[a]);
                    }
                    if b >= i {
                        assert(self@[b] == old(self)@[b + 1]);
                    } else {
                        assert(self@[b] == old(self)@[b]);
                    }
                }
                proof {
                    lemma_character_index(self@, guid);
                    assert forall|j: int| 0 <= j < self@.len() implies self@[j].guid != guid by {
                        if j >= i {
                            assert(self@[j] == old(self)@[j + 1]);
                        } else {
                            assert(self@[j] == old(self)@[j]);
                        }
                    }
                }
            },
            None => {
                proof {
                    lemma_character_index(self@, guid);
                }
            },
        }
    }
}

} // verus!
