//! The objects a character sees: the object ids in range of it, the
//! characters among them, and the ids that left its range since the last
//! update.

use crate::guid::Guid;
use vstd::prelude::*;

verus! {

/// What a character's range bookkeeping amounts to.
#[verifier::ext_equal]
pub struct InRangeView {
    /// The object ids in range.
    pub objects: Set<Guid>,
    /// The characters in range, in the order they came.
    pub characters: Seq<Guid>,
    /// The object ids taken out of range since the list was last cleared,
    /// in order.
    pub recently_removed: Seq<Guid>,
}

/// A character's range bookkeeping. The objects themselves are kept by
/// the caller; this keeps their ids.
pub struct InRangeObjects {
    objects: Vec<Guid>,
    characters: Vec<Guid>,
    recently_removed: Vec<Guid>,
}

impl View for InRangeObjects {
    type V = InRangeView;

    closed spec fn view(&self) -> InRangeView {
        InRangeView {
            objects: self.objects@.to_set(),
            characters: self.characters@,
            recently_removed: self.recently_removed@,
        }
    }
}

impl InRangeObjects {
    /// No object id and no character is listed twice.
    pub closed spec fn wf(&self) -> bool {
        self.objects@.no_duplicates() && self.characters@.no_duplicates()
    }

    /// Nothing in range and nothing removed.
    pub fn new() -> (r: Self)
        ensures
            r.wf(),
            r@.objects == Set::<Guid>::empty(),
            r@.characters == Seq::<Guid>::empty(),
            r@.recently_removed == Seq::<Guid>::empty(),
    {
        let r = InRangeObjects { objects: Vec::new(), characters: Vec::new(), recently_removed: Vec::new() };
        assert(r.objects@.to_set() =~= Set::<Guid>::empty());
        r
    }

    /// Whether object `guid` is in range.
    pub fn is_in_range(&self, guid: Guid) -> (r: bool)
        ensures
            r == self@.objects.contains(guid),
    {
        let mut i: usize = 0;
        while i < self.objects.len()
            invariant
                0 <= i <= self.objects@.len(),
                forall|j: int| 0 <= j < i ==> self.objects@[j] != guid,
            decreases self.objects@.len() - i,
        {
            if self.objects[i] == guid {
                assert(self.objects@.contains(guid));
                return true;
            }
            i = i + 1;
        }
        false
    }

    /// Puts object `guid` in range. It must not be in range already.
    pub fn add_in_range_object(&mut self, guid: Guid)
        requires
            old(self).wf(),
            !old(self)@.objects.contains(guid),
        ensures
            final(self).wf(),
            final(self)@ == (InRangeView { objects: old(self)@.objects.insert(guid), ..old(self)@ }),
    {
        let ghost before = self.objects@;
        self.objects.push(guid);
        proof {
            assert(self.objects@.to_set() =~= before.to_set().insert(guid)) by {
                assert forall|g: Guid| self.objects@.contains(g) <==> before.contains(g) || g == guid by {
                    if before.contains(g) {
                        let k = choose|k: int| 0 <= k < before.len() && before[k] == g;
                        assert(self.objects@[k] == g);
                    }
                    if g == guid {
                        assert(self.objects@[before.len() as int] == g);
                    }
                }
            }
            assert(!before.contains(guid)) by {
                assert(before.to_set().contains(guid) == before.contains(guid));
            }
        }
    }

    /// Lists character `guid` as in range, unless it is listed already.
    pub fn add_in_range_character(&mut self, guid: Guid)
        requires
            old(self).wf(),
        ensures
            final(self).wf(),
            final(self)@ == (InRangeView {
                characters: if old(self)@.characters.contains(guid) {
                    old(self)@.characters
                } else {
                    old(self)@.characters.push(guid)
                },
                ..old(self)@
            }),
    {
        let mut i: usize = 0;
        while i < self.characters.len()
            invariant
                0 <= i <= self.characters@.len(),
                self.wf(),
                self@ == old(self)@,
                self.objects@ == old(self).objects@,
                self.characters@ == old(self).characters@,
                forall|j: int| 0 <= j < i ==> self.characters@[j] != guid,
            decreases self.characters@.len() - i,
        {
            if self.characters[i] == guid {
                assert(self.characters@.contains(guid));
                return;
            }
            i = i + 1;
        }
        let ghost before = self.characters@;
        self.characters.push(guid);
        proof {
            assert(!before.contains(guid));
            assert forall|a: int, b: int| 0 <= a < b < self.characters@.len() implies self.characters@[a]
                != self.characters@[b] by {
                if b == before.len() {
                    assert(before[a] != guid);
                }
            }
        }
    }

    /// The object ids in range, each once.
    pub fn get_in_range_guids(&self) -> (r: Vec<Guid>)
        requires
            self.wf(),
        ensures
            r@.to_set() == self@.objects,
            r@.no_duplicates(),
    {
        self.objects.clone()
    }

    /// The characters in range.
    pub fn get_in_range_characters(&self) -> (r: &[Guid])
        ensures
            r@ == self@.characters,
    {
        self.characters.as_slice()
    }

    /// Takes object `guid` out of range, and lists it among the recently
    /// removed ids, whether or not it was in range.
    pub fn remove_in_range_object(&mut self, guid: Guid)
        requires
            old(self).wf(),
        ensures
            final(self).wf(),
            final(self)@ == (InRangeView {
                objects: old(self)@.objects.remove(guid),
                recently_removed: old(self)@.recently_removed.push(guid),
                ..old(self)@
            }),
    {
        let ghost before = self.objects@;
        let mut i: usize = 0;
        while i < self.objects.len()
            invariant
                0 <= i <= self.objects@.len(),
                self.wf(),
                self@ == old(self)@,
                self.objects@ == before,
                self.characters@ == old(self).characters@,
                self.recently_removed@ == old(self).recently_removed@,
                before == old(self).objects@,
                before.no_duplicates(),
                forall|j: int| 0 <= j < i ==> before[j] != guid,
            decreases self.objects@.len() - i,
        {
            if self.objects[i] == guid {
                self.objects.remove(i);
                proof {
                    let after = self.objects@;
                    assert(after =~= before.subrange(0, i as int) + before.subrange(i + 1, before.len() as int));
                    assert forall|g: Guid| after.contains(g) <==> before.contains(g) && g != guid by {
                        if after.contains(g) {
                            let k = choose|k: int| 0 <= k < after.len() && after[k] == g;
                            if k < i {
                                assert(before[k] == g);
                                assert(before[k] != before[i as int]);
                            } else {
                                assert(before[k + 1] == g);
                                assert(before[k + 1] != before[i as int]);
                            }
                        }
                        if before.contains(g) && g != guid {
                            let k = choose|k: int| 0 <= k < before.len() && before[k] == g;
                            if k < i {
                                assert(after[k] == g);
                            } else {
                                assert(k != i);
                                assert(after[k - 1] == g);
                            }
                        }
                    }
                    assert(after.to_set() =~= before.to_set().remove(guid));
                    assert(after.no_duplicates()) by {
                        assert forall|a: int, b: int| 0 <= a < b < after.len() implies after[a] != after[b] by {
                            let a2 = if a < i { a } else { a + 1 };
                            let b2 = if b < i { b } else { b + 1 };
                            assert(after[a] == before[a2] && after[b] == before[b2]);
                            assert(a2 < b2);
                        }
                    }
                }
                self.recently_removed.push(guid);
                return;
            }
            i = i + 1;
        }
        proof {
            assert(!before.contains(guid));
            assert(before.to_set().remove(guid) =~= before.to_set());
        }
        self.recently_removed.push(guid);
    }

    /// Takes every object out of range, without listing them as removed.
    pub fn clear_in_range_objects(&mut self)
        requires
            old(self).wf(),
        ensures
            final(self).wf(),
            final(self)@ == (InRangeView { objects: Set::<Guid>::empty(), ..old(self)@ }),
    {
        self.objects = Vec::new();
        assert(self.objects@.to_set() =~= Set::<Guid>::empty());
    }

    /// The object ids taken out of range since the list was last cleared.
    pub fn get_recently_removed_range_guids(&self) -> (r: &[Guid])
        ensures
            r@ == self@.recently_removed,
    {
        self.recently_removed.as_slice()
    }

    /// Forgets the recently removed ids.
    pub fn clear_recently_removed_range_guids(&mut self)
        requires
            old(self).wf(),
        ensures
            final(self).wf(),
            final(self)@ == (InRangeView { recently_removed: Seq::<Guid>::empty(), ..old(self)@ }),
    {
        self.recently_removed = Vec::new();
    }
}

/// An object put in range is in range; taking it out again leaves the
/// objects in range as they were and lists it as recently removed.
pub proof fn lemma_add_then_remove_in_range(v: InRangeView, guid: Guid)
    requires
        !v.objects.contains(guid),
    ensures
        v.objects.insert(guid).contains(guid),
        v.objects.insert(guid).remove(guid) == v.objects,
{
    assert(v.objects.insert(guid).remove(guid) =~= v.objects);
}

} // verus!
