//! A unit's update fields: one 32-bit value per field, and the mask of
//! the fields changed since the last update was sent.

use vstd::prelude::*;

verus! {

/// Why a field could not be read or written.
#[derive(PartialEq, Eq, Structural, Clone, Copy, Debug)]
pub enum FieldError {
    /// The field number is past the last field.
    OutOfRange,
}

/// The fields of a unit, and which of them changed since the mask was
/// last cleared.
pub struct UnitValueFields {
    values: Vec<u32>,
    changed: Vec<bool>,
}

/// What the fields of a unit amount to.
#[verifier::ext_equal]
pub struct ValueFieldsView {
    /// Entry `i` is the value of field `i`.
    pub values: Seq<u32>,
    /// Entry `i` says whether field `i` changed since the mask was cleared.
    pub changed: Seq<bool>,
}

impl View for UnitValueFields {
    type V = ValueFieldsView;

    closed spec fn view(&self) -> ValueFieldsView {
        ValueFieldsView { values: self.values@, changed: self.changed@ }
    }
}

/// Whether a view has a mask entry for each field.
pub open spec fn value_fields_wf(v: ValueFieldsView) -> bool {
    v.changed.len() == v.values.len()
}

/// Writing `value` into field `field`: the field holds the value and is
/// marked changed; every other field and mark stays.
pub open spec fn set_field_spec(v: ValueFieldsView, field: int, value: u32) -> ValueFieldsView {
    ValueFieldsView { values: v.values.update(field, value), changed: v.changed.update(field, true) }
}

impl UnitValueFields {
    /// A mask entry for each field.
    pub open spec fn wf(&self) -> bool {
        value_fields_wf(self@)
    }

    /// `num_fields` fields, all 0 and none changed.
    pub fn new(num_fields: usize) -> (r: Self)
        ensures
            r.wf(),
            r@.values == Seq::new(num_fields as nat, |i: int| 0u32),
            r@.changed == Seq::new(num_fields as nat, |i: int| false),
    {
        let mut values: Vec<u32> = Vec::new();
        let mut changed: Vec<bool> = Vec::new();
        let mut i: usize = 0;
        while i < num_fields
            invariant
                0 <= i <= num_fields,
                values@ == Seq::new(i as nat, |k: int| 0u32),
                changed@ == Seq::new(i as nat, |k: int| false),
            decreases num_fields - i,
        {
            values.push(0);
            changed.push(false);
            i = i + 1;
            assert(values@ =~= Seq::new(i as nat, |k: int| 0u32));
            assert(changed@ =~= Seq::new(i as nat, |k: int| false));
        }
        UnitValueFields { values, changed }
    }

    /// The number of fields.
    pub fn get_num_value_fields(&self) -> (r: usize)
        ensures
            r == self@.values.len(),
    {
        self.values.len()
    }

    /// Writes `value` into field `field` and marks it changed. A field past
    /// the last one is an error, and nothing changes. The field number
    /// just past the last is not accepted.
    pub fn set_field_u32(&mut self, field: usize, value: u32) -> (r: Result<(), FieldError>)
        requires
            old(self).wf(),
            field != old(self)@.values.len(),
        ensures
            final(self).wf(),
            r is Err <==> field > old(self)@.values.len(),
            r is Err ==> r == Err::<(), FieldError>(FieldError::OutOfRange) && final(self)@ == old(
                self,
            )@,
            r is Ok ==> final(self)@ == set_field_spec(old(self)@, field as int, value),
    {
        if field > self.values.len() {
            return Err(FieldError::OutOfRange);
        }
        self.values.set(field, value);
        self.changed.set(field, true);
        Ok(())
    }

    /// The value of field `field`. A field past the last one is an error.
    /// The field number just past the last is not accepted.
    pub fn get_field_u32(&self, field: usize) -> (r: Result<u32, FieldError>)
        requires
            field != self@.values.len(),
        ensures
            r is Err <==> field > self@.values.len(),
            r is Err ==> r == Err::<u32, FieldError>(FieldError::OutOfRange),
            r matches Ok(v) ==> v == self@.values[field as int],
    {
        if field > self.values.len() {
            return Err(FieldError::OutOfRange);
        }
        Ok(self.values[field])
    }

    /// Whether field `field` changed since the mask was cleared.
    pub fn is_changed(&self, field: usize) -> (r: bool)
        requires
            self.wf(),
            field < self@.values.len(),
        ensures
            r == self@.changed[field as int],
    {
        self.changed[field]
    }

    /// Clears the mask of changed fields; the values stay.
    pub fn clear_update_mask(&mut self)
        requires
            old(self).wf(),
        ensures
            final(self).wf(),
            final(self)@.values == old(self)@.values,
            final(self)@.changed == Seq::new(old(self)@.values.len(), |i: int| false),
    {
        let n = self.changed.len();
        let mut i: usize = 0;
        while i < n
            invariant
                0 <= i <= n,
                n == self.changed@.len(),
                self.values@ == old(self).values@,
                self.changed@.len() == old(self).changed@.len(),
                old(self).changed@.len() == old(self).values@.len(),
                forall|k: int| 0 <= k < i ==> !self.changed@[k],
            decreases n - i,
        {
            self.changed.set(i, false);
            i = i + 1;
        }
        assert(self.changed@ =~= Seq::new(old(self)@.values.len(), |i: int| false));
    }
}

/// A field reads back what was last written into it, other fields read as
/// before, and the written field stays marked changed until the mask is
/// cleared.
pub proof fn lemma_set_then_get(v: ValueFieldsView, field: int, value: u32, other: int)
    requires
        value_fields_wf(v),
        0 <= field < v.values.len(),
        0 <= other < v.values.len(),
        other != field,
    ensures
        set_field_spec(v, field, value).values[field] == value,
        set_field_spec(v, field, value).changed[field],
        set_field_spec(v, field, value).values[other] == v.values[other],
        set_field_spec(v, field, value).changed[other] == v.changed[other],
        value_fields_wf(set_field_spec(v, field, value)),
{
}

} // verus!
