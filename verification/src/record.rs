//! Record instances: the live values the operations bind and write back to.
//!
//! A record holds one value per declared field, in field order; it conforms
//! to a descriptor when lengths match and every value carries its field's
//! declared type.

use vstd::prelude::*;
use crate::descriptor::DescV;
use crate::value::{tag_of, Value, ValueV};

verus! {

/// A live instance of a mapped record type: one value per field, in the
/// descriptor's field order.
#[derive(Debug)]
pub struct Record {
    pub values: Vec<Value>,
}

impl View for Record {
    type V = Seq<ValueV>;

    open spec fn view(&self) -> Seq<ValueV> {
        self.values@.map_values(|v: Value| v@)
    }
}

/// The record's values line up with the descriptor's fields: same length,
/// and each value carries its field's declared type.
pub open spec fn conforms(rec: Seq<ValueV>, desc: DescV) -> bool {
    &&& rec.len() == desc.fields.len()
    &&& forall|i: int| 0 <= i < rec.len() ==> tag_of(#[trigger] rec[i]) == desc.fields[i].ty
}

impl Record {
    /// The number of field values held.
    pub fn len(&self) -> (n: usize)
        ensures
            n == self@.len(),
    {
        self.values.len()
    }

    /// A copy of this record with the value at `i` replaced by `v`; every
    /// other position is untouched.
    pub fn with_value_at(&self, i: usize, v: Value) -> (r: Record)
        requires
            i < self@.len(),
        ensures
            r@ == self@.update(i as int, v@),
    {
        let mut values: Vec<Value> = Vec::new();
        let n = self.values.len();
        for j in 0..n
            invariant
                n == self.values.len(),
                i < n,
                values@.len() == j,
                forall|k: int| 0 <= k < j && k != i ==> #[trigger] values@[k]@ == self.values@[k]@,
                i < j ==> values@[i as int]@ == v@,
        {
            if j == i {
                values.push(v.clone());
            } else {
                values.push(self.values[j].clone());
            }
        }
        let r = Record { values };
        assert forall|k: int| 0 <= k < n implies r@[k] == self@.update(i as int, v@)[k] by {
            assert(r@[k] == r.values@[k]@);
            assert(self@[k] == self.values@[k]@);
        }
        assert(r@ =~= self@.update(i as int, v@));
        r
    }

    /// Field-for-field equality of the held values.
    pub fn same_values(&self, other: &Record) -> (r: bool)
        ensures
            r == (self@ == other@),
    {
        if self.values.len() != other.values.len() {
            assert(self@.len() != other@.len());
            return false;
        }
        let n = self.values.len();
        for i in 0..n
            invariant
                n == self.values.len(),
                n == other.values.len(),
                forall|j: int| 0 <= j < i ==> self@[j] == other@[j],
        {
            if !(self.values[i] == other.values[i]) {
                assert(self@[i as int] != other@[i as int]);
                return false;
            }
            assert(self@[i as int] == other@[i as int]);
        }
        assert(self@ =~= other@);
        true
    }
}

/// The view of every record of a batch.
pub open spec fn batch_view(rs: Seq<Record>) -> Seq<Seq<ValueV>> {
    rs.map_values(|r: Record| r@)
}

/// Every record of the batch conforms to the descriptor.
pub open spec fn batch_conforms(rs: Seq<Record>, desc: DescV) -> bool {
    forall|i: int| 0 <= i < rs.len() ==> conforms(#[trigger] rs[i]@, desc)
}

} // verus!
