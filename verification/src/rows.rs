//! The row-set wrapper: what a statement execution hands back.
//!
//! A row is an ordered list of named column values; a row set is the ordered
//! list of returned rows. A column is fetched by name and by an expected
//! type, and the fetch fails when the column is absent or its value carries
//! another type — exactly the cases the key-propagation protocol must treat
//! as extraction failures.

use vstd::prelude::*;
use crate::value::{tag_of, TypeTag, Value, ValueV};

verus! {

/// One named column value of a returned row.
pub struct RowEntry {
    pub column: String,
    pub value: Value,
}

/// Spec-level shape of a [`RowEntry`].
pub struct EntryV {
    pub column: Seq<char>,
    pub value: ValueV,
}

impl View for RowEntry {
    type V = EntryV;

    open spec fn view(&self) -> EntryV {
        EntryV { column: self.column@, value: self.value@ }
    }
}

/// One returned row.
pub struct Row {
    pub entries: Vec<RowEntry>,
}

impl View for Row {
    type V = Seq<EntryV>;

    open spec fn view(&self) -> Seq<EntryV> {
        self.entries@.map_values(|e: RowEntry| e@)
    }
}

/// The ordered rows a statement execution returned.
pub struct RowSet {
    pub rows: Vec<Row>,
}

impl View for RowSet {
    type V = Seq<Seq<EntryV>>;

    open spec fn view(&self) -> Seq<Seq<EntryV>> {
        self.rows@.map_values(|r: Row| r@)
    }
}

/// The first value stored under `column` in `row`, if any.
pub open spec fn lookup(row: Seq<EntryV>, column: Seq<char>) -> Option<ValueV>
    decreases row.len(),
{
    if row.len() == 0 {
        None
    } else if row[0].column == column {
        Some(row[0].value)
    } else {
        lookup(row.skip(1), column)
    }
}

/// The value stored under `column` in `row`, provided it carries type `tag`;
/// `None` when the column is absent or its value is of another type.
pub open spec fn typed_lookup(row: Seq<EntryV>, column: Seq<char>, tag: TypeTag) -> Option<
    ValueV,
> {
    match lookup(row, column) {
        Some(v) => if tag_of(v) == tag {
            Some(v)
        } else {
            None
        },
        None => None,
    }
}

/// The view of an optional fetched value.
pub open spec fn opt_value_view(r: Option<Value>) -> Option<ValueV> {
    match r {
        Some(v) => Some(v@),
        None => None,
    }
}

impl Row {
    /// Fetches the value stored under `column`, provided it carries type
    /// `tag`. Fails when the column is absent or holds another type.
    pub fn get_typed(&self, column: &String, tag: TypeTag) -> (r: Option<Value>)
        ensures
            opt_value_view(r) == typed_lookup(self@, column@, tag),
    {
        let n = self.entries.len();
        proof {
            assert(self@.skip(0) =~= self@);
        }
        for i in 0..n
            invariant
                n == self.entries.len(),
                lookup(self@, column@) == lookup(self@.skip(i as int), column@),
        {
            proof {
                assert(self@[i as int] == self.entries@[i as int]@);
                assert(self@.skip(i as int)[0] == self@[i as int]);
            }
            let e = &self.entries[i];
            if e.column == *column {
                assert(lookup(self@, column@) == Some(self@[i as int].value));
                if e.value.tag() == tag {
                    return Some(e.value.clone());
                } else {
                    return None;
                }
            }
            proof {
                assert(self@.skip(i as int).skip(1) =~= self@.skip(i as int + 1));
            }
        }
        proof {
            assert(self@.skip(n as int).len() == 0);
        }
        None
    }
}

impl RowSet {
    /// The number of returned rows.
    pub fn len(&self) -> (n: usize)
        ensures
            n == self@.len(),
    {
        self.rows.len()
    }
}

} // verus!
