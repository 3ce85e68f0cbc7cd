//! Entity descriptors: the per-type metadata the build pass extracts once.
//!
//! A descriptor carries the ordered field list of a record type, the table
//! that maps it, and the field designated as primary key, if any. Its
//! invariant: field names are distinct, and the primary key, when declared,
//! names a field of the list. [`EntityDescriptor::new`] validates exactly
//! that and refuses anything else.

use vstd::prelude::*;
use crate::value::TypeTag;

verus! {

/// One declared field: its column name and its type.
pub struct FieldDef {
    pub name: String,
    pub ty: TypeTag,
}

/// Spec-level shape of a [`FieldDef`].
pub struct FieldV {
    pub name: Seq<char>,
    pub ty: TypeTag,
}

impl View for FieldDef {
    type V = FieldV;

    open spec fn view(&self) -> FieldV {
        FieldV { name: self.name@, ty: self.ty }
    }
}

/// Metadata of one mapped record type, fixed at build time.
pub struct EntityDescriptor {
    pub entity_name: String,
    pub table_name: String,
    pub fields: Vec<FieldDef>,
    pub primary_key: Option<String>,
}

/// Spec-level shape of an [`EntityDescriptor`].
pub struct DescV {
    pub entity_name: Seq<char>,
    pub table_name: Seq<char>,
    pub fields: Seq<FieldV>,
    pub primary_key: Option<Seq<char>>,
}

impl View for EntityDescriptor {
    type V = DescV;

    open spec fn view(&self) -> DescV {
        DescV {
            entity_name: self.entity_name@,
            table_name: self.table_name@,
            fields: self.fields@.map_values(|f: FieldDef| f@),
            primary_key: match self.primary_key {
                Some(ref s) => Some(s@),
                None => None,
            },
        }
    }
}

/// Field `i` of `fields` is named `name`.
pub open spec fn field_named(fields: Seq<FieldV>, name: Seq<char>, i: int) -> bool {
    0 <= i < fields.len() && fields[i].name == name
}

/// Some field of `fields` is named `name`.
pub open spec fn has_field(fields: Seq<FieldV>, name: Seq<char>) -> bool {
    exists|i: int| field_named(fields, name, i)
}

/// The index of the field named `name` (meaningful when names are distinct
/// and the field exists).
pub open spec fn index_of_field(fields: Seq<FieldV>, name: Seq<char>) -> int {
    choose|i: int| field_named(fields, name, i)
}

/// No two fields share a name.
pub open spec fn distinct_names(fields: Seq<FieldV>) -> bool {
    forall|i: int, j: int|
        0 <= i < j < fields.len() ==> fields[i].name != fields[j].name
}

impl DescV {
    /// The descriptor's invariant: distinct field names, and a declared
    /// primary key names a field of the list.
    pub open spec fn wf(self) -> bool {
        &&& distinct_names(self.fields)
        &&& match self.primary_key {
            Some(name) => has_field(self.fields, name),
            None => true,
        }
    }
}

/// Looks a field up by name; returns the first (under distinctness: the only)
/// index carrying it.
pub fn field_index(fields: &Vec<FieldDef>, name: &String) -> (r: Option<usize>)
    ensures
        match r {
            Some(i) => field_named(fields@.map_values(|f: FieldDef| f@), name@, i as int),
            None => !has_field(fields@.map_values(|f: FieldDef| f@), name@),
        },
{
    let ghost fv = fields@.map_values(|f: FieldDef| f@);
    let n = fields.len();
    for i in 0..n
        invariant
            n == fields.len(),
            fv == fields@.map_values(|f: FieldDef| f@),
            forall|j: int| 0 <= j < i ==> fv[j].name != name@,
    {
        if fields[i].name == *name {
            assert(fv[i as int].name == name@);
            return Some(i);
        }
    }
    assert(forall|j: int| 0 <= j < fv.len() ==> fv[j].name != name@);
    None
}

/// Checks that no two fields share a name.
pub fn check_distinct_names(fields: &Vec<FieldDef>) -> (r: bool)
    ensures
        r == distinct_names(fields@.map_values(|f: FieldDef| f@)),
{
    let ghost fv = fields@.map_values(|f: FieldDef| f@);
    let n = fields.len();
    for i in 0..n
        invariant
            n == fields.len(),
            fv == fields@.map_values(|f: FieldDef| f@),
            forall|p: int, q: int| 0 <= p < q < fv.len() && p < i ==> fv[p].name != fv[q].name,
    {
        for j in (i + 1)..n
            invariant
                n == fields.len(),
                i < n,
                fv == fields@.map_values(|f: FieldDef| f@),
                forall|p: int, q: int| 0 <= p < q < fv.len() && p < i ==> fv[p].name != fv[q].name,
                forall|q: int| i < q < j ==> fv[i as int].name != fv[q].name,
        {
            if fields[i].name == fields[j].name {
                assert(fv[i as int].name == fv[j as int].name);
                return false;
            }
        }
    }
    true
}

impl EntityDescriptor {
    /// Builds the descriptor for one record type, validating its invariant:
    /// field names must be distinct, and the primary key, if declared, must
    /// name one of the fields. Returns `None` for metadata that breaks it.
    pub fn new(
        entity_name: String,
        table_name: String,
        fields: Vec<FieldDef>,
        primary_key: Option<String>,
    ) -> (r: Option<EntityDescriptor>)
        ensures
            ({
                let fv = fields@.map_values(|f: FieldDef| f@);
                let ok = distinct_names(fv) && match primary_key {
                    Some(ref n) => has_field(fv, n@),
                    None => true,
                };
                match r {
                    Some(d) => {
                        &&& ok
                        &&& d@.wf()
                        &&& d@.entity_name == entity_name@
                        &&& d@.table_name == table_name@
                        &&& d@.fields == fv
                        &&& d@.primary_key == match primary_key {
                            Some(ref n) => Some(n@),
                            None => None::<Seq<char>>,
                        }
                    },
                    None => !ok,
                }
            }),
    {
        if !check_distinct_names(&fields) {
            return None;
        }
        match primary_key {
            Some(name) => {
                match field_index(&fields, &name) {
                    Some(_) => Some(EntityDescriptor {
                        entity_name,
                        table_name,
                        fields,
                        primary_key: Some(name),
                    }),
                    None => None,
                }
            },
            None => Some(EntityDescriptor {
                entity_name,
                table_name,
                fields,
                primary_key: None,
            }),
        }
    }

    /// Re-checks the descriptor's invariant on a value built by hand.
    pub fn wf_check(&self) -> (r: bool)
        ensures
            r == self@.wf(),
    {
        if !check_distinct_names(&self.fields) {
            return false;
        }
        match &self.primary_key {
            Some(name) => {
                match field_index(&self.fields, name) {
                    Some(_) => true,
                    None => false,
                }
            },
            None => true,
        }
    }
}

/// Under distinct names, any index carrying `name` is the index
/// [`index_of_field`] denotes.
pub proof fn lemma_index_of_field_unique(fields: Seq<FieldV>, name: Seq<char>, i: int)
    requires
        distinct_names(fields),
        field_named(fields, name, i),
    ensures
        index_of_field(fields, name) == i,
        has_field(fields, name),
{
    assert(has_field(fields, name));
    let j = index_of_field(fields, name);
    assert(field_named(fields, name, j));
    if i < j {
        assert(fields[i].name != fields[j].name);
    } else if j < i {
        assert(fields[j].name != fields[i].name);
    }
}

} // verus!
