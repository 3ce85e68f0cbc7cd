//! The operation set of a keyed entity: statement building and key
//! propagation.
//!
//! [`generate_operations`] is the build-time step: it consumes a validated
//! descriptor and derives the insert operations — exactly when the entity
//! declares a primary key. A keyless entity gets no operation set at all,
//! so no insert-family operation exists for it.
//!
//! Each operation is split at the network boundary. A request builder turns
//! a record (or batch) into the bound statement a backend executes: every
//! non-key field bound in column order, the key omitted and named separately
//! for extraction. An apply function takes the backend's outcome and runs
//! the key-propagation protocol: it reads the key column of the returned
//! row(s) and writes it into the originating record(s), index-aligned and
//! only after the whole outcome has been checked — a failed call never
//! mutates any record.

use vstd::prelude::*;
use crate::descriptor::{
    field_named, has_field, index_of_field, lemma_index_of_field_unique, DescV, EntityDescriptor,
    FieldDef, FieldV,
};
use crate::descriptor::field_index;
use crate::errors::{InsertError, InsertErrorV};
use crate::record::{batch_conforms, batch_view, conforms, Record};
use crate::rows::{typed_lookup, EntryV, RowSet};
use crate::value::{tag_of, Value, ValueV};

verus! {

/// The insert-family operations derived for one keyed entity.
pub struct InsertOps {
    pub desc: EntityDescriptor,
    pub key_index: usize,
}

impl InsertOps {
    /// The operation set is sound: the descriptor holds its invariant, a
    /// primary key is declared, and `key_index` is its position.
    pub open spec fn wf(self) -> bool {
        &&& self.desc@.wf()
        &&& self.desc@.primary_key is Some
        &&& field_named(self.desc@.fields, self.desc@.primary_key->0, self.key_index as int)
    }

    /// The key field's position.
    pub open spec fn key_ix(self) -> int {
        self.key_index as int
    }
}

/// The column names of a field list, in order.
pub open spec fn field_names(fields: Seq<FieldV>) -> Seq<Seq<char>> {
    fields.map_values(|f: FieldV| f.name)
}

/// The non-key column names, in declaration order.
pub open spec fn non_key_columns(desc: DescV, ki: int) -> Seq<Seq<char>> {
    field_names(desc.fields).remove(ki)
}

/// The bound parameters of one record: every field but the key, in column
/// order.
pub open spec fn bound_params(rec: Seq<ValueV>, ki: int) -> Seq<ValueV> {
    rec.remove(ki)
}

/// A single-record insert statement, ready for a backend.
#[derive(Debug)]
pub struct InsertStatement {
    pub table: String,
    pub key_column: String,
    pub columns: Vec<String>,
    pub params: Vec<Value>,
    pub datasource: String,
}

/// Spec-level shape of an [`InsertStatement`].
pub struct StatementV {
    pub table: Seq<char>,
    pub key_column: Seq<char>,
    pub columns: Seq<Seq<char>>,
    pub params: Seq<ValueV>,
    pub datasource: Seq<char>,
}

impl View for InsertStatement {
    type V = StatementV;

    open spec fn view(&self) -> StatementV {
        StatementV {
            table: self.table@,
            key_column: self.key_column@,
            columns: self.columns@.map_values(|s: String| s@),
            params: self.params@.map_values(|v: Value| v@),
            datasource: self.datasource@,
        }
    }
}

/// The statement a single-record insert sends.
pub open spec fn spec_insert_statement(
    desc: DescV,
    ki: int,
    rec: Seq<ValueV>,
    ds: Seq<char>,
) -> StatementV {
    StatementV {
        table: desc.table_name,
        key_column: desc.primary_key->0,
        columns: non_key_columns(desc, ki),
        params: bound_params(rec, ki),
        datasource: ds,
    }
}

/// A batched insert statement: one bound parameter list per record, in
/// submission order, as one logical request.
#[derive(Debug)]
pub struct BatchStatement {
    pub table: String,
    pub key_column: String,
    pub columns: Vec<String>,
    pub param_lists: Vec<Vec<Value>>,
    pub datasource: String,
}

/// Spec-level shape of a [`BatchStatement`].
pub struct BatchStatementV {
    pub table: Seq<char>,
    pub key_column: Seq<char>,
    pub columns: Seq<Seq<char>>,
    pub param_lists: Seq<Seq<ValueV>>,
    pub datasource: Seq<char>,
}

impl View for BatchStatement {
    type V = BatchStatementV;

    open spec fn view(&self) -> BatchStatementV {
        BatchStatementV {
            table: self.table@,
            key_column: self.key_column@,
            columns: self.columns@.map_values(|s: String| s@),
            param_lists: self.param_lists@.map_values(
                |vs: Vec<Value>| vs@.map_values(|v: Value| v@),
            ),
            datasource: self.datasource@,
        }
    }
}

/// The statement a batched insert sends.
pub open spec fn spec_batch_statement(
    desc: DescV,
    ki: int,
    recs: Seq<Seq<ValueV>>,
    ds: Seq<char>,
) -> BatchStatementV {
    BatchStatementV {
        table: desc.table_name,
        key_column: desc.primary_key->0,
        columns: non_key_columns(desc, ki),
        param_lists: recs.map_values(|r: Seq<ValueV>| bound_params(r, ki)),
        datasource: ds,
    }
}

/// The key value row `row` returned: its key column, read by name and by
/// the key field's declared type.
pub open spec fn extract_key(desc: DescV, ki: int, row: Seq<EntryV>) -> Option<ValueV> {
    typed_lookup(row, desc.primary_key->0, desc.fields[ki].ty)
}

/// A single insert's rows carry the key: a first row exists and holds the
/// key column with the declared type.
pub open spec fn single_extract_ok(desc: DescV, ki: int, rows: Seq<Seq<EntryV>>) -> bool {
    rows.len() > 0 && extract_key(desc, ki, rows[0]) is Some
}

/// A batch's rows carry every key: one row per submitted record, each
/// holding the key column with the declared type.
pub open spec fn batch_extract_ok(desc: DescV, ki: int, n: int, rows: Seq<Seq<EntryV>>) -> bool {
    rows.len() >= n && forall|i: int| 0 <= i < n ==> extract_key(desc, ki, #[trigger] rows[i]) is Some
}

/// Derives the insert-family operations of one entity. The operations exist
/// exactly for entities that declare a primary key: a keyless entity has no
/// slot to receive a server-generated identifier, so none of the insert
/// operations is derived for it.
pub fn generate_operations(desc: EntityDescriptor) -> (r: Option<InsertOps>)
    requires
        desc@.wf(),
    ensures
        (r is Some) == (desc@.primary_key is Some),
        r matches Some(o) ==> o.wf() && o.desc@ == desc@ && o.key_ix() == index_of_field(
            desc@.fields,
            desc@.primary_key->0,
        ),
{
    let idx = match &desc.primary_key {
        Some(name) => field_index(&desc.fields, name),
        None => None,
    };
    match idx {
        Some(i) => {
            proof {
                lemma_index_of_field_unique(desc@.fields, desc@.primary_key->0, i as int);
            }
            Some(InsertOps { desc, key_index: i })
        },
        None => {
            proof {
                if desc@.primary_key is Some {
                    assert(has_field(desc@.fields, desc@.primary_key->0));
                    assert(false);
                }
            }
            None
        },
    }
}

/// The column names of every field but the one at `ki`, in order.
fn non_key_column_vec(fields: &Vec<FieldDef>, ki: usize) -> (r: Vec<String>)
    requires
        ki < fields@.len(),
    ensures
        r@.map_values(|s: String| s@) == field_names(
            fields@.map_values(|f: FieldDef| f@),
        ).remove(ki as int),
{
    let ghost fv = fields@.map_values(|f: FieldDef| f@);
    let ghost target = field_names(fv).remove(ki as int);
    let mut cols: Vec<String> = Vec::new();
    let n = fields.len();
    for j in 0..n
        invariant
            n == fields@.len(),
            ki < n,
            fv == fields@.map_values(|f: FieldDef| f@),
            cols@.len() == if j <= ki {
                j as int
            } else {
                j - 1
            },
            forall|k: int|
                0 <= k < cols@.len() ==> #[trigger] cols@[k]@ == if k < ki {
                    fv[k].name
                } else {
                    fv[k + 1].name
                },
    {
        if j != ki {
            cols.push(fields[j].name.clone());
        }
    }
    proof {
        assert forall|k: int| 0 <= k < n - 1 implies cols@.map_values(|s: String| s@)[k]
            == target[k] by {
            if k < ki {
                assert(target[k] == field_names(fv).subrange(0, ki as int)[k]);
            } else {
                assert(target[k] == field_names(fv).subrange(ki + 1, n as int)[k - ki]);
            }
        }
        assert(cols@.map_values(|s: String| s@) =~= target);
    }
    cols
}

/// The bound values of every field but the one at `ki`, in order.
fn params_excluding(values: &Vec<Value>, ki: usize) -> (r: Vec<Value>)
    requires
        ki < values@.len(),
    ensures
        r@.map_values(|v: Value| v@) == values@.map_values(|v: Value| v@).remove(ki as int),
{
    let ghost vv = values@.map_values(|v: Value| v@);
    let ghost target = vv.remove(ki as int);
    let mut params: Vec<Value> = Vec::new();
    let n = values.len();
    for j in 0..n
        invariant
            n == values@.len(),
            ki < n,
            vv == values@.map_values(|v: Value| v@),
            params@.len() == if j <= ki {
                j as int
            } else {
                j - 1
            },
            forall|k: int|
                0 <= k < params@.len() ==> #[trigger] params@[k]@ == if k < ki {
                    vv[k]
                } else {
                    vv[k + 1]
                },
    {
        if j != ki {
            params.push(values[j].clone());
        }
    }
    proof {
        assert forall|k: int| 0 <= k < n - 1 implies params@.map_values(|v: Value| v@)[k]
            == target[k] by {
            if k < ki {
                assert(target[k] == vv.subrange(0, ki as int)[k]);
            } else {
                assert(target[k] == vv.subrange(ki + 1, n as int)[k - ki]);
            }
        }
        assert(params@.map_values(|v: Value| v@) =~= target);
    }
    params
}

impl InsertOps {
    /// The record's values line up with the entity's fields.
    pub fn record_conforms(&self, record: &Record) -> (r: bool)
        ensures
            r == conforms(record@, self.desc@),
    {
        if record.values.len() != self.desc.fields.len() {
            return false;
        }
        let n = record.values.len();
        for i in 0..n
            invariant
                n == record.values.len(),
                n == self.desc.fields.len(),
                forall|j: int| 0 <= j < i ==> tag_of(#[trigger] record@[j]) == self.desc@.fields[j].ty,
        {
            proof {
                assert(record@[i as int] == record.values@[i as int]@);
                assert(self.desc@.fields[i as int] == self.desc.fields@[i as int]@);
            }
            let t = record.values[i].tag();
            if !(t == self.desc.fields[i].ty) {
                return false;
            }
        }
        true
    }

    /// Every record of the batch lines up with the entity's fields.
    pub fn batch_records_conform(&self, records: &Vec<Record>) -> (r: bool)
        ensures
            r == batch_conforms(records@, self.desc@),
    {
        let n = records.len();
        for i in 0..n
            invariant
                n == records.len(),
                forall|j: int| 0 <= j < i ==> conforms(#[trigger] records@[j]@, self.desc@),
        {
            if !self.record_conforms(&records[i]) {
                return false;
            }
        }
        true
    }

    /// Re-checks the operation set's invariant on a value built by hand.
    pub fn wf_check(&self) -> (r: bool)
        ensures
            r == self.wf(),
    {
        if !self.desc.wf_check() {
            return false;
        }
        if self.key_index >= self.desc.fields.len() {
            return false;
        }
        match &self.desc.primary_key {
            None => false,
            Some(name) => {
                proof {
                    assert(self.desc@.fields[self.key_index as int]
                        == self.desc.fields@[self.key_index as int]@);
                }
                self.desc.fields[self.key_index].name == *name
            },
        }
    }

    /// Builds the single-record insert statement against the named
    /// datasource: every non-key field bound in column order, the key column
    /// named separately for extraction, never supplied as a parameter.
    pub fn insert_request_datasource(&self, record: &Record, datasource: &str) -> (st:
        InsertStatement)
        requires
            self.wf(),
            conforms(record@, self.desc@),
        ensures
            st@ == spec_insert_statement(self.desc@, self.key_ix(), record@, datasource@),
    {
        proof {
            assert(self.desc@.fields[self.key_index as int]
                == self.desc.fields@[self.key_index as int]@);
        }
        let st = InsertStatement {
            table: self.desc.table_name.clone(),
            key_column: self.desc.fields[self.key_index].name.clone(),
            columns: non_key_column_vec(&self.desc.fields, self.key_index),
            params: params_excluding(&record.values, self.key_index),
            datasource: datasource.to_owned(),
        };
        st
    }

    /// Builds the single-record insert statement against the default
    /// datasource; identical to the named variant but for the identifier.
    pub fn insert_request(&self, record: &Record) -> (st: InsertStatement)
        requires
            self.wf(),
            conforms(record@, self.desc@),
        ensures
            st@ == spec_insert_statement(
                self.desc@,
                self.key_ix(),
                record@,
                Seq::<char>::empty(),
            ),
    {
        let st = self.insert_request_datasource(record, "");
        proof {
            reveal_strlit("");
            assert(""@ =~= Seq::<char>::empty());
        }
        st
    }

    /// Builds the batched insert statement against the named datasource:
    /// one bound parameter list per record, in submission order.
    pub fn multi_insert_request_datasource(&self, records: &Vec<Record>, datasource: &str) -> (st:
        BatchStatement)
        requires
            self.wf(),
            batch_conforms(records@, self.desc@),
        ensures
            st@ == spec_batch_statement(
                self.desc@,
                self.key_ix(),
                batch_view(records@),
                datasource@,
            ),
    {
        proof {
            assert(self.desc@.fields[self.key_index as int]
                == self.desc.fields@[self.key_index as int]@);
        }
        let ghost target = batch_view(records@).map_values(
            |r: Seq<ValueV>| bound_params(r, self.key_ix()),
        );
        let mut lists: Vec<Vec<Value>> = Vec::new();
        let n = records.len();
        for i in 0..n
            invariant
                n == records.len(),
                self.wf(),
                batch_conforms(records@, self.desc@),
                target == batch_view(records@).map_values(
                    |r: Seq<ValueV>| bound_params(r, self.key_ix()),
                ),
                lists@.len() == i,
                forall|j: int|
                    0 <= j < i ==> (#[trigger] lists@[j])@.map_values(|v: Value| v@) == target[j],
        {
            proof {
                assert(conforms(records@[i as int]@, self.desc@));
                assert(batch_view(records@)[i as int] == records@[i as int]@);
            }
            let ps = params_excluding(&records[i].values, self.key_index);
            lists.push(ps);
        }
        let st = BatchStatement {
            table: self.desc.table_name.clone(),
            key_column: self.desc.fields[self.key_index].name.clone(),
            columns: non_key_column_vec(&self.desc.fields, self.key_index),
            param_lists: lists,
            datasource: datasource.to_owned(),
        };
        proof {
            assert(st@.param_lists =~= target);
        }
        st
    }

    /// Builds the batched insert statement against the default datasource;
    /// identical to the named variant but for the identifier.
    pub fn multi_insert_request(&self, records: &Vec<Record>) -> (st: BatchStatement)
        requires
            self.wf(),
            batch_conforms(records@, self.desc@),
        ensures
            st@ == spec_batch_statement(
                self.desc@,
                self.key_ix(),
                batch_view(records@),
                Seq::<char>::empty(),
            ),
    {
        let st = self.multi_insert_request_datasource(records, "");
        proof {
            reveal_strlit("");
            assert(""@ =~= Seq::<char>::empty());
        }
        st
    }

    /// The shared single-record propagation step: reads row 0's key column
    /// by name and by the key field's declared type, and writes it into the
    /// record's key field. On any extraction failure the record is left
    /// bit-for-bit unchanged.
    pub fn propagate_single_key(&self, record: &mut Record, rows: &RowSet) -> (r: Result<
        (),
        InsertError,
    >)
        requires
            self.wf(),
            conforms(old(record)@, self.desc@),
        ensures
            rows@.len() == 0 ==> (r matches Err(e) && e@ is MissingRow && final(record)@ == old(record)@),
            (rows@.len() > 0 && extract_key(self.desc@, self.key_ix(), rows@[0]) is None) ==> (
            r matches Err(e) && e@ is KeyColumnMissing && final(record)@ == old(record)@),
            single_extract_ok(self.desc@, self.key_ix(), rows@) ==> (r is Ok && final(record)@
                == old(record)@.update(
                self.key_ix(),
                extract_key(self.desc@, self.key_ix(), rows@[0])->0,
            )),
    {
        if rows.rows.len() == 0 {
            return Err(InsertError::MissingRow);
        }
        proof {
            assert(rows@[0] == rows.rows@[0]@);
            assert(self.desc@.fields[self.key_index as int]
                == self.desc.fields@[self.key_index as int]@);
        }
        let row = &rows.rows[0];
        let kf = &self.desc.fields[self.key_index];
        match row.get_typed(&kf.name, kf.ty) {
            None => Err(InsertError::KeyColumnMissing),
            Some(v) => {
                let updated = record.with_value_at(self.key_index, v);
                *record = updated;
                Ok(())
            },
        }
    }

    /// Result-returning single insert, after the backend answered: an
    /// execution failure is passed through as a result the caller inspects;
    /// a missing row or key column is reported as the protocol violation it
    /// is. On every failure the record is left bit-for-bit unchanged; on
    /// success its key field — and nothing else — receives the returned key.
    pub fn insert_result_apply(&self, record: &mut Record, outcome: &Result<RowSet, String>) -> (r:
        Result<(), InsertError>)
        requires
            self.wf(),
            conforms(old(record)@, self.desc@),
        ensures
            ({
                let ki = self.key_ix();
                match outcome {
                    Err(m) => (r matches Err(e) && e@ == InsertErrorV::Execution(m@) && final(record)@ == old(record)@),
                    Ok(rs) => {
                        &&& (rs@.len() == 0 ==> (r matches Err(e) && e@ is MissingRow && final(record)@ == old(record)@))
                        &&& ((rs@.len() > 0 && extract_key(self.desc@, ki, rs@[0]) is None) ==> (
                        r matches Err(e) && e@ is KeyColumnMissing && final(record)@ == old(record)@))
                        &&& (single_extract_ok(self.desc@, ki, rs@) ==> (r is Ok && final(record)@
                            == old(record)@.update(ki, extract_key(self.desc@, ki, rs@[0])->0)))
                    },
                }
            }),
    {
        match outcome {
            Err(m) => Err(InsertError::Execution(m.clone())),
            Ok(rs) => self.propagate_single_key(record, rs),
        }
    }

    /// Abort-philosophy single insert, after the backend answered: the
    /// caller has already ruled failure out, so the key is written
    /// unconditionally. An execution or extraction failure is not
    /// recoverable at such call sites; the calling context stops instead of
    /// reaching this step.
    pub fn insert_apply(&self, record: &mut Record, rows: &RowSet)
        requires
            self.wf(),
            conforms(old(record)@, self.desc@),
            single_extract_ok(self.desc@, self.key_ix(), rows@),
        ensures
            final(record)@ == old(record)@.update(
                self.key_ix(),
                extract_key(self.desc@, self.key_ix(), rows@[0])->0,
            ),
    {
        match self.propagate_single_key(record, rows) {
            Ok(()) => {},
            Err(_) => {
                proof {
                    assert(false);
                }
            },
        }
    }

    /// The shared batch propagation step: demands one returned row per
    /// submitted record, reads each row's key column, and only when every
    /// key extracts writes `row[i]`'s key into `batch[i]`, in submission
    /// order. A short row set or an unreadable key leaves every record
    /// bit-for-bit unchanged: a partially-keyed batch never escapes.
    pub fn propagate_batch_keys(&self, records: &mut Vec<Record>, rows: &RowSet) -> (r: Result<
        (),
        InsertError,
    >)
        requires
            self.wf(),
            batch_conforms(old(records)@, self.desc@),
        ensures
            rows@.len() < old(records)@.len() ==> (r matches Err(e) && e@ is RowCountMismatch
                && final(records)@ == old(records)@),
            (rows@.len() >= old(records)@.len() && !batch_extract_ok(
                self.desc@,
                self.key_ix(),
                old(records)@.len() as int,
                rows@,
            )) ==> (r matches Err(e) && e@ is KeyColumnMissing && final(records)@ == old(records)@),
            batch_extract_ok(self.desc@, self.key_ix(), old(records)@.len() as int, rows@) ==> (
            r is Ok && final(records)@.len() == old(records)@.len() && (forall|i: int|
                0 <= i < old(records)@.len() ==> #[trigger] final(records)@[i]@ == old(records)@[i]@.update(
                    self.key_ix(),
                    extract_key(self.desc@, self.key_ix(), rows@[i])->0,
                ))),
    {
        let n = records.len();
        if rows.rows.len() < n {
            return Err(InsertError::RowCountMismatch);
        }
        proof {
            assert(self.desc@.fields[self.key_index as int]
                == self.desc.fields@[self.key_index as int]@);
        }
        let kf = &self.desc.fields[self.key_index];
        let mut out: Vec<Record> = Vec::new();
        for i in 0..n
            invariant
                self.wf(),
                n == records@.len(),
                records@ == old(records)@,
                rows@.len() >= n,
                batch_conforms(records@, self.desc@),
                kf@ == self.desc@.fields[self.key_index as int],
                kf.ty == self.desc@.fields[self.key_ix()].ty,
                kf.name@ == self.desc@.primary_key->0,
                out@.len() == i,
                forall|j: int|
                    0 <= j < i ==> extract_key(self.desc@, self.key_ix(), #[trigger] rows@[j]) is Some,
                forall|j: int|
                    0 <= j < i ==> #[trigger] out@[j]@ == records@[j]@.update(
                        self.key_ix(),
                        extract_key(self.desc@, self.key_ix(), rows@[j])->0,
                    ),
        {
            proof {
                assert(rows@[i as int] == rows.rows@[i as int]@);
                assert(conforms(records@[i as int]@, self.desc@));
            }
            let row = &rows.rows[i];
            match row.get_typed(&kf.name, kf.ty) {
                None => {
                    proof {
                        assert(extract_key(self.desc@, self.key_ix(), rows@[i as int]) is None);
                    }
                    return Err(InsertError::KeyColumnMissing);
                },
                Some(v) => {
                    let updated = records[i].with_value_at(self.key_index, v);
                    out.push(updated);
                },
            }
        }
        *records = out;
        Ok(())
    }

    /// Result-returning batched insert, after the backend answered: an
    /// execution failure is passed through; a row-count or key-column
    /// violation is reported and mutates nothing. On success `batch[i]`'s
    /// key field receives `row[i]`'s key column, submission order preserved.
    pub fn multi_insert_result_apply(
        &self,
        records: &mut Vec<Record>,
        outcome: &Result<RowSet, String>,
    ) -> (r: Result<(), InsertError>)
        requires
            self.wf(),
            batch_conforms(old(records)@, self.desc@),
        ensures
            ({
                let ki = self.key_ix();
                let n = old(records)@.len() as int;
                match outcome {
                    Err(m) => (r matches Err(e) && e@ == InsertErrorV::Execution(m@) && final(records)@ == old(records)@),
                    Ok(rs) => {
                        &&& (rs@.len() < n ==> (r matches Err(e) && e@ is RowCountMismatch
                            && final(records)@ == old(records)@))
                        &&& ((rs@.len() >= n && !batch_extract_ok(self.desc@, ki, n, rs@)) ==> (
                        r matches Err(e) && e@ is KeyColumnMissing && final(records)@ == old(records)@))
                        &&& (batch_extract_ok(self.desc@, ki, n, rs@) ==> (r is Ok && final(records)@.len() == n && (forall|i: int|
                            0 <= i < n ==> #[trigger] final(records)@[i]@ == old(records)@[i]@.update(ki, extract_key(self.desc@, ki, rs@[i])->0))))
                    },
                }
            }),
    {
        match outcome {
            Err(m) => Err(InsertError::Execution(m.clone())),
            Ok(rs) => self.propagate_batch_keys(records, rs),
        }
    }

    /// Abort-philosophy batched insert, after the backend answered: the
    /// caller has already ruled failure out, so every key is written,
    /// index-aligned with the submitted batch.
    pub fn multi_insert_apply(&self, records: &mut Vec<Record>, rows: &RowSet)
        requires
            self.wf(),
            batch_conforms(old(records)@, self.desc@),
            batch_extract_ok(self.desc@, self.key_ix(), old(records)@.len() as int, rows@),
        ensures
            final(records)@.len() == old(records)@.len(),
            forall|i: int|
                0 <= i < old(records)@.len() ==> #[trigger] final(records)@[i]@ == old(records)@[i]@.update(
                    self.key_ix(),
                    extract_key(self.desc@, self.key_ix(), rows@[i])->0,
                ),
    {
        match self.propagate_batch_keys(records, rows) {
            Ok(()) => {},
            Err(_) => {
                proof {
                    assert(false);
                }
            },
        }
    }
}

} // verus!
