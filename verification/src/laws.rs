//! The library's stated laws: properties that relate several operations,
//! proved once and for all over the spec functions the contracts use.

use vstd::prelude::*;
use crate::descriptor::DescV;
use crate::ops::{
    batch_extract_ok, bound_params, extract_key, spec_batch_statement, spec_insert_statement,
};
use crate::rows::EntryV;
use crate::value::ValueV;

verus! {

/// The default-datasource and named-datasource variants of a single insert
/// are behaviorally identical but for the datasource identifier: for the
/// same descriptor and record, the two statements agree on the table, the
/// key column, the bound columns and the bound parameters.
pub proof fn lemma_datasource_variants_agree(
    desc: DescV,
    ki: int,
    rec: Seq<ValueV>,
    ds: Seq<char>,
)
    ensures
        spec_insert_statement(desc, ki, rec, ds).table == spec_insert_statement(
            desc,
            ki,
            rec,
            Seq::<char>::empty(),
        ).table,
        spec_insert_statement(desc, ki, rec, ds).key_column == spec_insert_statement(
            desc,
            ki,
            rec,
            Seq::<char>::empty(),
        ).key_column,
        spec_insert_statement(desc, ki, rec, ds).columns == spec_insert_statement(
            desc,
            ki,
            rec,
            Seq::<char>::empty(),
        ).columns,
        spec_insert_statement(desc, ki, rec, ds).params == spec_insert_statement(
            desc,
            ki,
            rec,
            Seq::<char>::empty(),
        ).params,
        spec_insert_statement(desc, ki, rec, ds).datasource == ds,
{
}

/// The batched variants agree the same way: the datasource identifier is
/// the only difference between the default and the named batch statement.
pub proof fn lemma_batch_datasource_variants_agree(
    desc: DescV,
    ki: int,
    recs: Seq<Seq<ValueV>>,
    ds: Seq<char>,
)
    ensures
        spec_batch_statement(desc, ki, recs, ds).table == spec_batch_statement(
            desc,
            ki,
            recs,
            Seq::<char>::empty(),
        ).table,
        spec_batch_statement(desc, ki, recs, ds).key_column == spec_batch_statement(
            desc,
            ki,
            recs,
            Seq::<char>::empty(),
        ).key_column,
        spec_batch_statement(desc, ki, recs, ds).columns == spec_batch_statement(
            desc,
            ki,
            recs,
            Seq::<char>::empty(),
        ).columns,
        spec_batch_statement(desc, ki, recs, ds).param_lists == spec_batch_statement(
            desc,
            ki,
            recs,
            Seq::<char>::empty(),
        ).param_lists,
        spec_batch_statement(desc, ki, recs, ds).datasource == ds,
{
}

/// The parameter binder never supplies the key: the bound parameters of a
/// record are exactly its non-key field values, in field order — the value
/// before the key position unmoved, the ones after shifted down by one.
pub proof fn lemma_binder_omits_exactly_the_key(rec: Seq<ValueV>, ki: int)
    requires
        0 <= ki < rec.len(),
    ensures
        bound_params(rec, ki).len() == rec.len() - 1,
        forall|j: int| 0 <= j < ki ==> bound_params(rec, ki)[j] == rec[j],
        forall|j: int| ki <= j < rec.len() - 1 ==> bound_params(rec, ki)[j] == rec[j + 1],
{
    assert forall|j: int| 0 <= j < ki implies bound_params(rec, ki)[j] == rec[j] by {
        assert(bound_params(rec, ki)[j] == rec.subrange(0, ki)[j]);
    }
    assert forall|j: int| ki <= j < rec.len() - 1 implies bound_params(rec, ki)[j] == rec[j
        + 1] by {
        assert(bound_params(rec, ki)[j] == rec.subrange(ki + 1, rec.len() as int)[j - ki]);
    }
}

/// Key propagation writes the key field and nothing else: the updated
/// record holds the extracted key at the key position, every other field
/// bit-for-bit as before, and its length is unchanged.
pub proof fn lemma_propagation_writes_key_only(rec: Seq<ValueV>, ki: int, key: ValueV)
    requires
        0 <= ki < rec.len(),
    ensures
        rec.update(ki, key).len() == rec.len(),
        rec.update(ki, key)[ki] == key,
        forall|j: int| 0 <= j < rec.len() && j != ki ==> rec.update(ki, key)[j] == rec[j],
{
}

/// Batch propagation is index-aligned and order-preserving: when every row
/// of a successful batch carries its key, record `i` receives exactly row
/// `i`'s key column, and no other field of any record changes.
pub proof fn lemma_batch_propagation_order_preserved(
    desc: DescV,
    ki: int,
    recs: Seq<Seq<ValueV>>,
    rows: Seq<Seq<EntryV>>,
)
    requires
        batch_extract_ok(desc, ki, recs.len() as int, rows),
        forall|i: int| 0 <= i < recs.len() ==> 0 <= ki < (#[trigger] recs[i]).len(),
    ensures
        forall|i: int|
            0 <= i < recs.len() ==> (#[trigger] recs[i]).update(
                ki,
                extract_key(desc, ki, rows[i])->0,
            )[ki] == extract_key(desc, ki, rows[i])->0,
        forall|i: int, j: int|
            0 <= i < recs.len() && 0 <= j < recs[i].len() && j != ki ==> #[trigger] recs[i].update(
                ki,
                extract_key(desc, ki, rows[i])->0,
            )[j] == recs[i][j],
{
}

} // verus!
