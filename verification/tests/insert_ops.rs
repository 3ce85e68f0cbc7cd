use canyon_ops::descriptor::{EntityDescriptor, FieldDef};
use canyon_ops::errors::InsertError;
use canyon_ops::ops::generate_operations;
use canyon_ops::ops::InsertOps;
use canyon_ops::record::Record;
use canyon_ops::rows::{Row, RowEntry, RowSet};
use canyon_ops::value::{TypeTag, Value};

fn widget_descriptor() -> EntityDescriptor {
    EntityDescriptor::new(
        "Widget".to_string(),
        "widget".to_string(),
        vec![
            FieldDef { name: "id".to_string(), ty: TypeTag::Int },
            FieldDef { name: "name".to_string(), ty: TypeTag::Text },
        ],
        Some("id".to_string()),
    )
    .expect("widget metadata is well formed")
}

fn widget_ops() -> InsertOps {
    generate_operations(widget_descriptor()).expect("widget declares a primary key")
}

fn widget(name: &str) -> Record {
    Record { values: vec![Value::Int(0), Value::Text(name.to_string())] }
}

fn id_row(id: i64) -> Row {
    Row { entries: vec![RowEntry { column: "id".to_string(), value: Value::Int(id) }] }
}

#[test]
fn keyless_entity_has_no_operations() {
    let desc = EntityDescriptor::new(
        "Note".to_string(),
        "note".to_string(),
        vec![FieldDef { name: "body".to_string(), ty: TypeTag::Text }],
        None,
    )
    .expect("keyless metadata is still well formed");
    assert!(generate_operations(desc).is_none());
}

#[test]
fn unknown_key_field_is_refused() {
    let desc = EntityDescriptor::new(
        "Widget".to_string(),
        "widget".to_string(),
        vec![FieldDef { name: "name".to_string(), ty: TypeTag::Text }],
        Some("id".to_string()),
    );
    assert!(desc.is_none());
}

#[test]
fn duplicate_field_names_are_refused() {
    let desc = EntityDescriptor::new(
        "Widget".to_string(),
        "widget".to_string(),
        vec![
            FieldDef { name: "name".to_string(), ty: TypeTag::Text },
            FieldDef { name: "name".to_string(), ty: TypeTag::Int },
        ],
        None,
    );
    assert!(desc.is_none());
}

#[test]
fn generated_operations_pass_their_own_check() {
    let ops = widget_ops();
    assert!(ops.wf_check());
    assert_eq!(ops.key_index, 0);
    assert!(ops.record_conforms(&widget("A")));
    assert!(!ops.record_conforms(&Record { values: vec![Value::Int(1)] }));
}

#[test]
fn hand_built_operation_sets_are_checkable() {
    let misplaced = InsertOps { desc: widget_descriptor(), key_index: 1 };
    assert!(!misplaced.wf_check());
    let keyless = EntityDescriptor::new(
        "Note".to_string(),
        "note".to_string(),
        vec![FieldDef { name: "body".to_string(), ty: TypeTag::Text }],
        None,
    )
    .expect("keyless metadata is still well formed");
    assert!(keyless.wf_check());
    assert!(!InsertOps { desc: keyless, key_index: 0 }.wf_check());
}

#[test]
fn insert_request_binds_non_key_fields() {
    let ops = widget_ops();
    let st = ops.insert_request(&widget("A"));
    assert_eq!(st.table, "widget");
    assert_eq!(st.key_column, "id");
    assert_eq!(st.columns, vec!["name".to_string()]);
    assert_eq!(st.params, vec![Value::Text("A".to_string())]);
    assert_eq!(st.datasource, "");
}

#[test]
fn datasource_variant_differs_only_in_the_identifier() {
    let ops = widget_ops();
    let default = ops.insert_request(&widget("A"));
    let named = ops.insert_request_datasource(&widget("A"), "replica");
    assert_eq!(named.datasource, "replica");
    assert_eq!(named.table, default.table);
    assert_eq!(named.key_column, default.key_column);
    assert_eq!(named.columns, default.columns);
    assert_eq!(named.params, default.params);
}

#[test]
fn single_insert_assigns_returned_key() {
    let ops = widget_ops();
    let mut rec = widget("A");
    let outcome: Result<RowSet, String> = Ok(RowSet { rows: vec![id_row(7)] });
    assert!(ops.insert_result_apply(&mut rec, &outcome).is_ok());
    assert_eq!(rec.values[0], Value::Int(7));
    assert_eq!(rec.values[1], Value::Text("A".to_string()));
}

#[test]
fn abort_variant_writes_the_key_the_same_way() {
    let ops = widget_ops();
    let mut rec = widget("A");
    let rows = RowSet { rows: vec![id_row(7)] };
    ops.insert_apply(&mut rec, &rows);
    assert_eq!(rec.values[0], Value::Int(7));
    assert_eq!(rec.values[1], Value::Text("A".to_string()));
}

#[test]
fn failed_insert_leaves_record_unchanged() {
    let ops = widget_ops();
    let mut rec = widget("A");
    let before = rec.with_value_at(0, Value::Int(0));
    let outcome: Result<RowSet, String> = Err("connection refused".to_string());
    let r = ops.insert_result_apply(&mut rec, &outcome);
    match r {
        Err(InsertError::Execution(m)) => assert_eq!(m, "connection refused"),
        other => panic!("expected an execution failure, got {:?}", other),
    }
    assert!(rec.same_values(&before));
}

#[test]
fn missing_row_is_an_extraction_failure() {
    let ops = widget_ops();
    let mut rec = widget("A");
    let outcome: Result<RowSet, String> = Ok(RowSet { rows: vec![] });
    let r = ops.insert_result_apply(&mut rec, &outcome);
    assert!(matches!(r, Err(InsertError::MissingRow)));
    assert_eq!(rec.values[0], Value::Int(0));
}

#[test]
fn wrongly_typed_key_column_is_an_extraction_failure() {
    let ops = widget_ops();
    let mut rec = widget("A");
    let row = Row {
        entries: vec![RowEntry { column: "id".to_string(), value: Value::Text("7".to_string()) }],
    };
    let outcome: Result<RowSet, String> = Ok(RowSet { rows: vec![row] });
    let r = ops.insert_result_apply(&mut rec, &outcome);
    assert!(matches!(r, Err(InsertError::KeyColumnMissing)));
    assert_eq!(rec.values[0], Value::Int(0));
}

#[test]
fn absent_key_column_is_an_extraction_failure() {
    let ops = widget_ops();
    let mut rec = widget("A");
    let row = Row {
        entries: vec![RowEntry { column: "ext".to_string(), value: Value::Int(7) }],
    };
    let outcome: Result<RowSet, String> = Ok(RowSet { rows: vec![row] });
    let r = ops.insert_result_apply(&mut rec, &outcome);
    assert!(matches!(r, Err(InsertError::KeyColumnMissing)));
    assert_eq!(rec.values[0], Value::Int(0));
}

#[test]
fn batch_request_binds_each_record_in_order() {
    let ops = widget_ops();
    let batch = vec![widget("A"), widget("B")];
    let st = ops.multi_insert_request(&batch);
    assert_eq!(st.table, "widget");
    assert_eq!(st.key_column, "id");
    assert_eq!(st.columns, vec!["name".to_string()]);
    assert_eq!(
        st.param_lists,
        vec![
            vec![Value::Text("A".to_string())],
            vec![Value::Text("B".to_string())],
        ]
    );
    assert_eq!(st.datasource, "");
    let named = ops.multi_insert_request_datasource(&batch, "replica");
    assert_eq!(named.datasource, "replica");
    assert_eq!(named.param_lists, st.param_lists);
}

#[test]
fn batch_insert_assigns_keys_in_submission_order() {
    let ops = widget_ops();
    let mut batch = vec![widget("A"), widget("B")];
    let outcome: Result<RowSet, String> = Ok(RowSet { rows: vec![id_row(7), id_row(8)] });
    assert!(ops.multi_insert_result_apply(&mut batch, &outcome).is_ok());
    assert_eq!(batch[0].values[0], Value::Int(7));
    assert_eq!(batch[0].values[1], Value::Text("A".to_string()));
    assert_eq!(batch[1].values[0], Value::Int(8));
    assert_eq!(batch[1].values[1], Value::Text("B".to_string()));
}

#[test]
fn abort_variant_batch_writes_all_keys() {
    let ops = widget_ops();
    let mut batch = vec![widget("A"), widget("B")];
    let rows = RowSet { rows: vec![id_row(7), id_row(8)] };
    ops.multi_insert_apply(&mut batch, &rows);
    assert_eq!(batch[0].values[0], Value::Int(7));
    assert_eq!(batch[1].values[0], Value::Int(8));
}

#[test]
fn short_batch_result_mutates_nothing() {
    let ops = widget_ops();
    let mut batch = vec![widget("A"), widget("B")];
    let outcome: Result<RowSet, String> = Ok(RowSet { rows: vec![id_row(7)] });
    let r = ops.multi_insert_result_apply(&mut batch, &outcome);
    assert!(matches!(r, Err(InsertError::RowCountMismatch)));
    assert_eq!(batch[0].values[0], Value::Int(0));
    assert_eq!(batch[1].values[0], Value::Int(0));
}

#[test]
fn bad_key_in_one_batch_row_mutates_nothing() {
    let ops = widget_ops();
    let mut batch = vec![widget("A"), widget("B")];
    let bad = Row {
        entries: vec![RowEntry { column: "id".to_string(), value: Value::Bool(true) }],
    };
    let outcome: Result<RowSet, String> = Ok(RowSet { rows: vec![id_row(7), bad] });
    let r = ops.multi_insert_result_apply(&mut batch, &outcome);
    assert!(matches!(r, Err(InsertError::KeyColumnMissing)));
    assert_eq!(batch[0].values[0], Value::Int(0));
    assert_eq!(batch[1].values[0], Value::Int(0));
}

#[test]
fn failed_batch_execution_mutates_nothing() {
    let ops = widget_ops();
    let mut batch = vec![widget("A"), widget("B")];
    let outcome: Result<RowSet, String> = Err("timeout".to_string());
    let r = ops.multi_insert_result_apply(&mut batch, &outcome);
    match r {
        Err(InsertError::Execution(m)) => assert_eq!(m, "timeout"),
        other => panic!("expected an execution failure, got {:?}", other),
    }
    assert_eq!(batch[0].values[0], Value::Int(0));
    assert_eq!(batch[1].values[0], Value::Int(0));
}

#[test]
fn extra_rows_beyond_the_batch_are_ignored() {
    let ops = widget_ops();
    let mut batch = vec![widget("A"), widget("B")];
    let outcome: Result<RowSet, String> = Ok(
        RowSet { rows: vec![id_row(7), id_row(8), id_row(9)] },
    );
    assert!(ops.multi_insert_result_apply(&mut batch, &outcome).is_ok());
    assert_eq!(batch[0].values[0], Value::Int(7));
    assert_eq!(batch[1].values[0], Value::Int(8));
}

#[test]
fn key_in_the_middle_of_the_field_list() {
    let desc = EntityDescriptor::new(
        "Score".to_string(),
        "score".to_string(),
        vec![
            FieldDef { name: "points".to_string(), ty: TypeTag::Int },
            FieldDef { name: "id".to_string(), ty: TypeTag::Int },
            FieldDef { name: "active".to_string(), ty: TypeTag::Bool },
        ],
        Some("id".to_string()),
    )
    .expect("score metadata is well formed");
    let ops = generate_operations(desc).expect("score declares a primary key");
    assert_eq!(ops.key_index, 1);
    let mut rec = Record {
        values: vec![Value::Int(42), Value::Int(0), Value::Bool(true)],
    };
    let st = ops.insert_request(&rec);
    assert_eq!(st.columns, vec!["points".to_string(), "active".to_string()]);
    assert_eq!(st.params, vec![Value::Int(42), Value::Bool(true)]);
    let outcome: Result<RowSet, String> = Ok(RowSet { rows: vec![id_row(5)] });
    assert!(ops.insert_result_apply(&mut rec, &outcome).is_ok());
    assert_eq!(rec.values[0], Value::Int(42));
    assert_eq!(rec.values[1], Value::Int(5));
    assert_eq!(rec.values[2], Value::Bool(true));
}

#[test]
fn row_lookup_is_by_name_and_type() {
    let row = Row {
        entries: vec![
            RowEntry { column: "name".to_string(), value: Value::Text("A".to_string()) },
            RowEntry { column: "id".to_string(), value: Value::Int(7) },
        ],
    };
    assert_eq!(row.get_typed(&"id".to_string(), TypeTag::Int), Some(Value::Int(7)));
    assert_eq!(row.get_typed(&"id".to_string(), TypeTag::Text), None);
    assert_eq!(row.get_typed(&"slug".to_string(), TypeTag::Text), None);
}

#[test]
fn error_descriptions_carry_the_backend_message() {
    let e = InsertError::Execution("boom".to_string());
    assert_eq!(e.describe(), "boom");
    let mismatch = InsertError::RowCountMismatch;
    assert_eq!(
        mismatch.describe(),
        "failed getting the returned IDs for a multi insert"
    );
}
