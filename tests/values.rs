use csharp_wrapper::pre_serialized_values::{
    serialize_each_cell, validate_number_of_columns, CellKind, CellRef, ColumnCountError,
    PreSerializedValues, SafeCell, SafePreSerializedValues, SerializeError, UnsafeCell,
    UnsafePreSerializedValues, MAX_VALUES_LENGTH,
};
use csharp_wrapper::serialize::SerializedRow;
use scylla::serialize::writers::RowWriter;

#[test]
fn column_count_matches() {
    assert!(validate_number_of_columns(3, 3).is_ok());
    assert!(validate_number_of_columns(0, 0).is_ok());
    assert!(validate_number_of_columns(MAX_VALUES_LENGTH, MAX_VALUES_LENGTH).is_ok());
}

#[test]
fn column_count_mismatch_is_rejected() {
    assert!(matches!(
        validate_number_of_columns(2, 3),
        Err(ColumnCountError::WrongColumnCount { rust_cols: 2, cql_cols: 3 })
    ));
}

#[test]
fn too_many_values_are_rejected() {
    assert!(matches!(
        validate_number_of_columns(65536, 65536),
        Err(ColumnCountError::TooManyValues { rust_cols: 65536 })
    ));
}

#[test]
fn safe_values_copy_bytes() {
    let mut v = SafePreSerializedValues::new();
    assert!(v.is_empty());
    v.add_value(&[1, 2, 3]);
    v.add_null();
    v.add_unset();
    assert_eq!(v.len(), 3);
    let cells = v.get_cells();
    assert!(matches!(&cells[0], SafeCell::Bytes(b) if b == &vec![1u8, 2, 3]));
    assert!(matches!(cells[1], SafeCell::Null));
    assert!(matches!(cells[2], SafeCell::Unset));
}

#[test]
fn unsafe_values_record_place() {
    let mut v = UnsafePreSerializedValues::new();
    v.add_value(4096, 8);
    v.add_unset();
    assert_eq!(v.len(), 2);
    let cells = v.get_cells();
    assert!(matches!(&cells[0], UnsafeCell::Bytes(p, 8) if p.0 == 4096));
    assert!(matches!(cells[1], UnsafeCell::Unset));
}

#[test]
fn pre_serialized_values_count_cells() {
    let mut safe = PreSerializedValues::new_safe();
    safe.add_value(0, &[9, 9]);
    safe.add_null();
    assert_eq!(safe.len(), 2);
    assert!(!safe.is_empty());

    let mut raw = PreSerializedValues::new_unsafe();
    assert!(raw.is_empty());
    raw.add_unset();
    raw.add_value(128, &[1]);
    assert_eq!(raw.len(), 2);
    assert!(CellKind::Null == CellKind::Null);
}

#[test]
fn row_is_written_cell_by_cell() {
    let mut buf: Vec<u8> = Vec::new();
    let mut writer = RowWriter::new(&mut buf);
    let value = [1u8, 2];
    let cells = [CellRef::Bytes(&value), CellRef::Null, CellRef::Unset];
    assert!(serialize_each_cell(&cells, 3, &mut writer).is_ok());
    assert_eq!(writer.value_count(), 3);
    assert_eq!(
        buf,
        vec![0, 0, 0, 2, 1, 2, 0xff, 0xff, 0xff, 0xff, 0xff, 0xff, 0xff, 0xfe]
    );
}

#[test]
fn row_with_wrong_count_is_not_written() {
    let mut buf: Vec<u8> = Vec::new();
    let mut writer = RowWriter::new(&mut buf);
    let cells = [CellRef::Null];
    assert!(matches!(
        serialize_each_cell(&cells, 2, &mut writer),
        Err(SerializeError::ColumnCount(ColumnCountError::WrongColumnCount { rust_cols: 1, cql_cols: 2 }))
    ));
    assert_eq!(writer.value_count(), 0);
    assert!(buf.is_empty());
}

#[test]
fn copied_cells_serialize_in_order() {
    let mut v = SafePreSerializedValues::new();
    v.add_unset();
    v.add_value(&[7]);
    let refs = v.cell_refs();
    assert_eq!(refs.len(), 2);
    let mut buf: Vec<u8> = Vec::new();
    let mut writer = RowWriter::new(&mut buf);
    assert!(serialize_each_cell(&refs, 2, &mut writer).is_ok());
    assert_eq!(buf, vec![0xff, 0xff, 0xff, 0xfe, 0, 0, 0, 1, 7]);
}

#[test]
fn empty_row_against_empty_statement() {
    let mut buf: Vec<u8> = Vec::new();
    let mut writer = RowWriter::new(&mut buf);
    let cells: [CellRef<'_>; 0] = [];
    assert!(serialize_each_cell(&cells, 0, &mut writer).is_ok());
    assert!(buf.is_empty());
}

#[test]
fn serialized_row_starts_empty() {
    let mut row = SerializedRow::new();
    assert_eq!(row.len(), 0);
    row.buffer_mut().push(5);
    assert_eq!(row.data(), &[5]);
    assert_eq!(row.len(), 1);
}
