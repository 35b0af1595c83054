use std::sync::Arc;

use csharp_wrapper::ffi::{BoxHeap, BridgedPtr, Exclusive};
use csharp_wrapper::row_set::{
    column_type_info, column_type_to_code, row_set_fill_columns_metadata, row_set_type_info_free, row_set_type_info_get_code,
    row_set_type_info_get_list_child, row_set_type_info_get_map_children,
    row_set_type_info_get_set_child, row_set_type_info_get_tuple_field,
    row_set_type_info_get_tuple_field_count, row_set_type_info_get_udt_field,
    row_set_type_info_get_udt_field_count, row_set_type_info_get_udt_field_name,
    row_set_type_info_get_udt_name, CqlType, NativeType, TypeInfo, UdtDefinition,
};

fn native(n: NativeType) -> Arc<CqlType> {
    Arc::new(CqlType::Native(n))
}

fn export(heap: &mut BoxHeap<TypeInfo>, typ: CqlType) -> BridgedPtr<'static, TypeInfo, Exclusive> {
    heap.into_ptr(Box::new(TypeInfo { typ: Arc::new(typ) }))
}

#[test]
fn native_codes() {
    assert_eq!(column_type_to_code(&CqlType::Native(NativeType::Ascii)), 0x0001);
    assert_eq!(column_type_to_code(&CqlType::Native(NativeType::Text)), 0x000A);
    assert_eq!(column_type_to_code(&CqlType::Native(NativeType::Varint)), 0x000E);
    assert_eq!(column_type_to_code(&CqlType::Native(NativeType::Duration)), 0x0015);
    assert_eq!(column_type_to_code(&CqlType::Unsupported), 0);
}

#[test]
fn composite_codes() {
    let int = native(NativeType::Int);
    assert_eq!(column_type_to_code(&CqlType::ListOf(int.clone())), 0x0020);
    assert_eq!(column_type_to_code(&CqlType::MapOf(int.clone(), int.clone())), 0x0021);
    assert_eq!(column_type_to_code(&CqlType::SetOf(int.clone())), 0x0022);
    assert_eq!(column_type_to_code(&CqlType::Vector(int.clone(), 3)), 0x0020);
    assert_eq!(column_type_to_code(&CqlType::Tuple(vec![int])), 0x0031);
}

#[test]
fn simple_column_gets_no_handle() {
    let mut heap: BoxHeap<TypeInfo> = BoxHeap::new();
    let (code, handle) = column_type_info(&mut heap, native(NativeType::BigInt));
    assert_eq!(code, 0x0002);
    assert!(handle.is_null());
    assert_eq!(heap.issued_count(), 0);
}

#[test]
fn composite_column_gets_handle() {
    let mut heap: BoxHeap<TypeInfo> = BoxHeap::new();
    let (code, handle) = column_type_info(&mut heap, Arc::new(CqlType::SetOf(native(NativeType::Uuid))));
    assert_eq!(code, 0x0022);
    assert!(!handle.is_null());
    assert_eq!(row_set_type_info_get_code(&heap, handle.borrow()), 0x0022);
    row_set_type_info_free(&mut heap, handle);
}

#[test]
fn list_and_set_children() {
    let mut heap: BoxHeap<TypeInfo> = BoxHeap::new();
    let list = export(&mut heap, CqlType::ListOf(native(NativeType::Text)));
    let child = row_set_type_info_get_list_child(&mut heap, list.borrow()).unwrap();
    assert_eq!(row_set_type_info_get_code(&heap, child.borrow()), 0x000A);
    assert!(row_set_type_info_get_set_child(&mut heap, list.borrow()).is_none());

    let set = export(&mut heap, CqlType::SetOf(native(NativeType::Int)));
    let elem = row_set_type_info_get_set_child(&mut heap, set.borrow()).unwrap();
    assert_eq!(row_set_type_info_get_code(&heap, elem.borrow()), 0x0009);
    assert!(row_set_type_info_get_list_child(&mut heap, set.borrow()).is_none());
}

#[test]
fn map_children_key_first() {
    let mut heap: BoxHeap<TypeInfo> = BoxHeap::new();
    let map = export(&mut heap, CqlType::MapOf(native(NativeType::Text), native(NativeType::Blob)));
    let (k, v) = row_set_type_info_get_map_children(&mut heap, map.borrow()).unwrap();
    assert_eq!(row_set_type_info_get_code(&heap, k.borrow()), 0x000A);
    assert_eq!(row_set_type_info_get_code(&heap, v.borrow()), 0x0003);
}

#[test]
fn tuple_fields() {
    let mut heap: BoxHeap<TypeInfo> = BoxHeap::new();
    let tuple = export(
        &mut heap,
        CqlType::Tuple(vec![native(NativeType::Int), native(NativeType::Boolean)]),
    );
    assert_eq!(row_set_type_info_get_tuple_field_count(&heap, tuple.borrow()), 2);
    let second = row_set_type_info_get_tuple_field(&mut heap, tuple.borrow(), 1).unwrap();
    assert_eq!(row_set_type_info_get_code(&heap, second.borrow()), 0x0004);
    assert!(row_set_type_info_get_tuple_field(&mut heap, tuple.borrow(), 2).is_none());
}

#[test]
fn udt_name_and_fields() {
    let mut heap: BoxHeap<TypeInfo> = BoxHeap::new();
    let udt = export(
        &mut heap,
        CqlType::UserDefined(Arc::new(UdtDefinition {
            name: "address".to_string(),
            keyspace: "shop".to_string(),
            field_types: vec![
                ("street".to_string(), native(NativeType::Text)),
                ("zip".to_string(), native(NativeType::Int)),
            ],
        })),
    );
    assert_eq!(row_set_type_info_get_code(&heap, udt.borrow()), 0x0030);
    let (name, keyspace) = row_set_type_info_get_udt_name(&heap, udt.borrow()).unwrap();
    assert_eq!(name, "address");
    assert_eq!(keyspace, "shop");
    assert_eq!(row_set_type_info_get_udt_field_count(&heap, udt.borrow()), 2);
    assert_eq!(row_set_type_info_get_udt_field_name(&heap, udt.borrow(), 1).unwrap(), "zip");
    let zip = row_set_type_info_get_udt_field(&mut heap, udt.borrow(), 1).unwrap();
    assert_eq!(row_set_type_info_get_code(&heap, zip.borrow()), 0x0009);
    assert!(row_set_type_info_get_udt_field(&mut heap, udt.borrow(), 2).is_none());
    assert!(row_set_type_info_get_udt_field_name(&heap, udt.borrow(), 2).is_none());
}

#[test]
fn accessors_on_null_or_wrong_kind_are_absent() {
    let mut heap: BoxHeap<TypeInfo> = BoxHeap::new();
    let null: BridgedPtr<'static, TypeInfo, Exclusive> = BridgedPtr::null_mut();
    assert_eq!(row_set_type_info_get_code(&heap, null.borrow()), 0);
    assert!(row_set_type_info_get_list_child(&mut heap, null.borrow()).is_none());
    assert!(row_set_type_info_get_map_children(&mut heap, null.borrow()).is_none());
    assert_eq!(row_set_type_info_get_tuple_field_count(&heap, null.borrow()), 0);
    assert_eq!(row_set_type_info_get_udt_field_count(&heap, null.borrow()), 0);
    assert!(row_set_type_info_get_udt_name(&heap, null.borrow()).is_none());
    row_set_type_info_free(&mut heap, null);

    let int = export(&mut heap, CqlType::Native(NativeType::Int));
    assert_eq!(row_set_type_info_get_tuple_field_count(&heap, int.borrow()), 0);
    assert!(row_set_type_info_get_udt_name(&heap, int.borrow()).is_none());
    assert!(row_set_type_info_get_map_children(&mut heap, int.borrow()).is_none());
}

#[test]
fn freed_type_info_reads_as_absent() {
    let mut heap: BoxHeap<TypeInfo> = BoxHeap::new();
    let list = export(&mut heap, CqlType::ListOf(native(NativeType::Int)));
    let raw = list.to_raw().unwrap();
    row_set_type_info_free(&mut heap, list);
    let stale: BridgedPtr<'static, TypeInfo, Exclusive> = BridgedPtr::from_raw(raw);
    assert_eq!(row_set_type_info_get_code(&heap, stale.borrow()), 0);
}

#[test]
fn columns_metadata_in_order() {
    let mut heap: BoxHeap<TypeInfo> = BoxHeap::new();
    let columns = vec![
        native(NativeType::Int),
        Arc::new(CqlType::ListOf(native(NativeType::Text))),
        native(NativeType::Text),
        Arc::new(CqlType::Tuple(vec![native(NativeType::Int)])),
    ];
    let infos = row_set_fill_columns_metadata(&mut heap, columns);
    assert_eq!(infos.len(), 4);
    assert_eq!(infos[0].0, 0x0009);
    assert!(infos[0].1.is_null());
    assert_eq!(infos[1].0, 0x0020);
    assert_eq!(infos[1].1.to_raw(), Some(1));
    assert_eq!(row_set_type_info_get_code(&heap, infos[1].1.borrow()), 0x0020);
    assert_eq!(infos[2].0, 0x000A);
    assert!(infos[2].1.is_null());
    assert_eq!(infos[3].0, 0x0031);
    assert_eq!(infos[3].1.to_raw(), Some(2));
    assert_eq!(row_set_type_info_get_tuple_field_count(&heap, infos[3].1.borrow()), 1);
}

#[test]
fn no_columns_no_metadata() {
    let mut heap: BoxHeap<TypeInfo> = BoxHeap::new();
    assert!(row_set_fill_columns_metadata(&mut heap, Vec::new()).is_empty());
    assert_eq!(heap.issued_count(), 0);
}
