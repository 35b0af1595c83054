use vstd::prelude::*;
use std::sync::Arc;
use crate::FfiPtr;
use crate::ffi::{
    BoxHeap, BridgedOwnedExclusivePtr, BridgedPtr, FFI, FromBox, Ownership,
};

verus! {

/// The simple (non-composite) column types.
#[derive(PartialEq, Eq, Structural, Clone, Copy)]
pub enum NativeType {
    Ascii,
    BigInt,
    Blob,
    Boolean,
    Counter,
    Decimal,
    Double,
    Float,
    Int,
    Text,
    Timestamp,
    Uuid,
    Varint,
    Timeuuid,
    Inet,
    Date,
    Time,
    SmallInt,
    TinyInt,
    Duration,
}

/// The type of a column of a result set, or of one of its components.
pub enum CqlType {
    Native(NativeType),
    ListOf(Arc<CqlType>),
    SetOf(Arc<CqlType>),
    MapOf(Arc<CqlType>, Arc<CqlType>),
    Vector(Arc<CqlType>, u16),
    UserDefined(Arc<UdtDefinition>),
    Tuple(Vec<Arc<CqlType>>),
    /// A type this library does not know.
    Unsupported,
}

/// The definition of a user-defined type: its name, its keyspace, and its
/// fields in order.
pub struct UdtDefinition {
    pub name: String,
    pub keyspace: String,
    pub field_types: Vec<(String, Arc<CqlType>)>,
}

/// A column type handed to the foreign side, through the exclusive-heap
/// discipline. Its components are shared, so handing one out copies nothing.
pub struct TypeInfo {
    pub typ: Arc<CqlType>,
}

impl FFI for TypeInfo {
    type Origin = FromBox;
}

/// Code of a list type; codes from here up belong to composite types.
pub const LIST_CODE: u16 = 0x0020;

/// Code of a map type.
pub const MAP_CODE: u16 = 0x0021;

/// Code of a set type.
pub const SET_CODE: u16 = 0x0022;

/// Code of a user-defined type.
pub const UDT_CODE: u16 = 0x0030;

/// Code of a tuple type.
pub const TUPLE_CODE: u16 = 0x0031;

/// The protocol's code of each simple type.
pub open spec fn native_code(n: NativeType) -> u16 {
    match n {
        NativeType::Ascii => 0x0001,
        NativeType::BigInt => 0x0002,
        NativeType::Blob => 0x0003,
        NativeType::Boolean => 0x0004,
        NativeType::Counter => 0x0005,
        NativeType::Decimal => 0x0006,
        NativeType::Double => 0x0007,
        NativeType::Float => 0x0008,
        NativeType::Int => 0x0009,
        NativeType::Text => 0x000A,
        NativeType::Timestamp => 0x000B,
        NativeType::Uuid => 0x000C,
        NativeType::Varint => 0x000E,
        NativeType::Timeuuid => 0x000F,
        NativeType::Inet => 0x0010,
        NativeType::Date => 0x0011,
        NativeType::Time => 0x0012,
        NativeType::SmallInt => 0x0013,
        NativeType::TinyInt => 0x0014,
        NativeType::Duration => 0x0015,
    }
}

/// The code reported to the foreign side for a type; a vector is reported as
/// a list, and an unknown type as `0`.
pub open spec fn type_code(t: CqlType) -> u16 {
    match t {
        CqlType::Native(n) => native_code(n),
        CqlType::ListOf(_) => LIST_CODE,
        CqlType::MapOf(_, _) => MAP_CODE,
        CqlType::SetOf(_) => SET_CODE,
        CqlType::Vector(_, _) => LIST_CODE,
        CqlType::UserDefined(_) => UDT_CODE,
        CqlType::Tuple(_) => TUPLE_CODE,
        CqlType::Unsupported => 0,
    }
}

/// Whether a type with this code is handed out with a type-info handle.
pub open spec fn is_composite_code(code: u16) -> bool {
    code >= LIST_CODE
}

pub fn column_type_to_code(typ: &CqlType) -> (r: u16)
    ensures
        r == type_code(*typ),
{
    match typ {
        CqlType::Native(n) => match n {
            NativeType::Ascii => 0x0001,
            NativeType::BigInt => 0x0002,
            NativeType::Blob => 0x0003,
            NativeType::Boolean => 0x0004,
            NativeType::Counter => 0x0005,
            NativeType::Decimal => 0x0006,
            NativeType::Double => 0x0007,
            NativeType::Float => 0x0008,
            NativeType::Int => 0x0009,
            NativeType::Text => 0x000A,
            NativeType::Timestamp => 0x000B,
            NativeType::Uuid => 0x000C,
            NativeType::Varint => 0x000E,
            NativeType::Timeuuid => 0x000F,
            NativeType::Inet => 0x0010,
            NativeType::Date => 0x0011,
            NativeType::Time => 0x0012,
            NativeType::SmallInt => 0x0013,
            NativeType::TinyInt => 0x0014,
            NativeType::Duration => 0x0015,
        },
        CqlType::ListOf(_) => LIST_CODE,
        CqlType::MapOf(_, _) => MAP_CODE,
        CqlType::SetOf(_) => SET_CODE,
        CqlType::Vector(_, _) => LIST_CODE,
        CqlType::UserDefined(_) => UDT_CODE,
        CqlType::Tuple(_) => TUPLE_CODE,
        CqlType::Unsupported => 0,
    }
}

/// What one column's metadata hands over for its type: the code, and a
/// type-info handle for composite types (null for simple ones).
pub fn column_type_info(heap: &mut BoxHeap<TypeInfo>, typ: Arc<CqlType>) -> (r: (
    u16,
    BridgedOwnedExclusivePtr<TypeInfo>,
))
    requires
        old(heap).issued() < usize::MAX,
    ensures
        r.0 == type_code(*typ),
        is_composite_code(r.0) ==> BoxHeap::exported(
            *old(heap),
            *final(heap),
            TypeInfo { typ },
            r.1.addr(),
        ) && !r.1.spec_is_null(),
        !is_composite_code(r.0) ==> r.1.spec_is_null() && *final(heap) == *old(heap),
{
    let code = column_type_to_code(&typ);
    if code >= LIST_CODE {
        (code, heap.into_ptr(Box::new(TypeInfo { typ })))
    } else {
        (code, BridgedPtr::null())
    }
}

/// The type part of each column's metadata, in column order: its code, and
/// for a composite type a handle exported under a fresh address (null for a
/// simple type). The handles are issued in column order.
pub fn row_set_fill_columns_metadata(heap: &mut BoxHeap<TypeInfo>, columns: Vec<Arc<CqlType>>) -> (r: Vec<
    (u16, BridgedOwnedExclusivePtr<TypeInfo>),
>)
    requires
        old(heap).issued() + columns@.len() <= usize::MAX,
    ensures
        r@.len() == columns@.len(),
        forall|i: int| 0 <= i < r@.len() ==> #[trigger] r@[i].0 == type_code(*columns@[i]),
        forall|i: int|
            0 <= i < r@.len() && !is_composite_code(#[trigger] r@[i].0) ==> r@[i].1.spec_is_null(),
        forall|i: int|
            0 <= i < r@.len() && is_composite_code(#[trigger] r@[i].0) ==> {
                &&& old(heap).issued() < r@[i].1.addr() <= final(heap).issued()
                &&& final(heap)@.contains_key(r@[i].1.addr())
                &&& final(heap)@[r@[i].1.addr()] == (TypeInfo { typ: columns@[i] })
            },
        forall|i: int, j: int|
            0 <= i < j < r@.len() && is_composite_code(#[trigger] r@[i].0) && is_composite_code(
                #[trigger] r@[j].0,
            ) ==> r@[i].1.addr() < r@[j].1.addr(),
        forall|a: usize|
            #[trigger] old(heap)@.contains_key(a) ==> final(heap)@.contains_key(a) && final(heap)@[a]
                == old(heap)@[a],
        forall|a: usize|
            #[trigger] final(heap)@.contains_key(a) && !old(heap)@.contains_key(a) ==> exists|i: int|
                0 <= i < r@.len() && is_composite_code(#[trigger] r@[i].0) && r@[i].1.addr() == a,
        final(heap).issued() <= old(heap).issued() + columns@.len(),
{
    let ghost h0 = *heap;
    let mut r: Vec<(u16, BridgedOwnedExclusivePtr<TypeInfo>)> = Vec::new();
    let mut i: usize = 0;
    while i < columns.len()
        invariant
            i <= columns@.len(),
            r@.len() == i,
            h0.issued() + columns@.len() <= usize::MAX,
            h0.issued() <= heap.issued() <= h0.issued() + i,
            forall|k: int| 0 <= k < i ==> #[trigger] r@[k].0 == type_code(*columns@[k]),
            forall|k: int|
                0 <= k < i && !is_composite_code(#[trigger] r@[k].0) ==> r@[k].1.spec_is_null(),
            forall|k: int|
                0 <= k < i && is_composite_code(#[trigger] r@[k].0) ==> {
                    &&& h0.issued() < r@[k].1.addr() <= heap.issued()
                    &&& heap@.contains_key(r@[k].1.addr())
                    &&& heap@[r@[k].1.addr()] == (TypeInfo { typ: columns@[k] })
                },
            forall|k: int, l: int|
                0 <= k < l < i && is_composite_code(#[trigger] r@[k].0) && is_composite_code(
                    #[trigger] r@[l].0,
                ) ==> r@[k].1.addr() < r@[l].1.addr(),
            forall|a: usize|
                #[trigger] h0@.contains_key(a) ==> heap@.contains_key(a) && heap@[a] == h0@[a],
            forall|a: usize|
                #[trigger] heap@.contains_key(a) && !h0@.contains_key(a) ==> exists|k: int|
                    0 <= k < i && is_composite_code(#[trigger] r@[k].0) && r@[k].1.addr() == a,
        decreases columns@.len() - i,
    {
        let ghost before = *heap;
        let ghost r_before = r@;
        proof {
            before.lemma_null_never_live();
        }
        let info = column_type_info(heap, Arc::clone(&columns[i]));
        r.push(info);
        proof {
            assert forall|a: usize| #[trigger] heap@.contains_key(a) && !h0@.contains_key(a) implies exists|k: int|
                0 <= k < i + 1 && is_composite_code(#[trigger] r@[k].0) && r@[k].1.addr() == a by {
                if before@.contains_key(a) {
                    assert(before@.contains_key(a) && !h0@.contains_key(a));
                    let k = choose|k: int|
                        0 <= k < i && is_composite_code(#[trigger] r_before[k].0)
                            && r_before[k].1.addr() == a;
                    assert(r@[k] == r_before[k]);
                } else {
                    assert(r@[i as int] == info);
                }
            }
        }
        i = i + 1;
    }
    r
}

/// The type behind a type-info handle, if the handle is live.
pub open spec fn type_at(heap: BoxHeap<TypeInfo>, a: usize) -> Option<CqlType> {
    if heap@.contains_key(a) {
        Some(*heap@[a].typ)
    } else {
        None
    }
}

/// The code of the type behind a handle; `0` for a null or dead handle.
pub fn row_set_type_info_get_code<O: Ownership>(heap: &BoxHeap<TypeInfo>, handle: BridgedPtr<'_, TypeInfo, O>) -> (r: usize)
    ensures
        r == match type_at(*heap, handle.addr()) {
            Some(t) => type_code(t) as usize,
            None => 0,
        },
{
    match heap.as_ref(handle) {
        Some(info) => column_type_to_code(&info.typ) as usize,
        None => 0,
    }
}

/// Exports a component type under a new handle.
fn export_component(heap: &mut BoxHeap<TypeInfo>, typ: &Arc<CqlType>) -> (r: BridgedOwnedExclusivePtr<TypeInfo>)
    requires
        old(heap).issued() < usize::MAX,
    ensures
        BoxHeap::exported(*old(heap), *final(heap), TypeInfo { typ: *typ }, r.addr()),
        !r.spec_is_null(),
{
    heap.into_ptr(Box::new(TypeInfo { typ: Arc::clone(typ) }))
}

/// The element type of a list, under a new handle; `None` when the handle is
/// null, dead, or not a list.
pub fn row_set_type_info_get_list_child<O: Ownership>(
    heap: &mut BoxHeap<TypeInfo>,
    handle: BridgedPtr<'_, TypeInfo, O>,
) -> (r: Option<BridgedOwnedExclusivePtr<TypeInfo>>)
    requires
        old(heap).issued() < usize::MAX,
    ensures
        match type_at(*old(heap), handle.addr()) {
            Some(CqlType::ListOf(inner)) => r matches Some(c) && BoxHeap::exported(
                *old(heap),
                *final(heap),
                TypeInfo { typ: inner },
                c.addr(),
            ),
            _ => r is None && *final(heap) == *old(heap),
        },
{
    let child = match heap.as_ref(handle) {
        Some(info) => match &*info.typ {
            CqlType::ListOf(inner) => Some(Arc::clone(inner)),
            _ => None,
        },
        None => None,
    };
    match child {
        Some(inner) => Some(export_component(heap, &inner)),
        None => None,
    }
}

/// The element type of a set, under a new handle; `None` when the handle is
/// null, dead, or not a set.
pub fn row_set_type_info_get_set_child<O: Ownership>(
    heap: &mut BoxHeap<TypeInfo>,
    handle: BridgedPtr<'_, TypeInfo, O>,
) -> (r: Option<BridgedOwnedExclusivePtr<TypeInfo>>)
    requires
        old(heap).issued() < usize::MAX,
    ensures
        match type_at(*old(heap), handle.addr()) {
            Some(CqlType::SetOf(inner)) => r matches Some(c) && BoxHeap::exported(
                *old(heap),
                *final(heap),
                TypeInfo { typ: inner },
                c.addr(),
            ),
            _ => r is None && *final(heap) == *old(heap),
        },
{
    let child = match heap.as_ref(handle) {
        Some(info) => match &*info.typ {
            CqlType::SetOf(inner) => Some(Arc::clone(inner)),
            _ => None,
        },
        None => None,
    };
    match child {
        Some(inner) => Some(export_component(heap, &inner)),
        None => None,
    }
}

/// The key and value types of a map, each under a new handle (the key's
/// first); `None` when the handle is null, dead, or not a map.
pub fn row_set_type_info_get_map_children<O: Ownership>(
    heap: &mut BoxHeap<TypeInfo>,
    handle: BridgedPtr<'_, TypeInfo, O>,
) -> (r: Option<(BridgedOwnedExclusivePtr<TypeInfo>, BridgedOwnedExclusivePtr<TypeInfo>)>)
    requires
        old(heap).issued() < usize::MAX - 1,
    ensures
        match type_at(*old(heap), handle.addr()) {
            Some(CqlType::MapOf(key, value)) => r matches Some((k, v)) && {
                &&& k.addr() == old(heap).issued() + 1
                &&& v.addr() == old(heap).issued() + 2
                &&& final(heap).issued() == v.addr()
                &&& final(heap)@ == old(heap)@.insert(k.addr(), TypeInfo { typ: key }).insert(
                    v.addr(),
                    TypeInfo { typ: value },
                )
            },
            _ => r is None && *final(heap) == *old(heap),
        },
{
    let children = match heap.as_ref(handle) {
        Some(info) => match &*info.typ {
            CqlType::MapOf(key, value) => Some((Arc::clone(key), Arc::clone(value))),
            _ => None,
        },
        None => None,
    };
    match children {
        Some((key, value)) => {
            let k = export_component(heap, &key);
            let v = export_component(heap, &value);
            Some((k, v))
        },
        None => None,
    }
}

/// How many fields a tuple has; `0` when the handle is null, dead, or not a
/// tuple.
pub fn row_set_type_info_get_tuple_field_count<O: Ownership>(
    heap: &BoxHeap<TypeInfo>,
    handle: BridgedPtr<'_, TypeInfo, O>,
) -> (r: usize)
    ensures
        r == match type_at(*heap, handle.addr()) {
            Some(CqlType::Tuple(fields)) => fields@.len() as usize,
            _ => 0,
        },
{
    match heap.as_ref(handle) {
        Some(info) => match &*info.typ {
            CqlType::Tuple(fields) => fields.len(),
            _ => 0,
        },
        None => 0,
    }
}

/// The type of field `index` of a tuple, under a new handle; `None` when the
/// handle is null, dead, not a tuple, or `index` is out of range.
pub fn row_set_type_info_get_tuple_field<O: Ownership>(
    heap: &mut BoxHeap<TypeInfo>,
    handle: BridgedPtr<'_, TypeInfo, O>,
    index: usize,
) -> (r: Option<BridgedOwnedExclusivePtr<TypeInfo>>)
    requires
        old(heap).issued() < usize::MAX,
    ensures
        match type_at(*old(heap), handle.addr()) {
            Some(CqlType::Tuple(fields)) if index < fields@.len() => r matches Some(c)
                && BoxHeap::exported(
                *old(heap),
                *final(heap),
                TypeInfo { typ: fields@[index as int] },
                c.addr(),
            ),
            _ => r is None && *final(heap) == *old(heap),
        },
{
    let field = match heap.as_ref(handle) {
        Some(info) => match &*info.typ {
            CqlType::Tuple(fields) => {
                if index < fields.len() {
                    Some(Arc::clone(&fields[index]))
                } else {
                    None
                }
            },
            _ => None,
        },
        None => None,
    };
    match field {
        Some(t) => Some(export_component(heap, &t)),
        None => None,
    }
}

/// The definition behind a handle, if it is a user-defined type.
pub open spec fn udt_at(heap: BoxHeap<TypeInfo>, a: usize) -> Option<UdtDefinition> {
    match type_at(heap, a) {
        Some(CqlType::UserDefined(d)) => Some(*d),
        _ => None,
    }
}

/// The name and keyspace of a user-defined type, borrowed from the heap;
/// `None` when the handle is null, dead, or not a user-defined type.
pub fn row_set_type_info_get_udt_name<'h, O: Ownership>(
    heap: &'h BoxHeap<TypeInfo>,
    handle: BridgedPtr<'_, TypeInfo, O>,
) -> (r: Option<(&'h String, &'h String)>)
    ensures
        match udt_at(*heap, handle.addr()) {
            Some(d) => r matches Some((n, k)) && n@ == d.name@ && k@ == d.keyspace@,
            None => r is None,
        },
{
    match heap.as_ref(handle) {
        Some(info) => match &*info.typ {
            CqlType::UserDefined(d) => Some((&d.name, &d.keyspace)),
            _ => None,
        },
        None => None,
    }
}

/// How many fields a user-defined type has; `0` when the handle is null,
/// dead, or not a user-defined type.
pub fn row_set_type_info_get_udt_field_count<O: Ownership>(
    heap: &BoxHeap<TypeInfo>,
    handle: BridgedPtr<'_, TypeInfo, O>,
) -> (r: usize)
    ensures
        r == match udt_at(*heap, handle.addr()) {
            Some(d) => d.field_types@.len() as usize,
            None => 0,
        },
{
    match heap.as_ref(handle) {
        Some(info) => match &*info.typ {
            CqlType::UserDefined(d) => d.field_types.len(),
            _ => 0,
        },
        None => 0,
    }
}

/// The name of field `index` of a user-defined type, borrowed from the heap;
/// `None` when the handle is null, dead, not a user-defined type, or `index`
/// is out of range.
pub fn row_set_type_info_get_udt_field_name<'h, O: Ownership>(
    heap: &'h BoxHeap<TypeInfo>,
    handle: BridgedPtr<'_, TypeInfo, O>,
    index: usize,
) -> (r: Option<&'h String>)
    ensures
        match udt_at(*heap, handle.addr()) {
            Some(d) if index < d.field_types@.len() => r matches Some(n) && n@
                == d.field_types@[index as int].0@,
            _ => r is None,
        },
{
    match heap.as_ref(handle) {
        Some(info) => match &*info.typ {
            CqlType::UserDefined(d) => {
                if index < d.field_types.len() {
                    Some(&d.field_types[index].0)
                } else {
                    None
                }
            },
            _ => None,
        },
        None => None,
    }
}

/// The type of field `index` of a user-defined type, under a new handle;
/// `None` when the handle is null, dead, not a user-defined type, or `index`
/// is out of range.
pub fn row_set_type_info_get_udt_field<O: Ownership>(
    heap: &mut BoxHeap<TypeInfo>,
    handle: BridgedPtr<'_, TypeInfo, O>,
    index: usize,
) -> (r: Option<BridgedOwnedExclusivePtr<TypeInfo>>)
    requires
        old(heap).issued() < usize::MAX,
    ensures
        match udt_at(*old(heap), handle.addr()) {
            Some(d) if index < d.field_types@.len() => r matches Some(c) && BoxHeap::exported(
                *old(heap),
                *final(heap),
                TypeInfo { typ: d.field_types@[index as int].1 },
                c.addr(),
            ),
            _ => r is None && *final(heap) == *old(heap),
        },
{
    let field = match heap.as_ref(handle) {
        Some(info) => match &*info.typ {
            CqlType::UserDefined(d) => {
                if index < d.field_types.len() {
                    Some(Arc::clone(&d.field_types[index].1))
                } else {
                    None
                }
            },
            _ => None,
        },
        None => None,
    };
    match field {
        Some(t) => Some(export_component(heap, &t)),
        None => None,
    }
}

/// Frees a type-info handle; a null handle is ignored.
pub fn row_set_type_info_free(heap: &mut BoxHeap<TypeInfo>, handle: BridgedOwnedExclusivePtr<TypeInfo>)
    ensures
        BoxHeap::imported(
            *old(heap),
            *final(heap),
            handle.addr(),
            crate::table::lookup(old(heap)@, handle.addr()),
        ),
{
    heap.free(handle);
}

/// Marks the foreign column-metadata array.
pub struct Columns {
    _private: (),
}

/// Marks the foreign row-values array.
pub struct Values {
    _private: (),
}

/// Marks the foreign value deserializer.
pub struct Serializer {
    _private: (),
}

/// The foreign array that receives column metadata and deserialized values.
pub struct ColumnsPtr(pub FfiPtr<'static, Columns>);

/// The foreign array that receives one row's values.
pub struct ValuesPtr(pub FfiPtr<'static, Values>);

/// The foreign deserializer that turns a value's bytes into an object.
pub struct SerializerPtr(pub FfiPtr<'static, Serializer>);

} // verus!
