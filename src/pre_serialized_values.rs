use vstd::prelude::*;
use scylla::serialize::writers::{CellOverflowError, RowWriter};
use crate::ffi::{FFI, FromBox};

verus! {

#[verifier::external_type_specification]
#[verifier::external_body]
pub struct ExRowWriter<'buf>(RowWriter<'buf>);

#[verifier::external_type_specification]
#[verifier::external_body]
pub struct ExCellOverflowError(CellOverflowError);

/// Relies on scylla's `RowWriter::make_cell_writer` and `CellWriter::set_value`:
/// a value is written unless its length does not fit an `i32`.
#[verifier::external_body]
fn write_value(writer: &mut RowWriter<'_>, contents: &[u8]) -> (r: Result<(), CellOverflowError>)
    ensures
        r is Ok <==> contents@.len() <= i32::MAX,
{
    writer.make_cell_writer().set_value(contents).map(|_proof| ())
}

/// Relies on scylla's `RowWriter::make_cell_writer` and `CellWriter::set_null`.
#[verifier::external_body]
fn write_null(writer: &mut RowWriter<'_>) {
    let _proof = writer.make_cell_writer().set_null();
}

/// Relies on scylla's `RowWriter::make_cell_writer` and `CellWriter::set_unset`.
#[verifier::external_body]
fn write_unset(writer: &mut RowWriter<'_>) {
    let _proof = writer.make_cell_writer().set_unset();
}

/// The most values one row may carry.
pub const MAX_VALUES_LENGTH: usize = 65535;

/// What kind of value a cell holds, and how many bytes for a set value.
#[derive(PartialEq, Eq, Structural, Clone, Copy)]
pub enum CellKind {
    Value(usize),
    Null,
    Unset,
}

/// Why a row of values does not fit the statement it is bound to.
#[derive(PartialEq, Eq, Structural, Clone, Copy)]
pub enum ColumnCountError {
    /// More values than a row may carry.
    TooManyValues { rust_cols: usize },
    /// A value count that differs from the statement's column count.
    WrongColumnCount { rust_cols: usize, cql_cols: usize },
}

/// Whether a row of `rust_cols` values fits a statement with `cql_cols`
/// bound columns: too many values is reported first, then a count mismatch.
pub open spec fn column_count_check(rust_cols: usize, cql_cols: usize) -> Result<(), ColumnCountError> {
    if rust_cols > MAX_VALUES_LENGTH {
        Err(ColumnCountError::TooManyValues { rust_cols })
    } else if rust_cols != cql_cols {
        Err(ColumnCountError::WrongColumnCount { rust_cols, cql_cols })
    } else {
        Ok(())
    }
}

/// Checks a row of `rust_cols` values against a statement with `cql_cols`
/// bound columns.
pub fn validate_number_of_columns(rust_cols: usize, cql_cols: usize) -> (r: Result<(), ColumnCountError>)
    ensures
        r == column_count_check(rust_cols, cql_cols),
{
    if rust_cols > MAX_VALUES_LENGTH {
        return Err(ColumnCountError::TooManyValues { rust_cols });
    }
    if rust_cols != cql_cols {
        return Err(ColumnCountError::WrongColumnCount { rust_cols, cql_cols });
    }
    Ok(())
}

/// A cell as it is written out, its bytes borrowed from wherever they live.
pub enum CellRef<'a> {
    Bytes(&'a [u8]),
    Null,
    Unset,
}

/// Whether a cell's value fits the protocol's cell size.
pub open spec fn cell_fits(c: CellRef<'_>) -> bool {
    match c {
        CellRef::Bytes(b) => b@.len() <= i32::MAX,
        _ => true,
    }
}

/// Why a row of values could not be serialized.
pub enum SerializeError {
    /// The row does not fit the statement's columns.
    ColumnCount(ColumnCountError),
    /// The value at `index` is too large for one cell.
    CellOverflow { index: usize },
}

/// Writes a row of cells for a statement with `cql_cols` bound columns.
///
/// Fails without writing when the count does not fit the statement; fails at
/// the first value too large for a cell, the cells before it written.
pub fn serialize_each_cell(cells: &[CellRef<'_>], cql_cols: usize, writer: &mut RowWriter<'_>) -> (r:
    Result<(), SerializeError>)
    ensures
        column_count_check(cells@.len() as usize, cql_cols) matches Err(e) ==> r == Err::<
            (),
            SerializeError,
        >(SerializeError::ColumnCount(e)),
        column_count_check(cells@.len() as usize, cql_cols) is Ok ==> (r is Ok <==> forall|i: int|
            0 <= i < cells@.len() ==> cell_fits(#[trigger] cells@[i])),
        column_count_check(cells@.len() as usize, cql_cols) is Ok && r is Err ==> (r matches Err(
            SerializeError::CellOverflow { .. },
        )),
        r matches Err(SerializeError::CellOverflow { index }) ==> {
            &&& index < cells@.len()
            &&& !cell_fits(cells@[index as int])
            &&& forall|i: int| 0 <= i < index ==> cell_fits(#[trigger] cells@[i])
        },
{
    match validate_number_of_columns(cells.len(), cql_cols) {
        Err(e) => {
            return Err(SerializeError::ColumnCount(e));
        },
        Ok(()) => {},
    }
    let mut i: usize = 0;
    while i < cells.len()
        invariant
            i <= cells@.len(),
            column_count_check(cells@.len() as usize, cql_cols) is Ok,
            forall|j: int| 0 <= j < i ==> cell_fits(#[trigger] cells@[j]),
        decreases cells@.len() - i,
    {
        match &cells[i] {
            CellRef::Bytes(b) => {
                match write_value(writer, b) {
                    Ok(()) => {},
                    Err(_) => {
                        return Err(SerializeError::CellOverflow { index: i });
                    },
                }
            },
            CellRef::Null => write_null(writer),
            CellRef::Unset => write_unset(writer),
        }
        i = i + 1;
    }
    Ok(())
}

/// A cell whose value bytes were copied in.
pub enum SafeCell {
    Bytes(Vec<u8>),
    Null,
    Unset,
}

impl SafeCell {
    pub open spec fn kind(&self) -> CellKind {
        match self {
            SafeCell::Bytes(b) => CellKind::Value(b@.len() as usize),
            SafeCell::Null => CellKind::Null,
            SafeCell::Unset => CellKind::Unset,
        }
    }
}

/// Values of one row, each value's bytes copied when added.
pub struct SafePreSerializedValues {
    cells: Vec<SafeCell>,
}

impl SafePreSerializedValues {
    /// The cells, in the order they were added.
    pub closed spec fn cells(&self) -> Seq<SafeCell> {
        self.cells@
    }

    pub open spec fn kinds(&self) -> Seq<CellKind> {
        self.cells().map_values(|c: SafeCell| c.kind())
    }

    pub fn new() -> (r: Self)
        ensures
            r.cells() == Seq::<SafeCell>::empty(),
    {
        SafePreSerializedValues { cells: Vec::new() }
    }

    /// Appends a copy of `value`.
    pub fn add_value(&mut self, value: &[u8])
        ensures
            final(self).cells().len() == old(self).cells().len() + 1,
            final(self).cells().take(old(self).cells().len() as int) == old(self).cells(),
            final(self).cells().last() matches SafeCell::Bytes(b) && b@ == value@,
    {
        let bytes = vstd::slice::slice_to_vec(value);
        self.cells.push(SafeCell::Bytes(bytes));
        assert(self.cells().take(old(self).cells().len() as int) =~= old(self).cells());
    }

    pub fn add_null(&mut self)
        ensures
            final(self).cells() == old(self).cells().push(SafeCell::Null),
    {
        self.cells.push(SafeCell::Null);
    }

    pub fn add_unset(&mut self)
        ensures
            final(self).cells() == old(self).cells().push(SafeCell::Unset),
    {
        self.cells.push(SafeCell::Unset);
    }

    pub fn len(&self) -> (r: usize)
        ensures
            r == self.cells().len(),
    {
        self.cells.len()
    }

    pub fn is_empty(&self) -> (r: bool)
        ensures
            r == (self.cells().len() == 0),
    {
        self.cells.len() == 0
    }

    pub fn get_cells(&self) -> (r: &Vec<SafeCell>)
        ensures
            r@ == self.cells(),
    {
        &self.cells
    }

    /// The cells as they are written out, borrowing the copied bytes.
    pub fn cell_refs(&self) -> (r: Vec<CellRef<'_>>)
        ensures
            r@.len() == self.cells().len(),
            forall|i: int| 0 <= i < r@.len() ==> refers_to(#[trigger] r@[i], self.cells()[i]),
    {
        let mut r: Vec<CellRef<'_>> = Vec::new();
        let mut i: usize = 0;
        while i < self.cells.len()
            invariant
                i <= self.cells@.len(),
                r@.len() == i,
                forall|j: int| 0 <= j < i ==> refers_to(#[trigger] r@[j], self.cells@[j]),
            decreases self.cells@.len() - i,
        {
            let c = match &self.cells[i] {
                SafeCell::Bytes(b) => CellRef::Bytes(b.as_slice()),
                SafeCell::Null => CellRef::Null,
                SafeCell::Unset => CellRef::Unset,
            };
            r.push(c);
            i = i + 1;
        }
        r
    }
}

/// `r` is how the copied cell `c` is written out.
pub open spec fn refers_to(r: CellRef<'_>, c: SafeCell) -> bool {
    match (r, c) {
        (CellRef::Bytes(x), SafeCell::Bytes(y)) => x@ == y@,
        (CellRef::Null, SafeCell::Null) => true,
        (CellRef::Unset, SafeCell::Unset) => true,
        _ => false,
    }
}

/// The address of a foreign buffer that stays pinned and unchanged while
/// the values that point into it are in use.
pub struct ConstPtr(pub usize);

/// A cell that refers to its value bytes in place instead of copying them.
pub enum UnsafeCell {
    Bytes(ConstPtr, usize),
    Null,
    Unset,
}

impl UnsafeCell {
    pub open spec fn kind(&self) -> CellKind {
        match self {
            UnsafeCell::Bytes(_, len) => CellKind::Value(*len),
            UnsafeCell::Null => CellKind::Null,
            UnsafeCell::Unset => CellKind::Unset,
        }
    }
}

/// Values of one row, each value referring to a foreign buffer that the
/// caller keeps pinned until the row has been sent.
pub struct UnsafePreSerializedValues {
    cells: Vec<UnsafeCell>,
}

impl UnsafePreSerializedValues {
    /// The cells, in the order they were added.
    pub closed spec fn cells(&self) -> Seq<UnsafeCell> {
        self.cells@
    }

    pub open spec fn kinds(&self) -> Seq<CellKind> {
        self.cells().map_values(|c: UnsafeCell| c.kind())
    }

    pub fn new() -> (r: Self)
        ensures
            r.cells() == Seq::<UnsafeCell>::empty(),
    {
        UnsafePreSerializedValues { cells: Vec::new() }
    }

    /// Appends a reference to the `value_len` bytes at `value_ptr`.
    pub fn add_value(&mut self, value_ptr: usize, value_len: usize)
        ensures
            final(self).cells().len() == old(self).cells().len() + 1,
            final(self).cells().take(old(self).cells().len() as int) == old(self).cells(),
            final(self).cells().last() matches UnsafeCell::Bytes(p, n) && p.0 == value_ptr && n
                == value_len,
    {
        self.cells.push(UnsafeCell::Bytes(ConstPtr(value_ptr), value_len));
        assert(self.cells().take(old(self).cells().len() as int) =~= old(self).cells());
    }

    pub fn add_null(&mut self)
        ensures
            final(self).cells() == old(self).cells().push(UnsafeCell::Null),
    {
        self.cells.push(UnsafeCell::Null);
    }

    pub fn add_unset(&mut self)
        ensures
            final(self).cells() == old(self).cells().push(UnsafeCell::Unset),
    {
        self.cells.push(UnsafeCell::Unset);
    }

    pub fn len(&self) -> (r: usize)
        ensures
            r == self.cells().len(),
    {
        self.cells.len()
    }

    pub fn is_empty(&self) -> (r: bool)
        ensures
            r == (self.cells().len() == 0),
    {
        self.cells.len() == 0
    }

    pub fn get_cells(&self) -> (r: &Vec<UnsafeCell>)
        ensures
            r@ == self.cells(),
    {
        &self.cells
    }
}

/// The two ways a row of values can hold its bytes.
pub enum PreSerializedInner {
    Safe(SafePreSerializedValues),
    Unsafe(UnsafePreSerializedValues),
}

/// A row of values built one value at a time by the foreign side, then bound
/// to a statement. Exported through the exclusive-heap discipline.
pub struct PreSerializedValues {
    pub inner: PreSerializedInner,
}

impl FFI for PreSerializedValues {
    type Origin = FromBox;
}

impl PreSerializedValues {
    /// The kinds of the cells, in the order they were added.
    pub open spec fn kinds(&self) -> Seq<CellKind> {
        match self.inner {
            PreSerializedInner::Safe(v) => v.kinds(),
            PreSerializedInner::Unsafe(v) => v.kinds(),
        }
    }

    pub open spec fn is_safe(&self) -> bool {
        self.inner is Safe
    }

    /// An empty row that copies each value.
    pub fn new_safe() -> (r: Self)
        ensures
            r.is_safe(),
            r.kinds() == Seq::<CellKind>::empty(),
    {
        let r = PreSerializedValues { inner: PreSerializedInner::Safe(SafePreSerializedValues::new()) };
        assert(r.kinds() =~= Seq::<CellKind>::empty());
        r
    }

    /// An empty row that refers to each value in place.
    pub fn new_unsafe() -> (r: Self)
        ensures
            !r.is_safe(),
            r.kinds() == Seq::<CellKind>::empty(),
    {
        let r = PreSerializedValues {
            inner: PreSerializedInner::Unsafe(UnsafePreSerializedValues::new()),
        };
        assert(r.kinds() =~= Seq::<CellKind>::empty());
        r
    }

    /// Appends the value whose bytes `value` holds and start at `value_ptr`:
    /// a copying row copies `value`, the other records where it lies.
    pub fn add_value(&mut self, value_ptr: usize, value: &[u8])
        ensures
            final(self).is_safe() == old(self).is_safe(),
            final(self).kinds() == old(self).kinds().push(CellKind::Value(value@.len() as usize)),
            final(self).inner matches PreSerializedInner::Safe(v) ==> v.cells().last() matches SafeCell::Bytes(b) && b@ == value@,
            final(self).inner matches PreSerializedInner::Unsafe(v) ==> v.cells().last() matches UnsafeCell::Bytes(p, n) && p.0 == value_ptr && n == value@.len(),
    {
        match &mut self.inner {
            PreSerializedInner::Safe(v) => {
                let ghost before = *v;
                v.add_value(value);
                assert(v.kinds() =~= before.kinds().push(CellKind::Value(value@.len() as usize))) by {
                    assert(v.cells() =~= v.cells().take(before.cells().len() as int).push(v.cells().last()));
                };
            },
            PreSerializedInner::Unsafe(v) => {
                let ghost before = *v;
                v.add_value(value_ptr, value.len());
                assert(v.kinds() =~= before.kinds().push(CellKind::Value(value@.len() as usize))) by {
                    assert(v.cells() =~= v.cells().take(before.cells().len() as int).push(v.cells().last()));
                };
            },
        }
    }

    pub fn add_null(&mut self)
        ensures
            final(self).is_safe() == old(self).is_safe(),
            final(self).kinds() == old(self).kinds().push(CellKind::Null),
    {
        match &mut self.inner {
            PreSerializedInner::Safe(v) => {
                let ghost before = *v;
                v.add_null();
                assert(v.kinds() =~= before.kinds().push(CellKind::Null));
            },
            PreSerializedInner::Unsafe(v) => {
                let ghost before = *v;
                v.add_null();
                assert(v.kinds() =~= before.kinds().push(CellKind::Null));
            },
        }
    }

    pub fn add_unset(&mut self)
        ensures
            final(self).is_safe() == old(self).is_safe(),
            final(self).kinds() == old(self).kinds().push(CellKind::Unset),
    {
        match &mut self.inner {
            PreSerializedInner::Safe(v) => {
                let ghost before = *v;
                v.add_unset();
                assert(v.kinds() =~= before.kinds().push(CellKind::Unset));
            },
            PreSerializedInner::Unsafe(v) => {
                let ghost before = *v;
                v.add_unset();
                assert(v.kinds() =~= before.kinds().push(CellKind::Unset));
            },
        }
    }

    pub fn len(&self) -> (r: usize)
        ensures
            r == self.kinds().len(),
    {
        match &self.inner {
            PreSerializedInner::Safe(v) => v.len(),
            PreSerializedInner::Unsafe(v) => v.len(),
        }
    }

    pub fn is_empty(&self) -> (r: bool)
        ensures
            r == (self.kinds().len() == 0),
    {
        match &self.inner {
            PreSerializedInner::Safe(v) => v.is_empty(),
            PreSerializedInner::Unsafe(v) => v.is_empty(),
        }
    }
}

} // verus!
