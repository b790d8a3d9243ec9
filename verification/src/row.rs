//! Adapts one driver-native result row to a uniform field-access interface.
//!
//! A [`MssqlRow`] owns an ordered sequence of (optional column name, raw
//! cell) pairs, exactly as the wire-protocol decoder produced them. Columns
//! are resolved by position or by name to an index, and a resolved index
//! yields a [`MssqlField`]: a borrowed view of one column that applies the
//! null-normalization policy when its value is read.

use core::ops::Range;
use vstd::prelude::*;

verus! {

/// A raw column value as produced by the driver's wire-protocol decoder,
/// before any typed deserialization.
///
/// Only the shapes the adapter's null policy distinguishes are kept apart:
/// a nullable 32-bit integer, a nullable text value, and every other driver
/// shape collapsed into [`RawValue::Other`]. For an `Other` value the flag
/// records whether the driver's own representation is a null marker; the
/// adapter deliberately ignores it (see [`MssqlField::value`]).
pub enum RawValue {
    I32(Option<i32>),
    Text(Option<String>),
    Other { null_like: bool },
}

/// One slot of a result row: either a decoded raw value, or a cell the
/// driver could not decode (malformed or of an unsupported kind).
pub enum Cell {
    Decoded(RawValue),
    Malformed,
}

/// Whether the null-normalization policy treats a raw value as absent.
///
/// Exactly two driver shapes are tested for their "none" state: the nullable
/// 32-bit integer and the nullable text value. Every other shape counts as
/// present, even when the driver's own bits are a null marker; this narrow
/// two-case rule is a deliberate policy of the adapter, not a general null
/// test.
pub open spec fn is_absent(v: RawValue) -> bool {
    ||| v matches RawValue::I32(n) && n is None
    ||| v matches RawValue::Text(t) && t is None
}

/// A transient, borrowed view of one (column descriptor, raw value) pair of
/// a row. Its lifetime is bounded by the row it came from.
pub struct MssqlField<'a> {
    column_name: Option<&'a String>,
    field_value: &'a RawValue,
}

impl<'a> MssqlField<'a> {
    /// The declared name of the originating column, or `None` where the
    /// driver supplied no column metadata for that position.
    pub closed spec fn spec_name(self) -> Option<Seq<char>> {
        match self.column_name {
            Some(n) => Some(n@),
            None => None,
        }
    }

    /// The raw value underlying this field, before null normalization.
    pub closed spec fn spec_value(self) -> RawValue {
        *self.field_value
    }

    /// The originating column's declared name, or `None` where the driver
    /// supplied no column metadata for that position.
    pub fn field_name(&self) -> (r: Option<&str>)
        ensures
            match r {
                Some(n) => self.spec_name() == Some(n@),
                None => self.spec_name() is None,
            },
    {
        if let Some(name) = self.column_name {
            return Some(name.as_str());
        }
        None
    }

    /// The field's raw value with null normalization applied: `None` exactly
    /// when the underlying value is a "no value" nullable integer or nullable
    /// text. Any other shape is returned as present, even when the driver's
    /// internal representation is null-like; that narrow two-case check is
    /// the adapter's documented policy.
    pub fn value(&self) -> (r: Option<&RawValue>)
        ensures
            r is Some <==> !is_absent(self.spec_value()),
            r matches Some(v) ==> *v == self.spec_value(),
    {
        if let RawValue::I32(n) = self.field_value {
            if n.is_none() {
                return None;
            }
        }
        if let RawValue::Text(t) = self.field_value {
            if t.is_none() {
                return None;
            }
        }
        Some(self.field_value)
    }
}

/// One query result row: an ordered sequence of (optional column name, raw
/// cell) pairs, index-aligned by construction and immutable afterwards.
pub struct MssqlRow {
    entries: Vec<(Option<String>, Cell)>,
}

/// Whether an entry's column descriptor carries exactly the given name.
pub open spec fn name_matches(entry: (Option<String>, Cell), name: Seq<char>) -> bool {
    entry.0 matches Some(n) && n@ == name
}

/// Whether `i` is the position of the first occurrence of `name` among the
/// column descriptors: a case-sensitive match with no earlier one.
pub open spec fn first_name_match(
    entries: Seq<(Option<String>, Cell)>,
    name: Seq<char>,
    i: int,
) -> bool {
    &&& 0 <= i < entries.len()
    &&& name_matches(entries[i], name)
    &&& forall|j: int| 0 <= j < i ==> !name_matches(entries[j], name)
}

/// An optional column name taken to its view.
pub open spec fn spec_name_of(name: Option<String>) -> Option<Seq<char>> {
    match name {
        Some(n) => Some(n@),
        None => None,
    }
}

/// The field a lookup at position `index` of a row with the given entries
/// yields: the entry's name and decoded value, or `None` where the position
/// is out of range or the cell could not be decoded.
pub open spec fn spec_get(entries: Seq<(Option<String>, Cell)>, index: int) -> Option<
    (Option<Seq<char>>, RawValue),
> {
    if 0 <= index < entries.len() {
        match entries[index].1 {
            Cell::Decoded(v) => Some((spec_name_of(entries[index].0), v)),
            Cell::Malformed => None,
        }
    } else {
        None
    }
}

impl View for MssqlRow {
    type V = Seq<(Option<String>, Cell)>;

    closed spec fn view(&self) -> Seq<(Option<String>, Cell)> {
        self.entries@
    }
}

impl MssqlRow {
    /// Wraps one driver-native row, given as the ordered list of
    /// (optional column metadata, raw cell) pairs the decoder produced.
    pub fn new(entries: Vec<(Option<String>, Cell)>) -> (r: MssqlRow)
        ensures
            r@ == entries@,
    {
        MssqlRow { entries }
    }

    /// The number of columns of the row.
    pub fn field_count(&self) -> (r: usize)
        ensures
            r == self@.len(),
    {
        self.entries.len()
    }

    /// Resolves a position to the canonical column index: the identity
    /// mapping on valid positions, `None` past the end of the row.
    pub fn idx(&self, position: usize) -> (r: Option<usize>)
        ensures
            r == if position < self@.len() {
                Some(position)
            } else {
                None::<usize>
            },
    {
        if position < self.entries.len() {
            Some(position)
        } else {
            None
        }
    }

    /// Resolves a column name to an index by a linear, case-sensitive scan
    /// of the column descriptors. A duplicated name resolves to its first
    /// occurrence; an absent name resolves to `None`.
    pub fn idx_by_name(&self, name: &str) -> (r: Option<usize>)
        ensures
            match r {
                Some(i) => first_name_match(self@, name@, i as int),
                None => forall|j: int| 0 <= j < self@.len() ==> !name_matches(self@[j], name@),
            },
    {
        let key = name.to_owned();
        let n = self.entries.len();
        let mut i: usize = 0;
        while i < n
            invariant
                n == self@.len(),
                i <= n,
                key@ == name@,
                forall|j: int| 0 <= j < i ==> !name_matches(self@[j], name@),
            decreases n - i,
        {
            if let Some(col) = &self.entries[i].0 {
                if *col == key {
                    return Some(i);
                }
            }
            i = i + 1;
        }
        None
    }

    /// Looks the field at `index` up. `None` both where the index is out of
    /// range and where the cell at it could not be decoded: at this layer a
    /// malformed cell is indistinguishable from a missing one, by design.
    pub fn get<'r>(&'r self, index: usize) -> (r: Option<MssqlField<'r>>)
        ensures
            match r {
                Some(f) => spec_get(self@, index as int) == Some((f.spec_name(), f.spec_value())),
                None => spec_get(self@, index as int) is None,
            },
    {
        if index >= self.entries.len() {
            return None;
        }
        let entry = &self.entries[index];
        match &entry.1 {
            Cell::Decoded(v) => Some(
                MssqlField { column_name: entry.0.as_ref(), field_value: v },
            ),
            Cell::Malformed => None,
        }
    }

    /// Looks a field up by column name: the composition of
    /// [`Self::idx_by_name`] and [`Self::get`]. `None` where no descriptor
    /// carries the name, and where the first matching column's cell could
    /// not be decoded.
    pub fn get_by_name<'r>(&'r self, name: &str) -> (r: Option<MssqlField<'r>>)
        ensures
            match r {
                Some(f) => exists|i: int|
                    #[trigger] first_name_match(self@, name@, i) && spec_get(self@, i) == Some(
                        (f.spec_name(), f.spec_value()),
                    ),
                None => forall|i: int|
                    #[trigger] first_name_match(self@, name@, i) ==> spec_get(self@, i) is None,
            },
    {
        match self.idx_by_name(name) {
            Some(i) => self.get(i),
            None => None,
        }
    }

    /// Extracts a field by column name as a `T`, exactly as
    /// [`Self::get_value`] does at the position the name resolves to. An
    /// unresolvable name is `UnexpectedEndOfRow`, like an unresolvable
    /// position.
    pub fn get_value_by_name<T: FromSqlValue>(&self, name: &str) -> (r: Result<
        T,
        DeserializeError,
    >)
        ensures
            match r {
                Ok(_) => exists|i: int|
                    #[trigger] first_name_match(self@, name@, i) && (spec_get(self@, i)
                        matches Some(field) && T::decodes(spec_nullable(field.1), r)),
                Err(e) => (e == DeserializeError::UnexpectedEndOfRow && forall|i: int|
                    #[trigger] first_name_match(self@, name@, i) ==> spec_get(self@, i) is None)
                    || (exists|i: int|
                    #[trigger] first_name_match(self@, name@, i) && (spec_get(self@, i)
                        matches Some(field) && T::decodes(spec_nullable(field.1), r))),
            },
    {
        match self.get_by_name(name) {
            None => Err(DeserializeError::UnexpectedEndOfRow),
            Some(field) => T::from_nullable_sql(field.value()),
        }
    }

    /// A restricted view of the columns in `range`, re-indexed relative to
    /// the start of the slice. A range reaching past the end of the row is
    /// clamped to it, so the view never exposes positions the row lacks.
    pub fn partial_row<'r>(&'r self, range: Range<usize>) -> (r: MssqlPartialRow<'r>)
        ensures
            r@ == spec_clamped(self@, range.start as int, range.end as int),
            r.spec_row() == self@,
            r.spec_end() == (if range.end as int <= self@.len() {
                range.end as int
            } else {
                self@.len() as int
            }),
            r.spec_start() == (if range.start as int <= r.spec_end() {
                range.start as int
            } else {
                r.spec_end()
            }),
    {
        let end = if range.end <= self.entries.len() {
            range.end
        } else {
            self.entries.len()
        };
        let start = if range.start <= end {
            range.start
        } else {
            end
        };
        MssqlPartialRow { row: self, start, end }
    }
}

/// The entries a partial view over `[start, end)` exposes: the subrange of
/// the row's entries, with both bounds clamped into the row.
pub open spec fn spec_clamped(
    entries: Seq<(Option<String>, Cell)>,
    start: int,
    end: int,
) -> Seq<(Option<String>, Cell)> {
    let e = if end <= entries.len() {
        end
    } else {
        entries.len() as int
    };
    let s = if start <= e {
        start
    } else {
        e
    };
    entries.subrange(s, e)
}

/// A restricted view of a contiguous sub-range of a row's columns,
/// re-indexed relative to the start of the range. Lookups outside the range
/// resolve to `None`, exactly as positions past the end of a row do.
pub struct MssqlPartialRow<'a> {
    row: &'a MssqlRow,
    start: usize,
    end: usize,
}

impl<'a> MssqlPartialRow<'a> {
    #[verifier::type_invariant]
    spec fn bounds_wf(self) -> bool {
        self.start <= self.end <= self.row@.len()
    }

    /// The entries of the underlying row, unrestricted.
    pub closed spec fn spec_row(self) -> Seq<(Option<String>, Cell)> {
        self.row@
    }

    /// The first position of the underlying row the view exposes.
    pub closed spec fn spec_start(self) -> int {
        self.start as int
    }

    /// The position of the underlying row the view ends before.
    pub closed spec fn spec_end(self) -> int {
        self.end as int
    }
}

impl<'a> View for MssqlPartialRow<'a> {
    type V = Seq<(Option<String>, Cell)>;

    closed spec fn view(&self) -> Seq<(Option<String>, Cell)> {
        self.row@.subrange(self.start as int, self.end as int)
    }
}

impl<'a> MssqlPartialRow<'a> {
    /// The number of columns the view exposes.
    pub fn field_count(&self) -> (r: usize)
        ensures
            r == self@.len(),
    {
        proof {
            use_type_invariant(self);
        }
        self.end - self.start
    }

    /// Resolves a position relative to the view: the identity mapping on
    /// positions inside the range, `None` outside it.
    pub fn idx(&self, position: usize) -> (r: Option<usize>)
        ensures
            r == if position < self@.len() {
                Some(position)
            } else {
                None::<usize>
            },
    {
        proof {
            use_type_invariant(self);
        }
        if position < self.end - self.start {
            Some(position)
        } else {
            None
        }
    }

    /// Resolves a column name against the underlying row, accepting the
    /// match only where the name's first occurrence falls inside the view's
    /// range; the result is re-indexed relative to the range. A name whose
    /// first occurrence lies outside the range resolves to `None`, even
    /// where a duplicate of it lies inside.
    pub fn idx_by_name(&self, name: &str) -> (r: Option<usize>)
        ensures
            match r {
                Some(i) => exists|abs: int|
                    #[trigger] first_name_match(self.spec_row(), name@, abs) && self.spec_start()
                        <= abs < self.spec_end() && i == abs - self.spec_start(),
                None => forall|abs: int|
                    #[trigger] first_name_match(self.spec_row(), name@, abs) ==> !(self.spec_start()
                        <= abs < self.spec_end()),
            },
    {
        proof {
            use_type_invariant(self);
        }
        match self.row.idx_by_name(name) {
            Some(abs) => {
                if self.start <= abs && abs < self.end {
                    proof {
                        assert(first_name_match(self.spec_row(), name@, abs as int));
                    }
                    Some(abs - self.start)
                } else {
                    None
                }
            },
            None => None,
        }
    }

    /// Looks a field up by its position relative to the view. The result is
    /// the underlying row's field at `start + index`, and `None` for every
    /// position outside the view's range.
    pub fn get(&self, index: usize) -> (r: Option<MssqlField<'a>>)
        ensures
            match r {
                Some(f) => spec_get(self@, index as int) == Some((f.spec_name(), f.spec_value())),
                None => spec_get(self@, index as int) is None,
            },
    {
        proof {
            use_type_invariant(self);
        }
        if index >= self.end - self.start {
            return None;
        }
        self.row.get(self.start + index)
    }
}

/// Why a typed value could not be extracted from a row.
#[derive(Clone, Copy, PartialEq, Eq, Structural, Debug)]
pub enum DeserializeError {
    /// The row has no field at the requested position, or its cell could
    /// not be decoded.
    UnexpectedEndOfRow,
    /// The field was absent (a normalized null) where a value was required.
    UnexpectedNull,
    /// The field's raw value has a shape the requested type cannot read.
    WrongType,
}

/// The normalized value a field hands to deserialization: `None` exactly
/// where the null policy treats the raw value as absent.
pub open spec fn spec_nullable(v: RawValue) -> Option<RawValue> {
    if is_absent(v) {
        None
    } else {
        Some(v)
    }
}

/// An optional borrowed raw value taken to its owned spec counterpart.
pub open spec fn spec_opt_value(v: Option<&RawValue>) -> Option<RawValue> {
    match v {
        Some(x) => Some(*x),
        None => None,
    }
}

/// A per-type decode rule from a normalized raw value, the pluggable half of
/// [`MssqlRow::get_value`]. `decodes` is the type's decode relation: it
/// states which results `from_nullable_sql` may return for a given input.
pub trait FromSqlValue: Sized {
    /// The type's decode relation: whether `r` is the outcome of decoding
    /// the normalized raw value `v`.
    spec fn decodes(v: Option<RawValue>, r: Result<Self, DeserializeError>) -> bool;

    /// Decodes a normalized raw value, `None` standing for an absent field.
    fn from_nullable_sql(v: Option<&RawValue>) -> (r: Result<Self, DeserializeError>)
        ensures
            Self::decodes(spec_opt_value(v), r),
    ;
}

impl FromSqlValue for i32 {
    open spec fn decodes(v: Option<RawValue>, r: Result<i32, DeserializeError>) -> bool {
        match v {
            None => r == Err::<i32, DeserializeError>(DeserializeError::UnexpectedNull),
            Some(RawValue::I32(Some(n))) => r == Ok::<i32, DeserializeError>(n),
            Some(RawValue::I32(None)) => r == Err::<i32, DeserializeError>(
                DeserializeError::UnexpectedNull,
            ),
            Some(_) => r == Err::<i32, DeserializeError>(DeserializeError::WrongType),
        }
    }

    fn from_nullable_sql(v: Option<&RawValue>) -> (r: Result<i32, DeserializeError>) {
        match v {
            None => Err(DeserializeError::UnexpectedNull),
            Some(RawValue::I32(Some(n))) => Ok(*n),
            Some(RawValue::I32(None)) => Err(DeserializeError::UnexpectedNull),
            Some(_) => Err(DeserializeError::WrongType),
        }
    }
}

impl FromSqlValue for String {
    open spec fn decodes(v: Option<RawValue>, r: Result<String, DeserializeError>) -> bool {
        match v {
            None => r == Err::<String, DeserializeError>(DeserializeError::UnexpectedNull),
            Some(RawValue::Text(Some(t))) => r matches Ok(s) && s@ == t@,
            Some(RawValue::Text(None)) => r == Err::<String, DeserializeError>(
                DeserializeError::UnexpectedNull,
            ),
            Some(_) => r == Err::<String, DeserializeError>(DeserializeError::WrongType),
        }
    }

    fn from_nullable_sql(v: Option<&RawValue>) -> (r: Result<String, DeserializeError>) {
        match v {
            None => Err(DeserializeError::UnexpectedNull),
            Some(RawValue::Text(Some(t))) => Ok(t.clone()),
            Some(RawValue::Text(None)) => Err(DeserializeError::UnexpectedNull),
            Some(_) => Err(DeserializeError::WrongType),
        }
    }
}

impl<T: FromSqlValue> FromSqlValue for Option<T> {
    /// An absent field decodes to `Ok(None)`; a present one decodes through
    /// `T` and is wrapped in `Some`.
    open spec fn decodes(v: Option<RawValue>, r: Result<Option<T>, DeserializeError>) -> bool {
        match v {
            None => r == Ok::<Option<T>, DeserializeError>(None),
            Some(_) => match r {
                Ok(Some(t)) => T::decodes(v, Ok(t)),
                Ok(None) => false,
                Err(e) => T::decodes(v, Err(e)),
            },
        }
    }

    fn from_nullable_sql(v: Option<&RawValue>) -> (r: Result<Option<T>, DeserializeError>) {
        match v {
            None => Ok(None),
            Some(x) => match T::from_nullable_sql(Some(x)) {
                Ok(t) => Ok(Some(t)),
                Err(e) => Err(e),
            },
        }
    }
}

impl MssqlRow {
    /// Extracts the field at `index` as a `T`: the composition of [`Self::get`],
    /// null normalization and `T`'s decode rule. An unresolvable index (out
    /// of range, or a malformed cell) is `UnexpectedEndOfRow`; what the
    /// decode rule rejects is its own error.
    pub fn get_value<T: FromSqlValue>(&self, index: usize) -> (r: Result<T, DeserializeError>)
        ensures
            match spec_get(self@, index as int) {
                Some(field) => T::decodes(spec_nullable(field.1), r),
                None => r == Err::<T, DeserializeError>(DeserializeError::UnexpectedEndOfRow),
            },
    {
        match self.get(index) {
            None => Err(DeserializeError::UnexpectedEndOfRow),
            Some(field) => T::from_nullable_sql(field.value()),
        }
    }
}

impl<'a> MssqlPartialRow<'a> {
    /// Extracts the field at the view-relative `index` as a `T`, exactly as
    /// [`MssqlRow::get_value`] does on the underlying row at the shifted
    /// position.
    pub fn get_value<T: FromSqlValue>(&self, index: usize) -> (r: Result<T, DeserializeError>)
        ensures
            match spec_get(self@, index as int) {
                Some(field) => T::decodes(spec_nullable(field.1), r),
                None => r == Err::<T, DeserializeError>(DeserializeError::UnexpectedEndOfRow),
            },
    {
        match self.get(index) {
            None => Err(DeserializeError::UnexpectedEndOfRow),
            Some(field) => T::from_nullable_sql(field.value()),
        }
    }
}

/// Law: looking a position up through a partial view agrees with looking the
/// range-shifted position up on the row itself. For `i` inside the range the
/// two lookups yield the same field; for `i` outside it the view yields
/// `None`.
pub proof fn lemma_partial_view_get(
    entries: Seq<(Option<String>, Cell)>,
    start: int,
    end: int,
    i: int,
)
    requires
        0 <= start <= end <= entries.len(),
    ensures
        0 <= i < end - start ==> spec_get(spec_clamped(entries, start, end), i) == spec_get(
            entries,
            start + i,
        ),
        !(0 <= i < end - start) ==> spec_get(spec_clamped(entries, start, end), i) is None,
{
}

} // verus!
