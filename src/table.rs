//! Tables: bounded, growable arrays of reference slots, and their types.

use vstd::prelude::*;

use crate::error::{TableError, WasmEdgeError, WasmEdgeResult};
use crate::ownership::{releases_on_destroy, Ownership};
use crate::types::{RefType, WasmValue};
use core::ops::RangeInclusive;

verus! {

/// Relies on `RangeInclusive::start`, which returns the range's lower bound.
pub assume_specification<Idx>[ RangeInclusive::<Idx>::start ](r: &RangeInclusive<Idx>) -> (ret: &Idx)
    ensures
        *ret == r@.start,
;

/// Relies on `RangeInclusive::end`, which returns the range's upper bound.
pub assume_specification<Idx>[ RangeInclusive::<Idx>::end ](r: &RangeInclusive<Idx>) -> (ret: &Idx)
    ensures
        *ret == r@.end,
;

/// The abstract content of a [TableType].
pub struct TableTypeView {
    pub elem_ty: RefType,
    /// The inclusive lower bound of the table's capacity.
    pub min: u32,
    /// The inclusive upper bound of the table's capacity.
    pub max: u32,
    pub ownership: Ownership,
}

/// The abstract content of a [Table]: its type and the contents of its slots.
pub struct TableView {
    pub elem_ty: RefType,
    pub min: u32,
    pub max: u32,
    pub slots: Seq<WasmValue>,
    pub ownership: Ownership,
}

impl TableTypeView {
    pub open spec fn wf(self) -> bool {
        self.min <= self.max
    }
}

impl TableView {
    /// The capacity stays within the limit, and every slot holds a reference
    /// of the element type.
    pub open spec fn wf(self) -> bool {
        &&& self.min <= self.slots.len() <= self.max
        &&& forall|i: int|
            0 <= i < self.slots.len() ==> (#[trigger] self.slots[i]).spec_ty()
                == self.elem_ty.spec_val_type()
    }

    /// A table freshly created from a type: `min` slots, all null.
    pub open spec fn fresh(ty: TableTypeView) -> TableView {
        TableView {
            elem_ty: ty.elem_ty,
            min: ty.min,
            max: ty.max,
            slots: Seq::new(ty.min as nat, |_i: int| WasmValue::null_of(ty.elem_ty)),
            ownership: Ownership::Owned,
        }
    }

    /// The type of the table, as seen through the table: a borrowed view.
    pub open spec fn descriptor(self) -> TableTypeView {
        TableTypeView {
            elem_ty: self.elem_ty,
            min: self.min,
            max: self.max,
            ownership: Ownership::Borrowed,
        }
    }

    /// Reading the slot at `idx`.
    pub open spec fn get(self, idx: u32) -> WasmEdgeResult<WasmValue> {
        if idx < self.slots.len() {
            Ok(self.slots[idx as int])
        } else {
            Err(WasmEdgeError::Table(TableError::OutOfBounds))
        }
    }

    /// Writing `v` to the slot at `idx`: the table afterwards, or the error.
    pub open spec fn set(self, idx: u32, v: WasmValue) -> WasmEdgeResult<TableView> {
        if v.spec_ty() != self.elem_ty.spec_val_type() {
            Err(WasmEdgeError::Table(TableError::RefTypeMismatch))
        } else if idx >= self.slots.len() {
            Err(WasmEdgeError::Table(TableError::OutOfBounds))
        } else {
            Ok(TableView { slots: self.slots.update(idx as int, v), ..self })
        }
    }

    /// Adding `d` null slots at the end: the table afterwards, or the error.
    pub open spec fn grow(self, d: u32) -> WasmEdgeResult<TableView> {
        if self.slots.len() + d > self.max {
            Err(WasmEdgeError::Table(TableError::LimitExceeded))
        } else {
            Ok(
                TableView {
                    slots: self.slots + Seq::new(d as nat, |_i: int| WasmValue::null_of(self.elem_ty)),
                    ..self
                },
            )
        }
    }
}

/// The type of a table: the kind of reference it holds and the inclusive
/// range its capacity may take.
#[derive(Debug)]
pub struct TableType {
    elem_ty: RefType,
    min: u32,
    max: u32,
    ownership: Ownership,
}

impl View for TableType {
    type V = TableTypeView;

    closed spec fn view(&self) -> TableTypeView {
        TableTypeView {
            elem_ty: self.elem_ty,
            min: self.min,
            max: self.max,
            ownership: self.ownership,
        }
    }
}

impl TableType {
    #[verifier::type_invariant]
    closed spec fn inv(&self) -> bool {
        self@.wf()
    }

    /// Creates a table type with the given element type and capacity range.
    ///
    /// Fails when the range's start lies above its end.
    pub fn create(elem_ty: RefType, limit: RangeInclusive<u32>) -> (r: WasmEdgeResult<TableType>)
        ensures
            limit@.start <= limit@.end ==> (match r {
                Ok(t) => t@ == (TableTypeView {
                    elem_ty,
                    min: limit@.start,
                    max: limit@.end,
                    ownership: Ownership::Owned,
                }),
                Err(_) => false,
            }),
            limit@.start > limit@.end ==> r == Err::<TableType, _>(WasmEdgeError::TableTypeCreate),
    {
        let min = *limit.start();
        let max = *limit.end();
        if min > max {
            return Err(WasmEdgeError::TableTypeCreate);
        }
        Ok(TableType { elem_ty, min, max, ownership: Ownership::Owned })
    }

    /// Returns the element type.
    pub fn elem_ty(&self) -> (r: RefType)
        ensures
            r == self@.elem_ty,
    {
        self.elem_ty
    }

    /// Returns the inclusive range of the capacity, as given at creation.
    pub fn limit(&self) -> (r: RangeInclusive<u32>)
        ensures
            r@.start == self@.min,
            r@.end == self@.max,
            !r@.exhausted,
    {
        RangeInclusive::new(self.min, self.max)
    }

    /// Returns whether this type owns its resource.
    pub fn ownership(&self) -> (r: Ownership)
        ensures
            r == self@.ownership,
    {
        self.ownership
    }

    /// Destroys the type; returns whether the resource was released.
    pub fn destroy(self) -> (released: bool)
        ensures
            released == releases_on_destroy(self@.ownership),
    {
        self.ownership == Ownership::Owned
    }
}

/// A table: a growable array of reference slots whose capacity stays within
/// the limit of its type.
#[derive(Debug)]
pub struct Table {
    elem_ty: RefType,
    min: u32,
    max: u32,
    data: Vec<WasmValue>,
    ownership: Ownership,
}

impl View for Table {
    type V = TableView;

    closed spec fn view(&self) -> TableView {
        TableView {
            elem_ty: self.elem_ty,
            min: self.min,
            max: self.max,
            slots: self.data@,
            ownership: self.ownership,
        }
    }
}

impl Table {
    /// Creates a table of the given type, with `min` slots that all hold the
    /// null reference of the element type.
    pub fn create(ty: &TableType) -> (r: WasmEdgeResult<Table>)
        ensures
            match r {
                Ok(t) => t@ == TableView::fresh(ty@) && t@.wf(),
                Err(_) => false,
            },
    {
        proof {
            use_type_invariant(ty);
        }
        let null = WasmValue::from_null_ref(ty.elem_ty);
        let n = ty.min as usize;
        let mut data: Vec<WasmValue> = Vec::with_capacity(n);
        while data.len() < n
            invariant
                n == ty.min,
                null == WasmValue::null_of(ty.elem_ty),
                data.len() <= n,
                data@ == Seq::new(data.len() as nat, |_i: int| WasmValue::null_of(ty.elem_ty)),
            decreases n - data.len(),
        {
            data.push(null);
            assert(data@ =~= Seq::new(data.len() as nat, |_i: int| WasmValue::null_of(ty.elem_ty)));
        }
        assert(data@ =~= TableView::fresh(ty@).slots);
        Ok(Table { elem_ty: ty.elem_ty, min: ty.min, max: ty.max, data, ownership: Ownership::Owned })
    }

    /// Returns the type of the table, as a borrowed view.
    pub fn ty(&self) -> (r: WasmEdgeResult<TableType>)
        requires
            self@.wf(),
        ensures
            match r {
                Ok(t) => t@ == self@.descriptor(),
                Err(_) => false,
            },
    {
        Ok(TableType { elem_ty: self.elem_ty, min: self.min, max: self.max, ownership: Ownership::Borrowed })
    }

    /// Returns the value in the slot at `idx`.
    ///
    /// Fails with `OutOfBounds` when `idx` is not below the capacity.
    pub fn get_data(&self, idx: u32) -> (r: WasmEdgeResult<WasmValue>)
        ensures
            r == self@.get(idx),
    {
        if (idx as usize) < self.data.len() {
            Ok(self.data[idx as usize])
        } else {
            Err(WasmEdgeError::Table(TableError::OutOfBounds))
        }
    }

    /// Writes `data` to the slot at `idx`.
    ///
    /// Fails with `RefTypeMismatch` when `data` is not a reference of the
    /// element type, and otherwise with `OutOfBounds` when `idx` is not below
    /// the capacity. On failure the table is unchanged.
    pub fn set_data(&mut self, data: WasmValue, idx: u32) -> (r: WasmEdgeResult<()>)
        requires
            old(self)@.wf(),
        ensures
            final(self)@.wf(),
            match old(self)@.set(idx, data) {
                Ok(t) => r == Ok::<(), WasmEdgeError>(()) && final(self)@ == t,
                Err(e) => r == Err::<(), WasmEdgeError>(e) && final(self)@ == old(self)@,
            },
    {
        if data.ty() != self.elem_ty.val_type() {
            return Err(WasmEdgeError::Table(TableError::RefTypeMismatch));
        }
        if (idx as usize) >= self.data.len() {
            return Err(WasmEdgeError::Table(TableError::OutOfBounds));
        }
        self.data.set(idx as usize, data);
        Ok(())
    }

    /// Returns the current number of slots.
    pub fn capacity(&self) -> (r: usize)
        ensures
            r == self@.slots.len(),
    {
        self.data.len()
    }

    /// Adds `size` slots holding the null reference at the end of the table.
    ///
    /// Fails with `LimitExceeded`, leaving the table unchanged, when the new
    /// capacity would exceed the maximum of the table's limit.
    pub fn grow(&mut self, size: u32) -> (r: WasmEdgeResult<()>)
        requires
            old(self)@.wf(),
        ensures
            final(self)@.wf(),
            match old(self)@.grow(size) {
                Ok(t) => r == Ok::<(), WasmEdgeError>(()) && final(self)@ == t,
                Err(e) => r == Err::<(), WasmEdgeError>(e) && final(self)@ == old(self)@,
            },
    {
        let old_len = self.data.len();
        if (old_len as u64) + (size as u64) > self.max as u64 {
            return Err(WasmEdgeError::Table(TableError::LimitExceeded));
        }
        let new_len = old_len + size as usize;
        let null = WasmValue::from_null_ref(self.elem_ty);
        while self.data.len() < new_len
            invariant
                old_len == old(self)@.slots.len(),
                new_len == old_len + size,
                new_len <= self.max,
                null == WasmValue::null_of(self.elem_ty),
                self.elem_ty == old(self)@.elem_ty,
                self.min == old(self)@.min,
                self.max == old(self)@.max,
                self.ownership == old(self)@.ownership,
                old_len <= self.data.len() <= new_len,
                self.data@ == old(self)@.slots + Seq::new(
                    (self.data.len() - old_len) as nat,
                    |_i: int| WasmValue::null_of(self.elem_ty),
                ),
            decreases new_len - self.data.len(),
        {
            self.data.push(null);
            assert(self.data@ =~= old(self)@.slots + Seq::new(
                (self.data.len() - old_len) as nat,
                |_i: int| WasmValue::null_of(self.elem_ty),
            ));
        }
        assert(self@ =~= old(self)@.grow(size)->Ok_0);
        Ok(())
    }

    /// Returns whether this table owns its resource.
    pub fn ownership(&self) -> (r: Ownership)
        ensures
            r == self@.ownership,
    {
        self.ownership
    }

    /// Destroys the table; returns whether the resource was released.
    pub fn destroy(self) -> (released: bool)
        ensures
            released == releases_on_destroy(self@.ownership),
    {
        self.ownership == Ownership::Owned
    }
}

/// A table created from a type has the type's minimum as its capacity.
pub proof fn lemma_fresh_capacity(ty: TableTypeView)
    ensures
        TableView::fresh(ty).slots.len() == ty.min,
{
}

/// Growing by `d` succeeds exactly when the new capacity stays within the
/// maximum, and then the capacity increases by `d`; otherwise it fails with
/// `LimitExceeded`.
pub proof fn lemma_grow_capacity(t: TableView, d: u32)
    ensures
        t.slots.len() + d <= t.max ==> t.grow(d) is Ok && t.grow(d)->Ok_0.slots.len() == t.slots.len() + d,
        t.slots.len() + d > t.max ==> t.grow(d) == Err::<TableView, WasmEdgeError>(
            WasmEdgeError::Table(TableError::LimitExceeded),
        ),
{
}

/// Reading at or beyond the capacity fails with `OutOfBounds`.
pub proof fn lemma_get_out_of_bounds(t: TableView, idx: u32)
    requires
        idx >= t.slots.len(),
    ensures
        t.get(idx) == Err::<WasmValue, WasmEdgeError>(WasmEdgeError::Table(TableError::OutOfBounds)),
{
}

/// Every slot of a freshly created table holds the null reference of the
/// element type.
pub proof fn lemma_fresh_slots_null(ty: TableTypeView, idx: u32)
    requires
        idx < ty.min,
    ensures
        TableView::fresh(ty).get(idx) == Ok::<WasmValue, WasmEdgeError>(WasmValue::null_of(ty.elem_ty)),
{
}

/// Growing keeps every existing slot and fills the added slots with the null
/// reference of the element type.
pub proof fn lemma_grown_slots(t: TableView, d: u32, idx: u32)
    requires
        t.grow(d) is Ok,
    ensures
        idx < t.slots.len() ==> t.grow(d)->Ok_0.get(idx) == t.get(idx),
        t.slots.len() <= idx < t.slots.len() + d ==> t.grow(d)->Ok_0.get(idx) == Ok::<
            WasmValue,
            WasmEdgeError,
        >(WasmValue::null_of(t.elem_ty)),
{
}

/// After writing a value of the element type to a slot below the capacity,
/// reading that slot returns the value written.
pub proof fn lemma_set_then_get(t: TableView, idx: u32, v: WasmValue)
    requires
        idx < t.slots.len(),
        v.spec_ty() == t.elem_ty.spec_val_type(),
    ensures
        t.set(idx, v) is Ok,
        t.set(idx, v)->Ok_0.get(idx) == Ok::<WasmValue, WasmEdgeError>(v),
{
}

/// The type obtained from a table is borrowed: destroying it releases
/// nothing, while destroying the owning table releases the table.
pub proof fn lemma_table_type_view_releases_nothing(t: TableView)
    requires
        t.ownership == Ownership::Owned,
    ensures
        !releases_on_destroy(t.descriptor().ownership),
        releases_on_destroy(t.ownership),
{
}

} // verus!
