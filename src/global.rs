//! Globals: single typed cells, and their types.

use vstd::prelude::*;

use crate::error::{GlobalError, WasmEdgeError, WasmEdgeResult};
use crate::ownership::{releases_on_destroy, Ownership};
use crate::types::{Mutability, ValType, WasmValue};

verus! {

/// The abstract content of a [GlobalType].
pub struct GlobalTypeView {
    pub value_type: ValType,
    pub mutability: Mutability,
    pub ownership: Ownership,
}

/// The abstract content of a [Global]: its type and its current value.
pub struct GlobalView {
    pub value_type: ValType,
    pub mutability: Mutability,
    pub value: WasmValue,
    pub ownership: Ownership,
}

impl GlobalView {
    /// The stored value has the global's value type.
    pub open spec fn wf(self) -> bool {
        self.value.spec_ty() == self.value_type
    }

    /// A global freshly created from a type and an initial value, or the
    /// error when the value does not have the type's value type.
    pub open spec fn create(ty: GlobalTypeView, v: WasmValue) -> WasmEdgeResult<GlobalView> {
        if v.spec_ty() != ty.value_type {
            Err(WasmEdgeError::Global(GlobalError::Create))
        } else {
            Ok(
                GlobalView {
                    value_type: ty.value_type,
                    mutability: ty.mutability,
                    value: v,
                    ownership: Ownership::Owned,
                },
            )
        }
    }

    /// The type of the global, as seen through the global: a borrowed view.
    pub open spec fn descriptor(self) -> GlobalTypeView {
        GlobalTypeView {
            value_type: self.value_type,
            mutability: self.mutability,
            ownership: Ownership::Borrowed,
        }
    }

    /// Writing `v`: the global afterwards, or the error.
    ///
    /// Mutability is checked before the value's type.
    pub open spec fn set(self, v: WasmValue) -> WasmEdgeResult<GlobalView> {
        if self.mutability == Mutability::Const {
            Err(WasmEdgeError::Global(GlobalError::ModifyConst))
        } else if v.spec_ty() != self.value_type {
            Err(WasmEdgeError::Global(GlobalError::UnmatchedValType))
        } else {
            Ok(GlobalView { value: v, ..self })
        }
    }
}

/// The type of a global: the type of the value it holds and whether it may
/// be written.
#[derive(Debug)]
pub struct GlobalType {
    value_type: ValType,
    mutability: Mutability,
    ownership: Ownership,
}

impl View for GlobalType {
    type V = GlobalTypeView;

    closed spec fn view(&self) -> GlobalTypeView {
        GlobalTypeView {
            value_type: self.value_type,
            mutability: self.mutability,
            ownership: self.ownership,
        }
    }
}

impl GlobalType {
    /// Creates a global type with the given value type and mutability.
    pub fn create(val_ty: ValType, mutable: Mutability) -> (r: WasmEdgeResult<GlobalType>)
        ensures
            match r {
                Ok(t) => t@ == (GlobalTypeView {
                    value_type: val_ty,
                    mutability: mutable,
                    ownership: Ownership::Owned,
                }),
                Err(_) => false,
            },
    {
        Ok(GlobalType { value_type: val_ty, mutability: mutable, ownership: Ownership::Owned })
    }

    /// Returns the value type.
    pub fn value_type(&self) -> (r: ValType)
        ensures
            r == self@.value_type,
    {
        self.value_type
    }

    /// Returns the mutability.
    pub fn mutability(&self) -> (r: Mutability)
        ensures
            r == self@.mutability,
    {
        self.mutability
    }

    /// Returns whether this type owns its resource.
    pub fn ownership(&self) -> (r: Ownership)
        ensures
            r == self@.ownership,
    {
        self.ownership
    }

    /// Destroys the type; returns whether the resource was released.
    pub fn destroy(self) -> (released: bool)
        ensures
            released == releases_on_destroy(self@.ownership),
    {
        self.ownership == Ownership::Owned
    }
}

/// A global: a single cell holding a value of its type's value type.
#[derive(Debug)]
pub struct Global {
    value_type: ValType,
    mutability: Mutability,
    value: WasmValue,
    ownership: Ownership,
}

impl View for Global {
    type V = GlobalView;

    closed spec fn view(&self) -> GlobalView {
        GlobalView {
            value_type: self.value_type,
            mutability: self.mutability,
            value: self.value,
            ownership: self.ownership,
        }
    }
}

impl Global {
    #[verifier::type_invariant]
    closed spec fn inv(&self) -> bool {
        self@.wf()
    }

    /// Creates a global of the given type holding `val`.
    ///
    /// Fails with `Create` when `val` does not have the type's value type.
    pub fn create(ty: &GlobalType, val: WasmValue) -> (r: WasmEdgeResult<Global>)
        ensures
            match (GlobalView::create(ty@, val), r) {
                (Ok(g), Ok(h)) => h@ == g,
                (Err(e), Err(f)) => f == e,
                _ => false,
            },
    {
        if val.ty() != ty.value_type {
            return Err(WasmEdgeError::Global(GlobalError::Create));
        }
        Ok(
            Global {
                value_type: ty.value_type,
                mutability: ty.mutability,
                value: val,
                ownership: Ownership::Owned,
            },
        )
    }

    /// Returns the type of the global, as a borrowed view.
    pub fn ty(&self) -> (r: WasmEdgeResult<GlobalType>)
        ensures
            match r {
                Ok(t) => t@ == self@.descriptor(),
                Err(_) => false,
            },
    {
        Ok(GlobalType { value_type: self.value_type, mutability: self.mutability, ownership: Ownership::Borrowed })
    }

    /// Returns the current value.
    pub fn get_value(&self) -> (r: WasmValue)
        ensures
            r == self@.value,
            r.spec_ty() == self@.value_type,
    {
        proof {
            use_type_invariant(self);
        }
        self.value
    }

    /// Writes `val` to the global.
    ///
    /// Fails with `ModifyConst` when the global is `Const`, whatever the type
    /// of `val`; otherwise with `UnmatchedValType` when `val` does not have
    /// the global's value type. On failure the global is unchanged.
    pub fn set_value(&mut self, val: WasmValue) -> (r: WasmEdgeResult<()>)
        ensures
            match old(self)@.set(val) {
                Ok(g) => r == Ok::<(), WasmEdgeError>(()) && final(self)@ == g,
                Err(e) => r == Err::<(), WasmEdgeError>(e) && final(self)@ == old(self)@,
            },
    {
        let ty = self.ty()?;
        if ty.mutability() == Mutability::Const {
            return Err(WasmEdgeError::Global(GlobalError::ModifyConst));
        }
        if ty.value_type() != val.ty() {
            return Err(WasmEdgeError::Global(GlobalError::UnmatchedValType));
        }
        self.value = val;
        Ok(())
    }

    /// Returns whether this global owns its resource.
    pub fn ownership(&self) -> (r: Ownership)
        ensures
            r == self@.ownership,
    {
        self.ownership
    }

    /// Destroys the global; returns whether the resource was released.
    pub fn destroy(self) -> (released: bool)
        ensures
            released == releases_on_destroy(self@.ownership),
    {
        self.ownership == Ownership::Owned
    }
}

/// A mutable global created with a value of its type holds that value, and
/// after a write of another value of its type it holds the value written.
pub proof fn lemma_var_global_round_trip(ty: GlobalTypeView, v: WasmValue, v2: WasmValue)
    requires
        ty.mutability == Mutability::Var,
        v.spec_ty() == ty.value_type,
        v2.spec_ty() == ty.value_type,
    ensures
        GlobalView::create(ty, v) is Ok,
        GlobalView::create(ty, v)->Ok_0.value == v,
        GlobalView::create(ty, v)->Ok_0.set(v2) is Ok,
        GlobalView::create(ty, v)->Ok_0.set(v2)->Ok_0.value == v2,
{
}

/// Every write to a `Const` global fails with `ModifyConst`, whatever the
/// value written, including a value of another type.
pub proof fn lemma_const_global_rejects_writes(g: GlobalView, v: WasmValue)
    requires
        g.mutability == Mutability::Const,
    ensures
        g.set(v) == Err::<GlobalView, WasmEdgeError>(WasmEdgeError::Global(GlobalError::ModifyConst)),
{
}

/// A write to a `Var` global of a value whose type differs from the global's
/// value type fails with `UnmatchedValType`.
pub proof fn lemma_var_global_rejects_other_types(g: GlobalView, v: WasmValue)
    requires
        g.mutability == Mutability::Var,
        v.spec_ty() != g.value_type,
    ensures
        g.set(v) == Err::<GlobalView, WasmEdgeError>(
            WasmEdgeError::Global(GlobalError::UnmatchedValType),
        ),
{
}

/// The type obtained from a global is borrowed: destroying it releases
/// nothing, while destroying the owning global releases the global.
pub proof fn lemma_global_type_view_releases_nothing(g: GlobalView)
    requires
        g.ownership == Ownership::Owned,
    ensures
        !releases_on_destroy(g.descriptor().ownership),
        releases_on_destroy(g.ownership),
{
}

} // verus!
