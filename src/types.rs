//! Value types, reference types, mutability and runtime values.

use vstd::prelude::*;

verus! {

/// The kinds of values a WebAssembly global or table slot can hold.
#[derive(Debug, Clone, Copy, PartialEq, Eq, Structural)]
pub enum ValType {
    I32,
    I64,
    F32,
    F64,
    FuncRef,
    ExternRef,
}

/// The kinds of references a table can hold.
#[derive(Debug, Clone, Copy, PartialEq, Eq, Structural)]
pub enum RefType {
    FuncRef,
    ExternRef,
}

/// Whether a global may be written after creation.
#[derive(Debug, Clone, Copy, PartialEq, Eq, Structural)]
pub enum Mutability {
    Const,
    Var,
}

/// A runtime value.
///
/// Floating-point values are carried as their IEEE 754 bit patterns, so that
/// storing and reading a value hands back exactly the bits that went in.
/// A reference is either null or the index of the object it refers to.
#[derive(Debug, Clone, Copy, PartialEq, Eq, Structural)]
pub enum WasmValue {
    I32(i32),
    I64(i64),
    F32(u32),
    F64(u64),
    FuncRef(Option<u64>),
    ExternRef(Option<u64>),
}

impl RefType {
    /// The value type of references of this kind.
    pub open spec fn spec_val_type(self) -> ValType {
        match self {
            RefType::FuncRef => ValType::FuncRef,
            RefType::ExternRef => ValType::ExternRef,
        }
    }

    /// The value type of references of this kind.
    pub fn val_type(self) -> (r: ValType)
        ensures
            r == self.spec_val_type(),
    {
        match self {
            RefType::FuncRef => ValType::FuncRef,
            RefType::ExternRef => ValType::ExternRef,
        }
    }
}

impl WasmValue {
    /// The value type that a value carries with it.
    pub open spec fn spec_ty(self) -> ValType {
        match self {
            WasmValue::I32(_) => ValType::I32,
            WasmValue::I64(_) => ValType::I64,
            WasmValue::F32(_) => ValType::F32,
            WasmValue::F64(_) => ValType::F64,
            WasmValue::FuncRef(_) => ValType::FuncRef,
            WasmValue::ExternRef(_) => ValType::ExternRef,
        }
    }

    /// The null reference of the given kind.
    pub open spec fn null_of(ty: RefType) -> WasmValue {
        match ty {
            RefType::FuncRef => WasmValue::FuncRef(None),
            RefType::ExternRef => WasmValue::ExternRef(None),
        }
    }

    /// Returns the value type of this value.
    pub fn ty(&self) -> (r: ValType)
        ensures
            r == self.spec_ty(),
    {
        match self {
            WasmValue::I32(_) => ValType::I32,
            WasmValue::I64(_) => ValType::I64,
            WasmValue::F32(_) => ValType::F32,
            WasmValue::F64(_) => ValType::F64,
            WasmValue::FuncRef(_) => ValType::FuncRef,
            WasmValue::ExternRef(_) => ValType::ExternRef,
        }
    }

    /// Returns the null reference of the given kind.
    pub fn from_null_ref(ty: RefType) -> (r: WasmValue)
        ensures
            r == WasmValue::null_of(ty),
    {
        match ty {
            RefType::FuncRef => WasmValue::FuncRef(None),
            RefType::ExternRef => WasmValue::ExternRef(None),
        }
    }

    /// Checks whether this value is a null reference.
    pub fn is_null_ref(&self) -> (r: bool)
        ensures
            r == (*self == WasmValue::FuncRef(None) || *self == WasmValue::ExternRef(None)),
    {
        match self {
            WasmValue::FuncRef(None) | WasmValue::ExternRef(None) => true,
            _ => false,
        }
    }

    /// Returns the index of the function this value refers to, if it is a
    /// non-null function reference.
    pub fn func_ref(&self) -> (r: Option<u64>)
        ensures
            r == (match *self {
                WasmValue::FuncRef(f) => f,
                _ => None,
            }),
    {
        match self {
            WasmValue::FuncRef(f) => *f,
            _ => None,
        }
    }
}

} // verus!
