use wasmedge_sys::error::{TableError, WasmEdgeError};
use wasmedge_sys::ownership::Ownership;
use wasmedge_sys::table::{Table, TableType};
use wasmedge_sys::types::{RefType, ValType, WasmValue};

#[test]
fn test_table_type() {
    let result = TableType::create(RefType::FuncRef, 10..=20);
    assert!(result.is_ok());
    let ty = result.unwrap();
    assert_eq!(ty.ownership(), Ownership::Owned);

    assert_eq!(ty.elem_ty(), RefType::FuncRef);
    assert_eq!(ty.limit(), 10..=20);
}

#[test]
fn test_table() {
    let result = TableType::create(RefType::FuncRef, 10..=20);
    assert!(result.is_ok());
    let ty = result.unwrap();

    let result = Table::create(&ty);
    assert!(result.is_ok());
    let mut table = result.unwrap();

    assert_eq!(table.capacity(), 10);

    let result = table.ty();
    assert!(result.is_ok());
    let ty = result.unwrap();
    assert_eq!(ty.ownership(), Ownership::Borrowed);

    assert_eq!(ty.limit(), 10..=20);
    assert_eq!(ty.elem_ty(), RefType::FuncRef);

    let result = table.grow(5);
    assert!(result.is_ok());
    assert_eq!(table.capacity(), 15);
}

#[test]
fn test_table_data() {
    let result = TableType::create(RefType::FuncRef, 10..=20);
    assert!(result.is_ok());
    let ty = result.unwrap();

    let result = Table::create(&ty);
    assert!(result.is_ok());
    let mut table = result.unwrap();

    assert_eq!(table.capacity(), 10);

    let result = table.get_data(9);
    assert!(result.is_ok());
    let value = result.unwrap();
    assert!(value.is_null_ref());
    assert_eq!(value.ty(), ValType::FuncRef);

    let result = table.set_data(WasmValue::FuncRef(Some(0)), 3);
    assert!(result.is_ok());
    let result = table.get_data(3);
    assert!(result.is_ok());
    let value = result.unwrap();
    let result = value.func_ref();
    assert!(result.is_some());
    assert_eq!(result.unwrap(), 0);
}

#[test]
fn table_type_rejects_inverted_limit() {
    let result = TableType::create(RefType::ExternRef, 20..=10);
    assert!(matches!(result, Err(WasmEdgeError::TableTypeCreate)));
}

#[test]
fn table_type_accepts_full_u32_range() {
    let ty = TableType::create(RefType::ExternRef, 0..=u32::MAX).unwrap();
    assert_eq!(ty.limit(), 0..=u32::MAX);
    assert_eq!(ty.elem_ty(), RefType::ExternRef);
}

#[test]
fn fresh_table_capacity_is_min() {
    let ty = TableType::create(RefType::ExternRef, 0..=3).unwrap();
    let table = Table::create(&ty).unwrap();
    assert_eq!(table.capacity(), 0);
    assert_eq!(
        table.get_data(0),
        Err(WasmEdgeError::Table(TableError::OutOfBounds))
    );

    let ty = TableType::create(RefType::ExternRef, 7..=7).unwrap();
    let table = Table::create(&ty).unwrap();
    assert_eq!(table.capacity(), 7);
}

#[test]
fn table_grow_beyond_limit_fails() {
    let ty = TableType::create(RefType::FuncRef, 10..=20).unwrap();
    let mut table = Table::create(&ty).unwrap();
    assert_eq!(table.capacity(), 10);
    assert_eq!(table.grow(5), Ok(()));
    assert_eq!(table.capacity(), 15);
    assert_eq!(
        table.grow(10),
        Err(WasmEdgeError::Table(TableError::LimitExceeded))
    );
    assert_eq!(table.capacity(), 15);
    assert_eq!(table.grow(5), Ok(()));
    assert_eq!(table.capacity(), 20);
    assert_eq!(
        table.grow(1),
        Err(WasmEdgeError::Table(TableError::LimitExceeded))
    );
    assert_eq!(table.grow(0), Ok(()));
    assert_eq!(table.capacity(), 20);
}

#[test]
fn table_grow_near_u32_max_does_not_overflow() {
    let ty = TableType::create(RefType::FuncRef, 1..=u32::MAX).unwrap();
    let mut table = Table::create(&ty).unwrap();
    assert_eq!(
        table.grow(u32::MAX),
        Err(WasmEdgeError::Table(TableError::LimitExceeded))
    );
    assert_eq!(table.capacity(), 1);
}

#[test]
fn get_data_out_of_bounds() {
    let ty = TableType::create(RefType::FuncRef, 10..=20).unwrap();
    let table = Table::create(&ty).unwrap();
    let out_of_bounds = Err(WasmEdgeError::Table(TableError::OutOfBounds));
    assert_eq!(table.get_data(10), out_of_bounds);
    assert_eq!(table.get_data(u32::MAX), out_of_bounds);
    assert_eq!(table.get_data(0), Ok(WasmValue::FuncRef(None)));
}

#[test]
fn grown_slots_are_null_and_old_slots_kept() {
    let ty = TableType::create(RefType::ExternRef, 2..=6).unwrap();
    let mut table = Table::create(&ty).unwrap();
    assert_eq!(table.set_data(WasmValue::ExternRef(Some(11)), 1), Ok(()));
    assert_eq!(table.grow(3), Ok(()));
    assert_eq!(table.capacity(), 5);
    assert_eq!(table.get_data(0), Ok(WasmValue::ExternRef(None)));
    assert_eq!(table.get_data(1), Ok(WasmValue::ExternRef(Some(11))));
    for idx in 2..5 {
        assert_eq!(table.get_data(idx), Ok(WasmValue::ExternRef(None)));
    }
    assert_eq!(
        table.get_data(5),
        Err(WasmEdgeError::Table(TableError::OutOfBounds))
    );
}

#[test]
fn set_then_get_round_trips() {
    let ty = TableType::create(RefType::FuncRef, 4..=4).unwrap();
    let mut table = Table::create(&ty).unwrap();
    for idx in 0..4u32 {
        let v = WasmValue::FuncRef(Some(100 + idx as u64));
        assert_eq!(table.set_data(v, idx), Ok(()));
        assert_eq!(table.get_data(idx), Ok(v));
    }
    assert_eq!(table.set_data(WasmValue::FuncRef(None), 2), Ok(()));
    assert_eq!(table.get_data(2), Ok(WasmValue::FuncRef(None)));
    assert_eq!(table.get_data(3), Ok(WasmValue::FuncRef(Some(103))));
}

#[test]
fn set_data_errors() {
    let ty = TableType::create(RefType::FuncRef, 3..=5).unwrap();
    let mut table = Table::create(&ty).unwrap();
    assert_eq!(
        table.set_data(WasmValue::FuncRef(Some(1)), 3),
        Err(WasmEdgeError::Table(TableError::OutOfBounds))
    );
    assert_eq!(
        table.set_data(WasmValue::ExternRef(Some(1)), 0),
        Err(WasmEdgeError::Table(TableError::RefTypeMismatch))
    );
    assert_eq!(
        table.set_data(WasmValue::I32(1), 0),
        Err(WasmEdgeError::Table(TableError::RefTypeMismatch))
    );
    // a mismatched kind is reported before an index out of bounds
    assert_eq!(
        table.set_data(WasmValue::ExternRef(None), 9),
        Err(WasmEdgeError::Table(TableError::RefTypeMismatch))
    );
    for idx in 0..3 {
        assert_eq!(table.get_data(idx), Ok(WasmValue::FuncRef(None)));
    }
}

#[test]
fn destroying_borrowed_table_type_releases_nothing() {
    let ty = TableType::create(RefType::FuncRef, 1..=2).unwrap();
    let mut table = Table::create(&ty).unwrap();
    let view = table.ty().unwrap();
    assert_eq!(view.ownership(), Ownership::Borrowed);
    assert!(!view.destroy());
    assert_eq!(table.grow(1), Ok(()));
    assert_eq!(table.capacity(), 2);
    assert_eq!(table.ownership(), Ownership::Owned);
    assert!(table.destroy());
    assert!(ty.destroy());
}

#[test]
fn null_refs_by_kind() {
    assert_eq!(WasmValue::from_null_ref(RefType::FuncRef), WasmValue::FuncRef(None));
    assert_eq!(WasmValue::from_null_ref(RefType::ExternRef), WasmValue::ExternRef(None));
    assert!(WasmValue::ExternRef(None).is_null_ref());
    assert!(!WasmValue::ExternRef(Some(0)).is_null_ref());
    assert!(!WasmValue::I32(0).is_null_ref());
    assert_eq!(WasmValue::ExternRef(Some(3)).func_ref(), None);
    assert_eq!(RefType::ExternRef.val_type(), ValType::ExternRef);
    assert_eq!(WasmValue::F64(0).ty(), ValType::F64);
}
