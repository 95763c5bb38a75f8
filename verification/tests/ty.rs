use binaryen::{BinaryOp, HostOp, Ty, UnaryOp, ValueTy};

#[test]
fn none_carries_no_value() {
    assert_eq!(Ty::none().value_ty(), None);
}

#[test]
fn value_carries_its_value_type() {
    assert_eq!(Ty::value(ValueTy::I32).value_ty(), Some(ValueTy::I32));
    assert_eq!(Ty::value(ValueTy::I64).value_ty(), Some(ValueTy::I64));
    assert_eq!(Ty::value(ValueTy::F32).value_ty(), Some(ValueTy::F32));
    assert_eq!(Ty::value(ValueTy::F64).value_ty(), Some(ValueTy::F64));
}

#[test]
fn value_types_are_distinct() {
    assert_ne!(Ty::value(ValueTy::I32), Ty::value(ValueTy::I64));
    assert_ne!(Ty::value(ValueTy::F32), Ty::none());
    assert_eq!(Ty::value(ValueTy::F64), Ty::value(ValueTy::F64));
}

#[test]
fn operators_compare_by_variant() {
    assert_eq!(HostOp::GrowMemory, HostOp::GrowMemory);
    assert_ne!(HostOp::PageSize, HostOp::HasFeature);
    assert_eq!(UnaryOp::ClzI32, UnaryOp::ClzI32);
    assert_ne!(UnaryOp::ReinterpretI32, UnaryOp::ReinterpretI64);
    assert_eq!(BinaryOp::AddI32, BinaryOp::AddI32);
    assert_ne!(BinaryOp::GeF32, BinaryOp::GeF64);
}
