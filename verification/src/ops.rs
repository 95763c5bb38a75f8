use vstd::prelude::*;

verus! {

/// The operators of binaryen's `Host` expression.
#[derive(Debug, Copy, Clone, PartialEq, Eq, Structural)]
pub enum HostOp {
    PageSize,
    CurrentMemory,
    GrowMemory,
    HasFeature,
}

/// The operators of binaryen's `Unary` expression.
#[derive(Debug, Copy, Clone, PartialEq, Eq, Structural)]
pub enum UnaryOp {
    ClzI32,
    CtzI32,
    PopcntI32,
    NegF32,
    AbsF32,
    CeilF32,
    FloorF32,
    TruncF32,
    NearestF32,
    SqrtF32,
    EqZI32,
    ClzI64,
    CtzI64,
    PopcntI64,
    NegF64,
    AbsF64,
    CeilF64,
    FloorF64,
    TruncF64,
    NearestF64,
    SqrtF64,
    EqZI64,
    ExtendSI32,
    ExtendUI32,
    WrapI64,
    TruncSF32ToI32,
    TruncSF32ToI64,
    TruncUF32ToI32,
    TruncUF32ToI64,
    TruncSF64ToI32,
    TruncSF64ToI64,
    TruncUF64ToI32,
    TruncUF64ToI64,
    ReinterpretF32,
    ReinterpretF64,
    ConvertSI32ToF32,
    ConvertSI32ToF64,
    ConvertUI32ToF32,
    ConvertUI32ToF64,
    ConvertSI64ToF32,
    ConvertSI64ToF64,
    ConvertUI64ToF32,
    ConvertUI64ToF64,
    PromoteF32,
    DemoteF64,
    ReinterpretI32,
    ReinterpretI64,
}

/// The operators of binaryen's `Binary` expression.
#[derive(Debug, Copy, Clone, PartialEq, Eq, Structural)]
pub enum BinaryOp {
    AddI32,
    SubI32,
    MulI32,
    DivSI32,
    DivUI32,
    RemSI32,
    RemUI32,
    AndI32,
    OrI32,
    XorI32,
    ShlI32,
    ShrUI32,
    ShrSI32,
    RotLI32,
    RotRI32,
    EqI32,
    NeI32,
    LtSI32,
    LtUI32,
    LeSI32,
    LeUI32,
    GtSI32,
    GtUI32,
    GeSI32,
    GeUI32,
    AddI64,
    SubI64,
    MulI64,
    DivSI64,
    DivUI64,
    RemSI64,
    RemUI64,
    AndI64,
    OrI64,
    XorI64,
    ShlI64,
    ShrUI64,
    ShrSI64,
    RotLI64,
    RotRI64,
    EqI64,
    NeI64,
    LtSI64,
    LtUI64,
    LeSI64,
    LeUI64,
    GtSI64,
    GtUI64,
    GeSI64,
    GeUI64,
    AddF32,
    SubF32,
    MulF32,
    DivF32,
    CopySignF32,
    MinF32,
    MaxF32,
    EqF32,
    NeF32,
    LtF32,
    LeF32,
    GtF32,
    GeF32,
    AddF64,
    SubF64,
    MulF64,
    DivF64,
    CopySignF64,
    MinF64,
    MaxF64,
    EqF64,
    NeF64,
    LtF64,
    LeF64,
    GtF64,
    GeF64,
}

} // verus!
