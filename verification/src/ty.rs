use vstd::prelude::*;

verus! {

/// Type of the values. For example, these can be found on a stack and
/// in local vars.
#[derive(Copy, Clone, Debug, PartialEq, Eq, Structural)]
pub enum ValueTy {
    I32,
    I64,
    F32,
    F64,
}

/// The type of an expression or of a function result: either one value
/// type or no value at all.
#[derive(Copy, Clone, Debug, PartialEq, Eq, Structural)]
pub struct Ty(Option<ValueTy>);

impl View for Ty {
    type V = Option<ValueTy>;

    closed spec fn view(&self) -> Option<ValueTy> {
        self.0
    }
}

impl Ty {
    /// The type that carries no value.
    pub fn none() -> (ty: Ty)
        ensures
            ty@ == None::<ValueTy>,
    {
        Ty(None)
    }

    /// The type that carries one value of type `ty`.
    pub fn value(ty: ValueTy) -> (res: Ty)
        ensures
            res@ == Some(ty),
    {
        Ty(Some(ty))
    }

    /// The value type carried, if any; binaryen receives `none` for `None`.
    pub fn value_ty(&self) -> (res: Option<ValueTy>)
        ensures
            res == self@,
    {
        self.0
    }
}

} // verus!
