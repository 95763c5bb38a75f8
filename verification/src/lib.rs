//! The value-level core of a builder for WebAssembly modules on top of
//! binaryen: the value types, the operator sets, and the conversions of
//! argument and result values that the builder performs around each call
//! into binaryen's C API.

mod lowering;
mod ops;
mod output;
mod ty;

pub use lowering::{c_flag, c_index, int32_bits, int64_bits, signed_of_u32, signed_of_u64};
pub use ops::{BinaryOp, HostOp, UnaryOp};
pub use output::{finish_output, output_buffer, MAX_CAPACITY};
pub use ty::{Ty, ValueTy};
