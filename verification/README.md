# binaryen

A builder for WebAssembly modules on top of binaryen's C API.

- `src/` is the verified library: the value types (`ValueTy`, `Ty`), the
  operator sets (`HostOp`, `UnaryOp`, `BinaryOp`), and the conversions that
  the builder applies to argument and result values around each call into
  binaryen: flags (`c_flag`), counts (`c_index`), the bits of integer
  literals (`int32_bits`, `int64_bits`) and the buffer that a module is
  written into (`output_buffer`, `finish_output`).
- `app/` is the builder itself (`Module`, `Expr`, `FnType`, `FnRef`,
  `Segment`, `Literal`): every call into binaryen is an `unsafe extern "C"`
  function of `binaryen-sys`, so those calls stand there and use the
  library for the values they hand over and take back.
- `tests/` exercises the library.
