use vstd::prelude::*;

verus! {

/// The size of the buffer that a module is written into.
pub const MAX_CAPACITY: usize = 2097152;

/// A zeroed buffer of `MAX_CAPACITY` bytes for binaryen to write a module
/// into.
pub fn output_buffer() -> (buf: Vec<u8>)
    ensures
        buf@.len() == MAX_CAPACITY,
        forall|i: int| 0 <= i < buf@.len() ==> buf@[i] == 0u8,
{
    let buf: Vec<u8> = vec![0u8; MAX_CAPACITY];
    buf
}

/// The written module, given the buffer that binaryen wrote into and the
/// number of bytes it reports written. A count that fills the whole
/// buffer means that the module may not have fit: there is then no
/// result (`None`). Otherwise the result is the first `written` bytes.
pub fn finish_output(buf: Vec<u8>, written: usize) -> (res: Option<Vec<u8>>)
    ensures
        res is Some <==> written < buf@.len(),
        res matches Some(out) ==> out@ == buf@.take(written as int),
{
    if written >= buf.len() {
        None
    } else {
        let mut out = buf;
        out.truncate(written);
        Some(out)
    }
}

} // verus!
