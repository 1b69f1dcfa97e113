//! Shader build diagnostics: the buffer a driver writes its log into, the
//! text of that log, and the rule that a failed step is an error.
use vstd::prelude::*;

verus! {

/// The ASCII space.
pub const SPACE: u8 = 0x20;

/// A step of building a shader program.
#[derive(Clone, Copy, Debug, PartialEq, Eq, Structural)]
pub enum ShaderStep {
    Compile,
    Link,
}

/// A failed step, with the driver's diagnostic text.
#[derive(Debug)]
pub struct ShaderError {
    pub step: ShaderStep,
    pub log: Vec<u8>,
}

/// `text` is the log held in `buf`: the bytes before the first NUL, or all
/// of them when there is none.
pub open spec fn is_log_text(buf: Seq<u8>, text: Seq<u8>) -> bool {
    &&& text.len() <= buf.len()
    &&& text == buf.take(text.len() as int)
    &&& forall|k: int| 0 <= k < text.len() ==> #[trigger] text[k] != 0
    &&& text.len() < buf.len() ==> buf[text.len() as int] == 0
}

/// A buffer of `len` spaces for a driver to write a log of `len` bytes into.
pub fn whitespace_bytes(len: usize) -> (r: Vec<u8>)
    ensures
        r@.len() == len,
        forall|k: int| 0 <= k < len ==> #[trigger] r@[k] == SPACE,
{
    let mut r: Vec<u8> = Vec::new();
    let mut k: usize = 0;
    while k < len
        invariant
            k <= len,
            r@.len() == k,
            forall|j: int| 0 <= j < k ==> #[trigger] r@[j] == SPACE,
        decreases len - k,
    {
        r.push(SPACE);
        k = k + 1;
    }
    r
}

/// The log text in a buffer a driver wrote: the bytes before the first NUL.
pub fn log_text(buf: &Vec<u8>) -> (r: Vec<u8>)
    ensures
        is_log_text(buf@, r@),
{
    let mut r: Vec<u8> = Vec::new();
    let mut k: usize = 0;
    while k < buf.len() && buf[k] != 0
        invariant
            k <= buf@.len(),
            r@ == buf@.take(k as int),
            forall|j: int| 0 <= j < k ==> #[trigger] buf@[j] != 0,
        decreases buf@.len() - k,
    {
        r.push(buf[k]);
        assert(buf@.take(k as int + 1) =~= buf@.take(k as int).push(buf@[k as int]));
        k = k + 1;
    }
    r
}

/// The outcome of `step`, given the status the driver reported (0 for
/// failure) and the buffer holding its log. A failure is an error carrying
/// the full log text.
pub fn check_status(step: ShaderStep, status: i32, log: &Vec<u8>) -> (r: Result<(), ShaderError>)
    ensures
        r.is_ok() <==> status != 0,
        r matches Err(e) ==> e.step == step && is_log_text(log@, e.log@),
{
    if status != 0 {
        Ok(())
    } else {
        Err(ShaderError { step, log: log_text(log) })
    }
}

} // verus!
