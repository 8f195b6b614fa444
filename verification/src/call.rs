//! Interpretation of the raw value returned by a kernel transition.
//!
//! On x86-64 the `syscall` instruction takes the call number in `rax` and the
//! arguments, in order, in `rdi`, `rsi`, `rdx`, `r10`, `r8` and `r9`. The
//! kernel answers in `rax`: a value that is not negative is the payload of a
//! successful call (a descriptor, a byte count), a negative value is the
//! negated error code of a failed one.

use vstd::prelude::*;

verus! {

/// Splits the value found in `rax` after a kernel transition into the
/// payload of a successful call or the error code of a failed one.
///
/// Every value of `isize` is accepted. The magnitude of the smallest one
/// does not fit in `isize`, but it does fit in `usize`, and that is what is
/// returned for it.
pub fn convert_raw_return_code_from_rax(raw_code: isize) -> (result: Result<usize, usize>)
    ensures
        result is Ok <==> raw_code >= 0,
        result matches Ok(payload) ==> payload as int == raw_code as int,
        result matches Err(code) ==> code as int == -(raw_code as int),
{
    if raw_code < 0 {
        // `-raw_code` would overflow for `isize::MIN`; `-(raw_code + 1)` never does.
        let below: isize = -(raw_code + 1);
        Err(below as usize + 1)
    } else {
        Ok(raw_code as usize)
    }
}

} // verus!
