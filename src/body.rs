use vstd::prelude::*;

use crate::error::{CompressionError, ErrorKind};
use crate::size::Size;

verus! {

/// What the length check makes of `len` bytes of data at width `size`: the
/// number of units to hand to the run-length coder, or why the data cannot be
/// handed over. The coder counts units in a C `int`, so a count above
/// `i32::MAX` is a failure of the coder.
pub open spec fn unit_plan(len: nat, size: Size) -> Result<int, ErrorKind> {
    if len % size.spec_unit_bytes() != 0 {
        Err(ErrorKind::MisalignedInput(size.spec_unit_bytes() as usize))
    } else if len / size.spec_unit_bytes() > i32::MAX as nat {
        Err(ErrorKind::EncodingFailed)
    } else {
        Ok((len / size.spec_unit_bytes()) as int)
    }
}

/// Checks that `data` splits into whole units of `size` and returns the
/// number of units, which is what the run-length coder is given.
pub fn units_to_compress(data: &[u8], size: Size) -> (r: Result<i32, CompressionError>)
    ensures
        match unit_plan(data@.len(), size) {
            Ok(n) => r == Ok::<i32, CompressionError>(n as i32),
            Err(k) => r == Err::<i32, CompressionError>(CompressionError { kind: k }),
        },
        data@.len() % size.spec_unit_bytes() != 0 ==> r == Err::<i32, CompressionError>(
            CompressionError { kind: ErrorKind::MisalignedInput(size.spec_unit_bytes() as usize) },
        ),
        size == Size::Byte ==> !(r matches Err(e) && e.kind is MisalignedInput),
{
    let width = size.unit_bytes();
    if data.len() % width != 0 {
        return Err(CompressionError::new(ErrorKind::MisalignedInput(width)));
    }
    let units = data.len() / width;
    if units > i32::MAX as usize {
        return Err(CompressionError::new(ErrorKind::EncodingFailed));
    }
    Ok(units as i32)
}

/// What the run-length coder's outcome makes of the call: its output when it
/// reported success (status 0), a failure otherwise.
pub fn compression_result(status: i32, out: Vec<u8>) -> (r: Result<Vec<u8>, CompressionError>)
    ensures
        status == 0 ==> r == Ok::<Vec<u8>, CompressionError>(out),
        status != 0 ==> r == Err::<Vec<u8>, CompressionError>(
            CompressionError { kind: ErrorKind::EncodingFailed },
        ),
{
    if status != 0 {
        return Err(CompressionError::new(ErrorKind::EncodingFailed));
    }
    Ok(out)
}

} // verus!
