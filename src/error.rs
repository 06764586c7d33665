use vstd::prelude::*;

verus! {

/// What went wrong when data was handed to the run-length coder.
#[derive(Copy, Clone, Debug, PartialEq, Eq, Structural)]
pub enum ErrorKind {
    /// The data's length is not a multiple of the unit width; the width in
    /// bytes (2 or 4) that it should have been a multiple of.
    MisalignedInput(usize),
    /// The run-length coder reported a failure.
    EncodingFailed,
}

/// The error returned when data cannot be compressed.
#[derive(Copy, Clone, Debug, PartialEq, Eq, Structural)]
pub struct CompressionError {
    pub kind: ErrorKind,
}

/// The text that describes an error of kind `kind`.
pub open spec fn description_of(kind: ErrorKind) -> &'static str {
    match kind {
        ErrorKind::MisalignedInput(w) => {
            if w == 2 {
                "Provided buffer is not an even multiple of 16 bits"
            } else if w == 4 {
                "Provided buffer is not an even multiple of 32 bits"
            } else {
                "Provided buffer is not an even multiple of the unit width"
            }
        },
        ErrorKind::EncodingFailed => "Unable to compress data!",
    }
}

impl CompressionError {
    /// An error of the given kind.
    pub fn new(kind: ErrorKind) -> (r: CompressionError)
        ensures
            r.kind == kind,
    {
        CompressionError { kind }
    }

    /// A human-readable description of the error.
    pub fn description(&self) -> (r: &'static str)
        ensures
            r@ == description_of(self.kind)@,
    {
        match self.kind {
            ErrorKind::MisalignedInput(w) => {
                if w == 2 {
                    "Provided buffer is not an even multiple of 16 bits"
                } else if w == 4 {
                    "Provided buffer is not an even multiple of 32 bits"
                } else {
                    "Provided buffer is not an even multiple of the unit width"
                }
            },
            ErrorKind::EncodingFailed => "Unable to compress data!",
        }
    }
}

} // verus!
