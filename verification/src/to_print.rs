//! Plain writers to the standard streams, for output that should go where
//! a view's progress output goes without being coordinated by a view.

use vstd::prelude::*;
use vstd::string::StringSliceAdditionalSpecFns;

use crate::inner::{emit_stderr, emit_stdout};

verus! {

/// Routes text to stdout, flushing after every write.
#[non_exhaustive]
pub struct WriteToPrint {}

impl WriteToPrint {
    /// A writer to stdout.
    pub fn new() -> WriteToPrint {
        WriteToPrint {  }
    }

    /// Write the text to stdout. Returns the number of bytes written.
    pub fn write(&mut self, text: &str) -> (n: usize)
        ensures
            n == text.spec_bytes().len(),
    {
        emit_stdout(text);
        text.as_bytes().len()
    }

    /// Writes are flushed eagerly, so this has nothing left to do.
    pub fn flush(&mut self) {
    }
}

/// Routes text to stderr, flushing after every write.
#[non_exhaustive]
pub struct WriteToStderr {}

impl WriteToStderr {
    /// A writer to stderr.
    pub fn new() -> WriteToStderr {
        WriteToStderr {  }
    }

    /// Write the text to stderr. Returns the number of bytes written.
    pub fn write(&mut self, text: &str) -> (n: usize)
        ensures
            n == text.spec_bytes().len(),
    {
        emit_stderr(text);
        text.as_bytes().len()
    }

    /// Writes are flushed eagerly, so this has nothing left to do.
    pub fn flush(&mut self) {
    }
}

} // verus!
