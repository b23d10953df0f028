//! The definition and implementations of `UnwindLogger`.

use std::fmt::Debug;
use std::io::Write;
use vstd::prelude::*;

verus! {

/// Something that a walker can hold to write its diagnostics to.
///
/// A logger is expected to implement `std::io::Write` as well. That bound is
/// not written here: a walker only keeps its logger and hands it back, and
/// verified code could not call through the bound.
pub trait UnwindLogger: Debug + Sized {

}

/// A logger that accepts everything and keeps nothing.
#[derive(Debug)]
pub struct IgnoreLogs;

impl UnwindLogger for IgnoreLogs {

}

impl Write for IgnoreLogs {
    /// Accepts the whole buffer.
    fn write(&mut self, buf: &[u8]) -> (written: Result<usize, std::io::Error>)
        ensures
            written matches Ok(n) && n == buf@.len(),
    {
        Ok(buf.len())
    }

    /// There is nothing to flush.
    fn flush(&mut self) -> (flushed: Result<(), std::io::Error>)
        ensures
            flushed is Ok,
    {
        Ok(())
    }
}

} // verus!
