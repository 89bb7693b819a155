//! The operating system's handles, held as plain values.

use vstd::prelude::*;

verus! {

/// An opaque handle of the operating system: the value of the pointer that
/// names a process, a thread or a tracking group.
#[derive(Clone, Copy, Debug, PartialEq, Eq, Structural)]
pub struct Handle {
    pub raw: usize,
}

/// A child process as the system returns it from a suspended launch: the
/// handle of the process and the handle of its first thread, which has not
/// run yet.
#[derive(Clone, Copy, Debug, PartialEq, Eq, Structural)]
pub struct ChildProcess {
    pub process: Handle,
    pub thread: Handle,
}

} // verus!
