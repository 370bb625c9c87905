use vstd::prelude::*;

verus! {

/// The operating-system family the shell runs on; it decides executable
/// names and how a process tree is stopped.
#[derive(PartialEq, Eq, Structural, Clone, Copy, Debug)]
pub enum Platform {
    Posix,
    Windows,
}

} // verus!
