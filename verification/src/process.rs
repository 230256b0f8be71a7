//! What the supervisor knows of a child process.

use vstd::prelude::*;

verus! {

/// What a query of the operating system says of a child.
#[derive(Clone, Copy, PartialEq, Eq, Structural, Debug)]
pub enum Liveness {
    /// The child has not exited.
    Running,
    /// The child has exited.
    Exited,
    /// The query failed.
    Unknown,
}

/// How the child's input and output are attached.
#[derive(Clone, Copy, PartialEq, Eq, Structural, Debug)]
pub enum SupervisionMode {
    /// Plain pipes for standard output and standard error.
    Pipes,
    /// A pseudo-terminal, whose master and writer the supervisor holds.
    Console,
}

/// The live child: its process identifier, the job that holds its
/// descendants where the platform has jobs and one was made, and how its
/// streams are attached.
#[derive(Clone, Copy, PartialEq, Eq, Structural, Debug)]
pub struct ProcessRecord {
    pub pid: u32,
    pub job: Option<usize>,
    pub mode: SupervisionMode,
}

/// How one of the standard streams of a process is attached.
#[derive(Clone, Copy, PartialEq, Eq, Structural, Debug)]
pub enum StreamMode {
    /// Nothing to read, or what is written is dropped.
    Null,
    /// A pipe whose other end the supervisor holds.
    Piped,
    /// The slave side of the pseudo-terminal.
    Console,
}

} // verus!
