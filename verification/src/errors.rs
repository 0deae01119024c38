//! Error kinds surfaced at the public boundary.

use vstd::prelude::*;

verus! {

/// A failure to decode an enum from its string or integer encoding.
/// Each variant carries the rejected text.
#[derive(Debug, Clone)]
pub enum ParseError {
    InvalidDirection { direction: String },
    InvalidProgramType { program: String },
    InvalidProbeType { probe: String },
    InvalidProceedOn { proceedon: String },
    InvalidBytecodeImagePullPolicy { pull_policy: String },
}

/// A failure of a daemon operation.
#[derive(Debug, Clone)]
pub enum BpfmanError {
    /// A catch-all internal failure, with a description.
    Error(String),
    /// The persistent store failed; carries the operation and the cause.
    DatabaseError(String, String),
    /// The declared entry point is not among the symbols the bytecode
    /// image exports.
    ProgramNotFoundInBytecode {
        bytecode_image: String,
        expected_prog_name: String,
        program_names: Vec<String>,
    },
    /// An interface name did not resolve to an index.
    InvalidInterface,
    /// A dispatcher chain would exceed its slot capacity.
    TooManyPrograms,
    /// No program with the given id exists.
    NotFound { id: u32 },
    /// The request collides with something already present, such as
    /// a chain member with the same id.
    Conflict,
    /// An enum encoding was rejected.
    Parse(ParseError),
    /// The kernel refused to load a program; carries the cause.
    KernelLoad { cause: String },
    /// The kernel refused to attach a program; carries the cause.
    KernelAttach { cause: String },
    /// Bytecode could not be fetched; carries the cause.
    BytecodeFetch { cause: String },
    /// An image signature was present but did not validate.
    SignatureInvalid,
}

} // verus!
