//! The data model: commands, the closed set of response statuses, and the
//! response a finished job carries. Paths, versions, messages and artifact
//! contents are byte strings, so every field is a plain value the contracts
//! can speak about directly.

use vstd::prelude::*;

verus! {

/// The closed set of outcomes a compile job can report. Exhaustive matching
/// replaces any free-form status text, so no outcome is a silent default.
#[derive(Clone, Copy, Debug, PartialEq, Eq, Structural)]
pub enum Status {
    /// The toolchain exited with code zero.
    Success,
    /// The toolchain ran and exited with a non-zero code.
    CompilationFailed,
    /// The submitted path could not be read as a path at all.
    FileNotFound,
    /// The submitted path does not carry the expected source extension.
    FileExtensionNotSupported,
    /// No toolchain context exists for the requested version.
    ToolchainNotFound,
    /// The toolchain could not be started at all.
    SpawnFailed,
    /// The toolchain ended without an exit code.
    UnknownError,
}

/// One unit of work: compile the source file at `path` (a caller-relative
/// byte path) with the toolchain of the given `version`. Immutable once
/// submitted; it carries everything a worker needs.
#[derive(Debug)]
pub enum Command {
    SierraCompile { version: Vec<u8>, path: Vec<u8> },
}

/// The terminal, immutable outcome of one compile job: a status from the
/// closed set, the produced artifact (empty when none was produced), the
/// diagnostic text with server-internal paths rewritten to caller-relative
/// ones, and the toolchain version the job was submitted with.
#[derive(Debug, PartialEq, Eq)]
pub struct CompileResponse {
    pub status: Status,
    pub file_content: Vec<u8>,
    pub message: Vec<u8>,
    pub cairo_version: Vec<u8>,
}

} // verus!
