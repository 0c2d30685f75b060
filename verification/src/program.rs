//! The program unit: one linked GPU program.
//!
//! Attaching and linking are the driver's work; the shell runs them and
//! reports the outcome.  Classifying that outcome is verified here, with
//! the same three-way split as shader compilation.  A `Program` value is
//! only ever built from a successful link, so an unlinked program is
//! never exposed; and the type is deliberately not `Clone`, so exactly
//! one owner can release the handle.

use vstd::prelude::*;

use crate::commands::GpuCmd;
use crate::text::{bytes_to_string, utf8_decode};

verus! {

/// Why a program failed to link.
#[derive(Debug)]
pub enum ProgramError {
    /// The driver rejected the link and gave this diagnostic text.
    LinkError(String),
    /// The driver rejected the link but supplied no diagnostic.
    EmptyLog,
    /// The driver's log bytes were not valid text.
    ErrorHandlerError(&'static str),
}

/// One linked program: the driver's handle for it.
pub struct Program {
    pub handle: u32,
}

impl Program {
    /// Wrap a handle the driver reported as successfully linked.
    pub fn new(handle: u32) -> (r: Self)
        ensures
            r.handle == handle,
    {
        Program { handle }
    }

    /// The driver's handle.
    pub fn handle(&self) -> (r: u32)
        ensures
            r == self.handle,
    {
        self.handle
    }

    /// The command that makes this program the driver's current one.
    pub fn use_program(&self) -> (r: GpuCmd)
        ensures
            r == (GpuCmd::UseProgram { program: self.handle }),
    {
        GpuCmd::UseProgram { program: self.handle }
    }

    /// Classify a link outcome: the status the driver reported and its
    /// info log.  Success yields the program; failure yields the
    /// diagnostic text when the log decodes, `EmptyLog` when the driver
    /// gave none, and `ErrorHandlerError` when the log bytes are not
    /// valid text.
    pub fn try_from_outcome(handle: u32, success: bool, log: Vec<u8>) -> (r: Result<
        Program,
        ProgramError,
    >)
        ensures
            success ==> (r matches Ok(p) && p.handle == handle),
            !success && log@.len() == 0 ==> (r matches Err(e) && e is EmptyLog),
            !success && log@.len() > 0 && utf8_decode(log@) is Some ==> (r matches Err(
                ProgramError::LinkError(s),
            ) && Some(s@) == utf8_decode(log@) && s@.len() > 0),
            !success && log@.len() > 0 && utf8_decode(log@) is None ==> (r matches Err(
                ProgramError::ErrorHandlerError(m),
            ) && m@ == "Failed to convert log to string"@),
    {
        if success {
            Ok(Program { handle })
        } else if log.len() == 0 {
            Err(ProgramError::EmptyLog)
        } else {
            match bytes_to_string(log) {
                Some(s) => Err(ProgramError::LinkError(s)),
                None => Err(ProgramError::ErrorHandlerError("Failed to convert log to string")),
            }
        }
    }
}

} // verus!
