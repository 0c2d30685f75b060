//! The shader unit: one compiled stage of GPU code.
//!
//! Compiling itself is the driver's work; the shell runs the compile and
//! reports the outcome (status, and the driver's info log as bytes).
//! Classifying that outcome — success, a readable diagnostic, an empty
//! log, or an undecodable log — is this module's verified logic.

use vstd::prelude::*;

use crate::text::{bytes_to_string, utf8_decode};

verus! {

/// The kind of a shader stage.
#[derive(Clone, Copy, Debug, PartialEq, Eq, Structural)]
pub enum ShaderKind {
    Vertex,
    Fragment,
    Geometry,
    Compute,
}

/// Why a shader failed to compile.
#[derive(Debug)]
pub enum ShaderCompileError {
    /// The driver rejected the source and gave this diagnostic text.
    Compile(ShaderKind, String),
    /// The driver rejected the source but supplied no diagnostic.
    EmptyLog(ShaderKind),
    /// The driver's log bytes were not valid text.
    ErrorHandlerError(ShaderKind),
}

/// The display name of a stage kind.
pub fn get_shader_type_name(ty: ShaderKind) -> (r: &'static str)
    ensures
        ty is Vertex ==> r@ == "Vertex"@,
        ty is Fragment ==> r@ == "Fragment"@,
        ty is Geometry ==> r@ == "Geometry"@,
        ty is Compute ==> r@ == "Compute"@,
{
    match ty {
        ShaderKind::Vertex => "Vertex",
        ShaderKind::Fragment => "Fragment",
        ShaderKind::Geometry => "Geometry",
        ShaderKind::Compute => "Compute",
    }
}

/// One compiled shader stage: the driver's handle for it, and its kind.
pub struct Shader {
    pub handle: u32,
    pub ty: ShaderKind,
}

impl Shader {
    /// Wrap a handle the driver reported as successfully compiled.
    pub fn new(handle: u32, ty: ShaderKind) -> (r: Self)
        ensures
            r.handle == handle,
            r.ty == ty,
    {
        Shader { handle, ty }
    }

    /// The driver's handle.
    pub fn handle(&self) -> (r: u32)
        ensures
            r == self.handle,
    {
        self.handle
    }

    /// The stage kind.
    pub fn ty(&self) -> (r: ShaderKind)
        ensures
            r == self.ty,
    {
        self.ty
    }

    /// Classify a compile outcome: the status the driver reported and its
    /// info log.  Success yields the stage; failure yields the diagnostic
    /// text when the log decodes, `EmptyLog` when the driver gave none,
    /// and `ErrorHandlerError` when the log bytes are not valid text.
    pub fn try_from_outcome(handle: u32, ty: ShaderKind, success: bool, log: Vec<u8>) -> (r: Result<
        Shader,
        ShaderCompileError,
    >)
        ensures
            success ==> (r matches Ok(s) && s.handle == handle && s.ty == ty),
            !success && log@.len() == 0 ==> (r matches Err(ShaderCompileError::EmptyLog(k))
                && k == ty),
            !success && log@.len() > 0 && utf8_decode(log@) is Some ==> (r matches Err(
                ShaderCompileError::Compile(k, s),
            ) && k == ty && Some(s@) == utf8_decode(log@) && s@.len() > 0),
            !success && log@.len() > 0 && utf8_decode(log@) is None ==> (r matches Err(
                ShaderCompileError::ErrorHandlerError(k),
            ) && k == ty),
    {
        if success {
            Ok(Shader { handle, ty })
        } else if log.len() == 0 {
            Err(ShaderCompileError::EmptyLog(ty))
        } else {
            match bytes_to_string(log) {
                Some(s) => Err(ShaderCompileError::Compile(ty, s)),
                None => Err(ShaderCompileError::ErrorHandlerError(ty)),
            }
        }
    }
}

} // verus!
