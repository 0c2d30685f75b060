//! Commands and events exchanged with the unverified shell.
//!
//! The library never talks to the graphics driver or the window system
//! itself.  Instead each verified function returns the sequence of
//! driver commands it asks for, and receives window events as plain
//! values.  The shell performs the commands in order and feeds events
//! back in, so every decision about *what* to issue stays verified.

use vstd::prelude::*;

verus! {

/// One command for the graphics driver.  Scalar uniform values travel as
/// the 32-bit pattern of the intended single-precision float, so the
/// verified code never holds a float itself.
#[derive(Clone, Copy, Debug, PartialEq, Eq, Structural)]
pub enum GpuCmd {
    /// Set the viewport rectangle to `(0, 0, w, h)`.
    Viewport { w: i32, h: i32 },
    /// Make the program the driver's current one.
    UseProgram { program: u32 },
    /// Write a scalar uniform at `location`; `-1` is the harmless sentinel.
    Uniform1f { location: i32, bits: u32 },
    /// Write a two-component uniform at `location`.
    Uniform2f { location: i32, x_bits: u32, y_bits: u32 },
    /// Bind the particle buffer as the compute stage's storage buffer.
    BindStorageBuffer { buffer: u32 },
    /// Dispatch the compute stage over `groups` workgroups along one axis.
    DispatchCompute { groups: usize },
    /// Full barrier: draw reads must observe the compute stage's writes.
    MemoryBarrier,
    /// Set the clear colour.
    ClearColor { r_bits: u32, g_bits: u32, b_bits: u32, a_bits: u32 },
    /// Clear the colour buffer.
    Clear,
    /// Bind the vertex array that feeds the draw call.
    BindVertexArray { vao: u32 },
    /// Draw `count` vertices as points.
    DrawPoints { count: usize },
    /// Present the frame.
    SwapBuffers,
    /// Release the vertex array object.
    DeleteVertexArray { vao: u32 },
    /// Release the particle buffer object.
    DeleteBuffer { vbo: u32 },
    /// Release a linked program.
    DeleteProgram { program: u32 },
    /// Release a compiled shader stage.
    DeleteShader { shader: u32 },
}

/// One window event, as the shell hands it in from the event pump.
#[derive(Clone, Copy, Debug, PartialEq, Eq, Structural)]
pub enum FrameEvent {
    /// The user asked to close the window.
    Close,
    /// The framebuffer was resized; dimensions as the window system reports them.
    FramebufferResize { w: i32, h: i32 },
    /// The cursor moved; coordinates as 32-bit float patterns.
    CursorMove { x_bits: u32, y_bits: u32 },
    /// A key was pressed or released; the renderer ignores keys.
    Key,
    /// Any other event; ignored.
    Other,
}

/// Whether a command releases a GPU resource.
pub open spec fn is_delete(c: GpuCmd) -> bool {
    ||| c is DeleteVertexArray
    ||| c is DeleteBuffer
    ||| c is DeleteProgram
    ||| c is DeleteShader
}

/// Whether a command sequence releases nothing.  Every per-frame sequence
/// satisfies this: resources are released only after the loop has exited.
pub open spec fn no_deletes(s: Seq<GpuCmd>) -> bool {
    forall|i: int| 0 <= i < s.len() ==> !is_delete(s[i])
}

} // verus!
