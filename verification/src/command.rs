//! The vocabulary of graphics commands the library asks its host to
//! perform. Each value describes one call against the drawing context;
//! the host executes them in order. Fractional constants (clear color)
//! are carried in tenths so the library stays within exact integers.

use vstd::prelude::*;

verus! {

#[derive(Clone, Copy, Debug, PartialEq, Eq, Structural)]
pub enum ShaderKind {
    Vertex,
    Fragment,
}

#[derive(Clone, Copy, Debug, PartialEq, Eq, Structural)]
pub enum BufferKind {
    Position,
    Color,
    Index,
}

#[derive(Clone, Copy, Debug, PartialEq, Eq, Structural)]
pub enum GlCommand {
    /// Resize the drawing surface to a fixed pixel area.
    SetSurfaceSize { width: u32, height: u32 },
    /// Set the viewport to match the surface.
    SetViewport { width: u32, height: u32 },
    /// Depth testing stays off so the single draw call is always visible.
    DisableDepthTest,
    /// Face culling stays off for the same reason.
    DisableCullFace,
    /// Create a shader of the given kind from its fixed source and
    /// compile it; the host reports the compile result as an event.
    CompileShader { kind: ShaderKind },
    /// Link the two compiled shaders into one program; the host reports
    /// the link result as an event.
    LinkProgram,
    /// Select the linked program for drawing.
    UseProgram,
    /// Create one buffer and upload the fixed mesh array of the given
    /// kind into it.
    UploadBuffer { buffer: BufferKind },
    /// Look up the two vertex attribute slots ("position", "color") by
    /// name; the host reports the resolved slots as an event.
    ResolveAttributes,
    /// Enable one vertex attribute slot.
    EnableAttribute { slot: u32 },
    /// Bind the current buffer to an attribute slot: `components`
    /// floating-point components per vertex, no normalization, tightly
    /// packed.
    SetAttributeLayout { slot: u32, components: u32 },
    /// Clear the color buffer to the fixed background color, given in
    /// tenths per channel.
    ClearFrame { red_tenths: u8, green_tenths: u8, blue_tenths: u8, alpha_tenths: u8 },
    /// Upload the rotation matrix for the given angle (in hundredths of
    /// a radian) to the program's transform uniform.
    SetTransformUniform { angle_centiradians: u64 },
    /// Re-bind the index buffer before drawing.
    BindIndexBuffer,
    /// Issue one indexed triangle-list draw call over `index_count`
    /// indices.
    DrawTriangles { index_count: u32 },
    /// Query the graphics error state and log a diagnostic if it is not
    /// clear (non-fatal).
    CheckErrors,
    /// Emit the periodic diagnostic log line for the given frame number.
    LogFrame { frame: u64 },
    /// Ask the host to schedule the next animation tick.
    ScheduleNextFrame,
}

/// Commands that create or fill a shader or buffer object — the "setup
/// side effects" that must never happen after an aborted setup and never
/// more than once per process.
pub open spec fn is_resource_creation(c: GlCommand) -> bool {
    c is CompileShader || c is LinkProgram || c is UploadBuffer
}

/// Commands that bind a buffer to a vertex attribute slot.
pub open spec fn is_attribute_binding(c: GlCommand) -> bool {
    c is EnableAttribute || c is SetAttributeLayout
}

pub open spec fn is_draw(c: GlCommand) -> bool {
    c is DrawTriangles
}

/// Number of draw calls in a command trace.
pub open spec fn draw_count(cs: Seq<GlCommand>) -> nat
    decreases cs.len(),
{
    if cs.len() == 0 {
        0
    } else {
        draw_count(cs.drop_last()) + (if is_draw(cs.last()) { 1nat } else { 0nat })
    }
}

/// Draw calls add up over concatenated traces.
pub proof fn lemma_draw_count_concat(a: Seq<GlCommand>, b: Seq<GlCommand>)
    ensures
        draw_count(a + b) == draw_count(a) + draw_count(b),
    decreases b.len(),
{
    if b.len() == 0 {
        assert(a + b =~= a);
    } else {
        assert((a + b).drop_last() =~= a + b.drop_last());
        assert((a + b).last() == b.last());
        lemma_draw_count_concat(a, b.drop_last());
    }
}

pub open spec fn has_resource_creation(cs: Seq<GlCommand>) -> bool {
    exists|i: int| 0 <= i < cs.len() && is_resource_creation(cs[i])
}

pub open spec fn has_attribute_binding(cs: Seq<GlCommand>) -> bool {
    exists|i: int| 0 <= i < cs.len() && is_attribute_binding(cs[i])
}

} // verus!
