//! Symbolic names for the numeric codes of the graphics context.
//!
//! Each enum is a closed set of variants, and each variant stands for exactly
//! one native code. The mappings are total, and they are injective: two
//! different variants of one enum never share a code.

use vstd::prelude::*;

verus! {

/// How often the contents of a buffer are expected to change.
#[derive(Clone, Copy, Debug, PartialEq, Eq, Structural)]
pub enum DrawKind {
    StaticDraw,
    DynamicDraw,
    StreamDraw,
}

/// The native code of a usage hint.
pub open spec fn draw_kind_code(kind: DrawKind) -> u32 {
    match kind {
        DrawKind::StaticDraw => 35044,
        DrawKind::DynamicDraw => 35048,
        DrawKind::StreamDraw => 35040,
    }
}

/// Anything that carries a usage hint.
pub trait HasDrawKind {
    fn draw_kind_constant(&self) -> u32;
}

impl HasDrawKind for DrawKind {
    fn draw_kind_constant(&self) -> (code: u32)
        ensures
            code == draw_kind_code(*self),
    {
        match self {
            DrawKind::StaticDraw => 35044,
            DrawKind::DynamicDraw => 35048,
            DrawKind::StreamDraw => 35040,
        }
    }
}

/// How the vertices of a draw call are assembled into primitives.
#[derive(Clone, Copy, Debug, PartialEq, Eq, Structural)]
pub enum DrawArrayKind {
    Points,
    LineStrip,
    LineLoop,
    Lines,
    TriangleStrip,
    TriangleFan,
    Triangles,
}

/// The native code of a primitive topology.
pub open spec fn draw_array_kind_code(kind: DrawArrayKind) -> u32 {
    match kind {
        DrawArrayKind::Points => 0,
        DrawArrayKind::LineStrip => 3,
        DrawArrayKind::LineLoop => 2,
        DrawArrayKind::Lines => 1,
        DrawArrayKind::TriangleStrip => 5,
        DrawArrayKind::TriangleFan => 6,
        DrawArrayKind::Triangles => 4,
    }
}

/// Anything that carries a primitive topology.
pub trait HasDrawArrayKind {
    fn draw_array_kind_constant(&self) -> u32;
}

impl HasDrawArrayKind for DrawArrayKind {
    fn draw_array_kind_constant(&self) -> (code: u32)
        ensures
            code == draw_array_kind_code(*self),
    {
        match self {
            DrawArrayKind::Points => 0,
            DrawArrayKind::LineStrip => 3,
            DrawArrayKind::LineLoop => 2,
            DrawArrayKind::Lines => 1,
            DrawArrayKind::TriangleStrip => 5,
            DrawArrayKind::TriangleFan => 6,
            DrawArrayKind::Triangles => 4,
        }
    }
}

/// Which plane of the framebuffer a clear touches.
#[derive(Clone, Copy, Debug, PartialEq, Eq, Structural)]
pub enum ClearMask {
    ColorBufferBit,
    DepthBufferBit,
    StencilBufferBit,
}

/// The native bit of a clear mask.
pub open spec fn clear_mask_code(mask: ClearMask) -> u32 {
    match mask {
        ClearMask::ColorBufferBit => 16384,
        ClearMask::DepthBufferBit => 256,
        ClearMask::StencilBufferBit => 1024,
    }
}

/// Anything that carries a clear mask.
pub trait HasClearMaskKind {
    fn clear_mask_constant(&self) -> u32;
}

impl HasClearMaskKind for ClearMask {
    fn clear_mask_constant(&self) -> (code: u32)
        ensures
            code == clear_mask_code(*self),
    {
        match self {
            ClearMask::ColorBufferBit => 16384,
            ClearMask::DepthBufferBit => 256,
            ClearMask::StencilBufferBit => 1024,
        }
    }
}

/// The binding point a buffer is created for.
#[derive(Clone, Copy, Debug, PartialEq, Eq, Structural)]
pub enum BufferKind {
    ArrayBuffer,
    ElementBuffer,
}

/// The native code of a buffer kind.
pub open spec fn buffer_kind_code(kind: BufferKind) -> u32 {
    match kind {
        BufferKind::ArrayBuffer => 34962,
        BufferKind::ElementBuffer => 34963,
    }
}

/// Anything that carries a buffer kind: the kind itself, or a buffer that
/// is tagged with it.
pub trait HasBufferKind {
    /// The native code of the kind that this value carries.
    ///
    /// A verified type gives its own body, and is held to it. The body here
    /// only stands in for types written outside the verifier, which cannot
    /// give one; it says nothing true of them, and nothing is proved of them.
    closed spec fn spec_buffer_kind_constant(&self) -> u32 {
        arbitrary()
    }

    fn buffer_kind_constant(&self) -> (code: u32)
        ensures
            code == self.spec_buffer_kind_constant(),
    ;
}

impl HasBufferKind for BufferKind {
    open spec fn spec_buffer_kind_constant(&self) -> u32 {
        buffer_kind_code(*self)
    }

    fn buffer_kind_constant(&self) -> (code: u32) {
        match self {
            BufferKind::ArrayBuffer => 34962,
            BufferKind::ElementBuffer => 34963,
        }
    }
}

/// The component type of the data behind a view.
#[derive(Clone, Copy, Debug, PartialEq, Eq, Structural)]
pub enum ViewPrecision {
    Byte,
    Short,
    UnsignedByte,
    UnsignedShort,
    Float,
}

/// The native code of a component type.
pub open spec fn view_precision_code(precision: ViewPrecision) -> u32 {
    match precision {
        ViewPrecision::Byte => 5120,
        ViewPrecision::Short => 5122,
        ViewPrecision::UnsignedByte => 5121,
        ViewPrecision::UnsignedShort => 5123,
        ViewPrecision::Float => 5126,
    }
}

/// Anything that carries a component type.
pub trait HasViewPrecision {
    fn view_precision_constant(&self) -> u32;
}

impl HasViewPrecision for ViewPrecision {
    fn view_precision_constant(&self) -> (code: u32)
        ensures
            code == view_precision_code(*self),
    {
        match self {
            ViewPrecision::Byte => 5120,
            ViewPrecision::Short => 5122,
            ViewPrecision::UnsignedByte => 5121,
            ViewPrecision::UnsignedShort => 5123,
            ViewPrecision::Float => 5126,
        }
    }
}

/// No two usage hints share a native code.
pub proof fn lemma_draw_kind_code_injective(a: DrawKind, b: DrawKind)
    ensures
        draw_kind_code(a) == draw_kind_code(b) <==> a == b,
{
}

/// No two primitive topologies share a native code.
pub proof fn lemma_draw_array_kind_code_injective(a: DrawArrayKind, b: DrawArrayKind)
    ensures
        draw_array_kind_code(a) == draw_array_kind_code(b) <==> a == b,
{
}

/// No two clear masks share a native bit.
pub proof fn lemma_clear_mask_code_injective(a: ClearMask, b: ClearMask)
    ensures
        clear_mask_code(a) == clear_mask_code(b) <==> a == b,
{
}

/// No two buffer kinds share a native code.
pub proof fn lemma_buffer_kind_code_injective(a: BufferKind, b: BufferKind)
    ensures
        buffer_kind_code(a) == buffer_kind_code(b) <==> a == b,
{
}

/// No two component types share a native code.
pub proof fn lemma_view_precision_code_injective(a: ViewPrecision, b: ViewPrecision)
    ensures
        view_precision_code(a) == view_precision_code(b) <==> a == b,
{
}

} // verus!
