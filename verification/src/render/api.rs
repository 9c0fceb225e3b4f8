//! The capability that a graphics context offers to the render loop.
//!
//! Numbers that the context takes as floating point are handled here as
//! [`Fixed`]: signed counts of hundredths. A context converts them when it
//! passes them on.

use vstd::prelude::*;
use vstd::view::View as _;
use vstd::string::StringExecFns;
use super::constants::{
    BufferKind, ClearMask, DrawArrayKind, DrawKind, HasBufferKind, ViewPrecision,
    buffer_kind_code,
};
use super::data::{DataViewError, Fixed, View};

verus! {

/// The location of a vertex attribute in a linked program.
pub type AttributeValue = u32;

/// Why a request to the graphics context failed.
#[derive(Clone, Debug, PartialEq, Eq)]
pub enum RenderApiError {
    /// The context refused to allocate a buffer.
    FailedToCreateBuffer,
    /// The linked program declares no input of this name.
    InvalidAttributeName(String),
}

/// A `RenderApiError` as a mathematical value.
pub enum RenderApiErrorView {
    FailedToCreateBuffer,
    InvalidAttributeName(Seq<char>),
}

impl vstd::view::View for RenderApiError {
    type V = RenderApiErrorView;

    open spec fn view(&self) -> RenderApiErrorView {
        match self {
            RenderApiError::FailedToCreateBuffer => RenderApiErrorView::FailedToCreateBuffer,
            RenderApiError::InvalidAttributeName(name) => RenderApiErrorView::InvalidAttributeName(
                name@,
            ),
        }
    }
}

impl RenderApiErrorView {
    /// The text of the message for this error.
    pub open spec fn message(self) -> Seq<char> {
        match self {
            RenderApiErrorView::FailedToCreateBuffer => "Failed to create buffer"@,
            RenderApiErrorView::InvalidAttributeName(name) => "Invalid attribute name, "@ + name,
        }
    }
}

impl RenderApiError {
    pub fn to_string(&self) -> (text: String)
        ensures
            text@ == self@.message(),
    {
        match self {
            RenderApiError::FailedToCreateBuffer => String::from_str("Failed to create buffer"),
            RenderApiError::InvalidAttributeName(name) => {
                String::from_str("Invalid attribute name, ").concat(name.as_str())
            },
        }
    }
}

/// A failure of one of the two families, as a mathematical value: a request
/// that the context refused, or a view that could not be made.
pub enum FailureView {
    RenderApiError(RenderApiErrorView),
    DataViewError(DataViewError),
}

/// A symbolic name for a per-vertex input of the linked program.
pub trait AttributeKey {
    /// The name as the shader source declares it.
    ///
    /// A verified type gives its own body, and is held to it. The body here
    /// only stands in for types written outside the verifier, which cannot
    /// give one; it says nothing true of them, and nothing is proved of them.
    closed spec fn spec_name(&self) -> Seq<char> {
        arbitrary()
    }

    /// The name, which is never empty.
    fn name(&self) -> (name: &str)
        ensures
            name@ == self.spec_name(),
            name@.len() > 0,
    ;
}

/// A symbolic name for a per-draw input of the linked program.
pub trait UniformKey {
    /// The name as the shader source declares it.
    ///
    /// A verified type gives its own body, and is held to it. The body here
    /// only stands in for types written outside the verifier, which cannot
    /// give one; it says nothing true of them, and nothing is proved of them.
    closed spec fn spec_name(&self) -> Seq<char> {
        arbitrary()
    }

    /// The name, which is never empty.
    fn name(&self) -> (name: &str)
        ensures
            name@ == self.spec_name(),
            name@.len() > 0,
    ;
}

/// What a caller may name an attribute by.
pub enum AttributeTarget {
    /// A symbolic key, looked up by name in the linked program.
    Name(Seq<char>),
    /// A location that was resolved earlier.
    Location(AttributeValue),
}

/// One state-changing request that a graphics context accepted, with every
/// name resolved. `B` is the type of its buffers.
#[allow(inconsistent_fields)]
pub enum Call<B> {
    /// Make `buffer`, for the binding point of `kind`.
    CreateBuffer { kind: BufferKind, buffer: B },
    /// Bind `buffer` at the binding point of its kind and replace its
    /// contents with `data`.
    BindBuffer { buffer: B, data: Seq<Fixed>, usage: DrawKind },
    /// Read the bound buffer for the attribute at `index` in this way.
    VertexAttribPointer {
        index: AttributeValue,
        size: i32,
        precision: ViewPrecision,
        normalized: bool,
        stride: i32,
        offset: i32,
    },
    EnableVertexAttribArray { index: AttributeValue },
    ClearColor { red: Fixed, green: Fixed, blue: Fixed, alpha: Fixed },
    Clear { mask: ClearMask },
    DrawArrays { mode: DrawArrayKind, first: i32, count: i32 },
    SetViewport { x: i32, y: i32, width: i32, height: i32 },
    Uniform2f { uniform: Seq<char>, x: Fixed, y: Fixed },
}

/// What naming an attribute by `target` comes to in a program that declares
/// the attributes `declared`: a location stands for itself, and a name stands
/// for the location that the program declares it at. A name that the program
/// does not declare is an invalid attribute name, and never a location.
pub open spec fn resolve(
    target: AttributeTarget,
    declared: Map<Seq<char>, AttributeValue>,
) -> Result<AttributeValue, RenderApiErrorView> {
    match target {
        AttributeTarget::Location(location) => Ok(location),
        AttributeTarget::Name(name) => if declared.contains_key(name) {
            Ok(declared[name])
        } else {
            Err(RenderApiErrorView::InvalidAttributeName(name))
        },
    }
}

/// The part of a graphics context that knows the attributes of its linked
/// program.
pub trait AttributeSource {
    /// The attributes that the linked program declares, each with its
    /// location.
    ///
    /// A verified context gives its own body, and is held to it. The body
    /// here only stands in for contexts written outside the verifier, which
    /// cannot give one; it says nothing true of them, and nothing is proved
    /// of them.
    closed spec fn declared(&self) -> Map<Seq<char>, AttributeValue> {
        arbitrary()
    }

    /// Looks a key up in the linked program: the answer is the location that
    /// the program declares the name of the key at, and
    /// `InvalidAttributeName` where it declares no such name.
    fn get_attribute<AK>(&self, key: AK) -> (result: Result<AttributeValue, RenderApiError>) where
        AK: AttributeKey,

        ensures
            match result {
                Ok(location) => resolve(AttributeTarget::Name(key.spec_name()), self.declared())
                    == Ok::<AttributeValue, RenderApiErrorView>(location),
                Err(error) => resolve(AttributeTarget::Name(key.spec_name()), self.declared())
                    == Err::<AttributeValue, RenderApiErrorView>(error@),
            },
    ;
}

/// Anything that names an attribute: a symbolic key, or a location.
pub trait IntoAttributeValue {
    spec fn target(&self) -> AttributeTarget;

    /// Resolves to a location. A location resolves to itself and never
    /// fails; a key is looked up in `context`, and resolves to what the
    /// program of `context` declares it at.
    fn with_context<C>(self, context: &C) -> (result: Result<AttributeValue, RenderApiError>) where
        C: AttributeSource,
        Self: Sized,

        ensures
            match result {
                Ok(location) => resolve(self.target(), context.declared()) == Ok::<
                    AttributeValue,
                    RenderApiErrorView,
                >(location),
                Err(error) => resolve(self.target(), context.declared()) == Err::<
                    AttributeValue,
                    RenderApiErrorView,
                >(error@),
            },
    ;
}

/// The typed face of a graphics context with a linked program.
///
/// A context has a model of three parts. `declared` and `uniforms` are what
/// its linked program declares; no request changes them. `issued` is the
/// sequence of the state-changing requests that the context has accepted,
/// oldest first. Each method says when it succeeds and how it extends that
/// sequence, so that code written against this trait is held to the exact
/// requests it makes, to their order, and to the buffers it makes them on.
pub trait RenderAPI: AttributeSource {
    type Buffer: HasBufferKind;

    /// The requests accepted so far.
    ///
    /// A verified context gives its own body, and is held to it. The body
    /// here only stands in for contexts written outside the verifier, which
    /// cannot give one; it says nothing true of them, and nothing is proved
    /// of them.
    closed spec fn issued(&self) -> Seq<Call<Self::Buffer>> {
        arbitrary()
    }

    /// The names of the uniforms that the linked program declares. The body
    /// stands in as that of `issued` does.
    closed spec fn uniforms(&self) -> Set<Seq<char>> {
        arbitrary()
    }

    /// Allocates a buffer and tags it with `kind`. Whether the context has
    /// room for one is the context's to say.
    fn create_buffer(&mut self, kind: BufferKind) -> (result: Result<Self::Buffer, RenderApiError>)
        ensures
            final(self).declared() == old(self).declared(),
            final(self).uniforms() == old(self).uniforms(),
            match result {
                Ok(buffer) => {
                    &&& buffer.spec_buffer_kind_constant() == buffer_kind_code(kind)
                    &&& final(self).issued() == old(self).issued().push(
                        Call::CreateBuffer { kind, buffer },
                    )
                },
                Err(error) => {
                    &&& error@ == RenderApiErrorView::FailedToCreateBuffer
                    &&& final(self).issued() == old(self).issued()
                },
            },
    ;

    /// Makes `buffer` the active binding for its kind and uploads the
    /// contents of `view` into it.
    fn bind_buffer<V>(&mut self, buffer: &Self::Buffer, view: &V, draw_kind: DrawKind) where
        V: View,

        ensures
            final(self).declared() == old(self).declared(),
            final(self).uniforms() == old(self).uniforms(),
            final(self).issued() == old(self).issued().push(
                Call::BindBuffer { buffer: *buffer, data: view.spec_object(), usage: draw_kind },
            ),
    ;

    /// Says how the bound buffer is read for the attribute that `key` names.
    /// It succeeds exactly when `key` resolves, and fails with the error of
    /// the resolution.
    fn vertex_attrib_pointer_with_i32<A>(
        &mut self,
        key: A,
        size: i32,
        precision: ViewPrecision,
        normalized: bool,
        stride: i32,
        offset: i32,
    ) -> (result: Result<(), RenderApiError>) where A: IntoAttributeValue
        ensures
            final(self).declared() == old(self).declared(),
            final(self).uniforms() == old(self).uniforms(),
            match result {
                Ok(()) => {
                    &&& resolve(key.target(), old(self).declared()) matches Ok(index)
                    &&& final(self).issued() == old(self).issued().push(
                        Call::VertexAttribPointer {
                            index,
                            size,
                            precision,
                            normalized,
                            stride,
                            offset,
                        },
                    )
                },
                Err(error) => {
                    &&& resolve(key.target(), old(self).declared()) == Err::<
                        AttributeValue,
                        RenderApiErrorView,
                    >(error@)
                    &&& final(self).issued() == old(self).issued()
                },
            },
    ;

    /// Switches the attribute that `key` names on for draw calls. It
    /// succeeds exactly when `key` resolves, and fails with the error of the
    /// resolution.
    fn enable_vertex_attrib_array<A>(&mut self, key: A) -> (result: Result<
        (),
        RenderApiError,
    >) where A: IntoAttributeValue
        ensures
            final(self).declared() == old(self).declared(),
            final(self).uniforms() == old(self).uniforms(),
            match result {
                Ok(()) => {
                    &&& resolve(key.target(), old(self).declared()) matches Ok(index)
                    &&& final(self).issued() == old(self).issued().push(
                        Call::EnableVertexAttribArray { index },
                    )
                },
                Err(error) => {
                    &&& resolve(key.target(), old(self).declared()) == Err::<
                        AttributeValue,
                        RenderApiErrorView,
                    >(error@)
                    &&& final(self).issued() == old(self).issued()
                },
            },
    ;

    /// Sets the colour that `clear` fills the colour buffer with.
    fn clear_color(&mut self, red: Fixed, green: Fixed, blue: Fixed, alpha: Fixed)
        ensures
            final(self).declared() == old(self).declared(),
            final(self).uniforms() == old(self).uniforms(),
            final(self).issued() == old(self).issued().push(
                Call::ClearColor { red, green, blue, alpha },
            ),
    ;

    fn clear(&mut self, mask: ClearMask)
        ensures
            final(self).declared() == old(self).declared(),
            final(self).uniforms() == old(self).uniforms(),
            final(self).issued() == old(self).issued().push(Call::Clear { mask }),
    ;

    fn draw_arrays(&mut self, mode: DrawArrayKind, first: i32, count: i32)
        ensures
            final(self).declared() == old(self).declared(),
            final(self).uniforms() == old(self).uniforms(),
            final(self).issued() == old(self).issued().push(
                Call::DrawArrays { mode, first, count },
            ),
    ;

    fn set_viewport(&mut self, x: i32, y: i32, width: i32, height: i32)
        ensures
            final(self).declared() == old(self).declared(),
            final(self).uniforms() == old(self).uniforms(),
            final(self).issued() == old(self).issued().push(
                Call::SetViewport { x, y, width, height },
            ),
    ;

    /// Gives the uniform that `key` names the value `(x, y)`. It succeeds
    /// exactly when the program declares a uniform of that name.
    fn uniform2f<U>(&mut self, key: U, x: Fixed, y: Fixed) -> (result: Result<
        (),
        RenderApiError,
    >) where U: UniformKey
        ensures
            final(self).declared() == old(self).declared(),
            final(self).uniforms() == old(self).uniforms(),
            match result {
                Ok(()) => {
                    &&& old(self).uniforms().contains(key.spec_name())
                    &&& final(self).issued() == old(self).issued().push(
                        Call::Uniform2f { uniform: key.spec_name(), x, y },
                    )
                },
                Err(error) => {
                    &&& !old(self).uniforms().contains(key.spec_name())
                    &&& error@ == RenderApiErrorView::InvalidAttributeName(key.spec_name())
                    &&& final(self).issued() == old(self).issued()
                },
            },
    ;
}

impl<A> IntoAttributeValue for A where A: AttributeKey {
    open spec fn target(&self) -> AttributeTarget {
        AttributeTarget::Name(self.spec_name())
    }

    fn with_context<C>(self, context: &C) -> (result: Result<AttributeValue, RenderApiError>) where
        C: AttributeSource,
     {
        context.get_attribute(self)
    }
}

impl IntoAttributeValue for AttributeValue {
    open spec fn target(&self) -> AttributeTarget {
        AttributeTarget::Location(*self)
    }

    fn with_context<C>(self, _context: &C) -> (result: Result<AttributeValue, RenderApiError>) where
        C: AttributeSource,
     {
        Ok(self)
    }
}

/// Turns the answer of the native attribute lookup into a location: a
/// negative answer means that the program declares no attribute `name`.
pub fn attribute_from_location(location: i32, name: &str) -> (result: Result<
    AttributeValue,
    RenderApiError,
>)
    ensures
        match result {
            Ok(value) => location >= 0 && value == location,
            Err(error) => location < 0 && error@ == RenderApiErrorView::InvalidAttributeName(
                name@,
            ),
        },
{
    if location >= 0 {
        Ok(location as u32)
    } else {
        Err(RenderApiError::InvalidAttributeName(String::from_str(name)))
    }
}

/// Turns the answer of the native uniform lookup into a location: no answer
/// means that the program declares no uniform `name`.
pub fn uniform_from_location<L>(location: Option<L>, name: &str) -> (result: Result<
    L,
    RenderApiError,
>)
    ensures
        match result {
            Ok(value) => location == Some(value),
            Err(error) => location is None && error@ == RenderApiErrorView::InvalidAttributeName(
                name@,
            ),
        },
{
    match location {
        Some(value) => Ok(value),
        None => Err(RenderApiError::InvalidAttributeName(String::from_str(name))),
    }
}

/// A buffer of a WebGL context, tagged with the kind it was made for. `H`
/// is the handle that the context gave out for it; the library carries the
/// handle and never looks into it.
#[derive(Clone, Debug)]
pub struct WebRenderBuffer<H> {
    pub kind: BufferKind,
    pub internal: H,
}

impl<H> WebRenderBuffer<H> {
    /// Tags what the context answered to a request for a buffer: no handle
    /// means that it refused.
    pub fn tagged(kind: BufferKind, internal: Option<H>) -> (result: Result<Self, RenderApiError>)
        ensures
            match result {
                Ok(buffer) => internal == Some(buffer.internal) && buffer.kind == kind,
                Err(error) => internal is None && error@
                    == RenderApiErrorView::FailedToCreateBuffer,
            },
    {
        match internal {
            Some(internal) => Ok(WebRenderBuffer { kind, internal }),
            None => Err(RenderApiError::FailedToCreateBuffer),
        }
    }
}

impl<H> HasBufferKind for WebRenderBuffer<H> {
    open spec fn spec_buffer_kind_constant(&self) -> u32 {
        buffer_kind_code(self.kind)
    }

    fn buffer_kind_constant(&self) -> (code: u32) {
        self.kind.buffer_kind_constant()
    }
}

} // verus!
