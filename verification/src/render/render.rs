//! A fixed triangle on a graphics context.

use vstd::prelude::*;
use vstd::view::View as _;
use vstd::string::StringExecFns;
use super::api::{
    AttributeKey, AttributeSource, AttributeValue, Call, FailureView, RenderAPI, RenderApiError,
    RenderApiErrorView,
};
use super::constants::{
    BufferKind, ClearMask, DrawArrayKind, DrawKind, HasBufferKind, ViewPrecision, buffer_kind_code,
};
use super::data::{DataViewError, Fixed, Float32View, View};

verus! {

/// The per-vertex inputs of the vertex shader.
#[derive(Clone, Copy, Debug)]
pub enum Attributes {
    Position,
}

impl AttributeKey for Attributes {
    open spec fn spec_name(&self) -> Seq<char> {
        match self {
            Attributes::Position => "position"@,
        }
    }

    fn name(&self) -> (name: &str) {
        proof {
            reveal_strlit("position");
        }
        match self {
            Attributes::Position => "position",
        }
    }
}

/// Why a `Render` could not be set up.
#[derive(Clone, Debug, PartialEq, Eq)]
pub enum RenderInitialisationError {
    RenderApiError(RenderApiError),
    DataViewError(DataViewError),
}

impl vstd::view::View for RenderInitialisationError {
    type V = FailureView;

    open spec fn view(&self) -> FailureView {
        match self {
            RenderInitialisationError::RenderApiError(error) => FailureView::RenderApiError(
                error@,
            ),
            RenderInitialisationError::DataViewError(error) => FailureView::DataViewError(*error),
        }
    }
}

impl From<RenderApiError> for RenderInitialisationError {
    fn from(error: RenderApiError) -> (wrapped: RenderInitialisationError) {
        RenderInitialisationError::RenderApiError(error)
    }
}

impl vstd::std_specs::convert::FromSpecImpl<RenderApiError> for RenderInitialisationError {
    open spec fn obeys_from_spec() -> bool {
        true
    }

    open spec fn from_spec(error: RenderApiError) -> Self {
        RenderInitialisationError::RenderApiError(error)
    }
}

impl From<DataViewError> for RenderInitialisationError {
    fn from(error: DataViewError) -> (wrapped: RenderInitialisationError) {
        RenderInitialisationError::DataViewError(error)
    }
}

impl vstd::std_specs::convert::FromSpecImpl<DataViewError> for RenderInitialisationError {
    open spec fn obeys_from_spec() -> bool {
        true
    }

    open spec fn from_spec(error: DataViewError) -> Self {
        RenderInitialisationError::DataViewError(error)
    }
}

impl RenderInitialisationError {
    /// The text of the message for an error of the set-up.
    pub open spec fn message(error: FailureView) -> Seq<char> {
        match error {
            FailureView::RenderApiError(error) => "RenderApiError: "@ + error.message(),
            FailureView::DataViewError(error) => "DataViewError: "@ + error.message(),
        }
    }

    pub fn to_string(self) -> (text: String)
        ensures
            text@ == Self::message(self@),
    {
        match self {
            RenderInitialisationError::RenderApiError(error) => {
                let inner = error.to_string();
                String::from_str("RenderApiError: ").concat(inner.as_str())
            },
            RenderInitialisationError::DataViewError(error) => {
                let inner = error.to_string();
                String::from_str("DataViewError: ").concat(inner.as_str())
            },
        }
    }
}

/// The triangle that a `Render` draws, in the coordinates of the clip space:
/// corners at (-0.7, -0.7), (0.7, -0.7) and (0, 0.7).
pub open spec fn fixed_triangle() -> Seq<Fixed> {
    seq![(-70) as Fixed, (-70) as Fixed, 0, 70, (-70) as Fixed, 0, 0, 70, 0]
}

/// What setting a `Render` up asks of the context once it has `buffer`:
/// upload `data` into it, wire the attribute at `position` to it and switch
/// it on.
pub open spec fn setup_calls<B>(buffer: B, data: Seq<Fixed>, position: AttributeValue) -> Seq<
    Call<B>,
> {
    seq![
        Call::BindBuffer { buffer, data, usage: DrawKind::StaticDraw },
        Call::VertexAttribPointer {
            index: position,
            size: 3,
            precision: ViewPrecision::Float,
            normalized: false,
            stride: 0,
            offset: 0,
        },
        Call::EnableVertexAttribArray { index: position },
    ]
}

/// What `draw` asks of the context when the view holds `length` components:
/// clear to opaque black, then draw one vertex for every three components.
/// For the nine components of a triangle that is three vertices.
pub open spec fn draw_calls<B>(length: nat) -> Seq<Call<B>> {
    seq![
        Call::ClearColor { red: 0, green: 0, blue: 0, alpha: 100 },
        Call::Clear { mask: ClearMask::ColorBufferBit },
        Call::DrawArrays { mode: DrawArrayKind::Triangles, first: 0, count: (length / 3) as i32 },
    ]
}

/// A buffer with one fixed triangle in it, and the context that draws it.
#[derive(Debug)]
pub struct Render<R, B> {
    view: Float32View,
    buffer: B,
    context: R,
}

impl<R, B> Render<R, B> where R: RenderAPI<Buffer = B>, B: HasBufferKind {
    /// The requests that the context of this value has accepted.
    pub closed spec fn issued(self) -> Seq<Call<B>> {
        self.context.issued()
    }

    /// The components that the view holds.
    pub closed spec fn geometry(self) -> Seq<Fixed> {
        self.view@
    }

    /// The buffer that this value owns.
    pub closed spec fn buffer(self) -> B {
        self.buffer
    }

    /// The attributes that the program of the context declares.
    pub closed spec fn declared(self) -> Map<Seq<char>, AttributeValue> {
        self.context.declared()
    }

    /// `self` is what is set up on `context`, once `context` has made
    /// `buffer`, for a view that shows `data`.
    pub open spec fn set_up_on(self, context: R, buffer: B, data: Seq<Fixed>) -> bool {
        &&& self.buffer() == buffer
        &&& self.geometry() == data
        &&& self.declared() == context.declared()
        &&& self.issued() == context.issued() + setup_calls(
            buffer,
            data,
            context.declared()["position"@],
        )
    }

    /// Makes one buffer on `context` and keeps it, uploads the triangle into
    /// it and wires the position attribute. The first step that fails ends
    /// the attempt, and its error is the result.
    ///
    /// Whether the buffer and the view can be made is for the context and
    /// the host to say; `create_with` and `create_with_view` say what
    /// follows from each of their answers, and `set_up_with` and
    /// `set_up_with_view` say what is asked of the context on each path.
    pub fn create(context: R) -> (result: Result<Self, RenderInitialisationError>)
        ensures
            match result {
                Ok(created) => {
                    &&& created.geometry() == fixed_triangle()
                    &&& created.buffer().spec_buffer_kind_constant() == buffer_kind_code(
                        BufferKind::ArrayBuffer,
                    )
                    &&& context.declared().contains_key("position"@)
                    &&& created.declared() == context.declared()
                    &&& created.issued() == context.issued().push(
                        Call::CreateBuffer {
                            kind: BufferKind::ArrayBuffer,
                            buffer: created.buffer(),
                        },
                    ) + setup_calls(
                        created.buffer(),
                        fixed_triangle(),
                        context.declared()["position"@],
                    )
                },
                Err(error) => {
                    ||| error@ == FailureView::RenderApiError(
                        RenderApiErrorView::FailedToCreateBuffer,
                    )
                    ||| error@ == FailureView::DataViewError(DataViewError::FailedToCreateMemory)
                    ||| {
                        &&& !context.declared().contains_key("position"@)
                        &&& error@ == FailureView::RenderApiError(
                            RenderApiErrorView::InvalidAttributeName("position"@),
                        )
                    }
                },
            },
    {
        let mut context = context;
        let made = context.create_buffer(BufferKind::ArrayBuffer);
        Self::create_with(context, made)
    }

    /// Goes on with `create` once the context has answered the request for
    /// a buffer with `made`: a refusal is the result, tagged as an error of
    /// the context, and a buffer becomes the buffer of the `Render`. What
    /// is asked of the context on the way, and in which order, is stated by
    /// `set_up_with`, which does the work.
    pub fn create_with(context: R, made: Result<B, RenderApiError>) -> (result: Result<
        Self,
        RenderInitialisationError,
    >)
        ensures
            match made {
                Err(refused) => match result {
                    Ok(_) => false,
                    Err(error) => error@ == FailureView::RenderApiError(refused@),
                },
                Ok(buffer) => match result {
                    Ok(created) => {
                        &&& created.set_up_on(context, buffer, fixed_triangle())
                        &&& context.declared().contains_key("position"@)
                    },
                    Err(error) => {
                        ||| error@ == FailureView::DataViewError(
                            DataViewError::FailedToCreateMemory,
                        )
                        ||| {
                            &&& !context.declared().contains_key("position"@)
                            &&& error@ == FailureView::RenderApiError(
                                RenderApiErrorView::InvalidAttributeName("position"@),
                            )
                        }
                    },
                },
            },
    {
        let mut context = context;
        match Self::set_up_with(&mut context, made) {
            Ok((buffer, view)) => Ok(Render { buffer, view, context }),
            Err(error) => Err(error),
        }
    }

    /// Goes on with `create` once the host has answered the request for a
    /// view with `viewed`: a refusal is the result, tagged as an error of
    /// the view. With a view, a program without a `position` attribute gives
    /// the error that names it, and any other program gives the `Render`.
    /// What is asked of the context on the way is stated by
    /// `set_up_with_view`, which does the work.
    pub fn create_with_view(
        context: R,
        buffer: B,
        viewed: Result<Float32View, DataViewError>,
    ) -> (result: Result<Self, RenderInitialisationError>)
        ensures
            match viewed {
                Err(failed) => match result {
                    Ok(_) => false,
                    Err(error) => error@ == FailureView::DataViewError(failed),
                },
                Ok(view) => if !context.declared().contains_key("position"@) {
                    match result {
                        Ok(_) => false,
                        Err(error) => error@ == FailureView::RenderApiError(
                            RenderApiErrorView::InvalidAttributeName("position"@),
                        ),
                    }
                } else {
                    match result {
                        Ok(created) => created.set_up_on(context, buffer, view@),
                        Err(_) => false,
                    }
                },
            },
    {
        let mut context = context;
        match Self::set_up_with_view(&mut context, &buffer, viewed) {
            Ok(view) => Ok(Render { buffer, view, context }),
            Err(error) => Err(error),
        }
    }

    /// The steps of the set-up that follow the request for a buffer, on a
    /// context that stays with the caller, so that what was asked of it can
    /// be told on every path.
    ///
    /// After a refusal nothing is asked of the context. With a buffer, a
    /// view of the triangle is asked of the host, and `set_up_with_view`
    /// does the rest with the answer.
    pub fn set_up_with(context: &mut R, made: Result<B, RenderApiError>) -> (result: Result<
        (B, Float32View),
        RenderInitialisationError,
    >)
        ensures
            final(context).declared() == old(context).declared(),
            final(context).uniforms() == old(context).uniforms(),
            match made {
                Err(refused) => match result {
                    Ok(_) => false,
                    Err(error) => {
                        &&& error@ == FailureView::RenderApiError(refused@)
                        &&& final(context).issued() == old(context).issued()
                    },
                },
                Ok(buffer) => match result {
                    Ok(parts) => {
                        &&& parts.0 == buffer
                        &&& parts.1@ == fixed_triangle()
                        &&& old(context).declared().contains_key("position"@)
                        &&& final(context).issued() == old(context).issued() + setup_calls(
                            buffer,
                            fixed_triangle(),
                            old(context).declared()["position"@],
                        )
                    },
                    Err(error) => {
                        ||| {
                            &&& error@ == FailureView::DataViewError(
                                DataViewError::FailedToCreateMemory,
                            )
                            &&& final(context).issued() == old(context).issued()
                        }
                        ||| {
                            &&& !old(context).declared().contains_key("position"@)
                            &&& error@ == FailureView::RenderApiError(
                                RenderApiErrorView::InvalidAttributeName("position"@),
                            )
                            &&& final(context).issued() == old(context).issued().push(
                                Call::BindBuffer {
                                    buffer,
                                    data: fixed_triangle(),
                                    usage: DrawKind::StaticDraw,
                                },
                            )
                        }
                    },
                },
            },
    {
        let buffer = match made {
            Ok(buffer) => buffer,
            Err(error) => {
                return Err(RenderInitialisationError::from(error));
            },
        };
        let data: [Fixed; 9] = [-70, -70, 0, 70, -70, 0, 0, 70, 0];
        assert(data@ =~= fixed_triangle());
        let viewed = Float32View::create(data.as_slice());
        match Self::set_up_with_view(context, &buffer, viewed) {
            Ok(view) => Ok((buffer, view)),
            Err(error) => Err(error),
        }
    }

    /// The steps of the set-up that follow the request for a view, on a
    /// context that stays with the caller.
    ///
    /// After a refusal nothing is asked of the context. With a view, the
    /// view is uploaded into `buffer`, and the position attribute is wired
    /// and switched on; a program without a `position` attribute ends the
    /// set-up right after the upload. The view comes back when every step
    /// was taken.
    pub fn set_up_with_view(
        context: &mut R,
        buffer: &B,
        viewed: Result<Float32View, DataViewError>,
    ) -> (result: Result<Float32View, RenderInitialisationError>)
        ensures
            final(context).declared() == old(context).declared(),
            final(context).uniforms() == old(context).uniforms(),
            match viewed {
                Err(failed) => match result {
                    Ok(_) => false,
                    Err(error) => {
                        &&& error@ == FailureView::DataViewError(failed)
                        &&& final(context).issued() == old(context).issued()
                    },
                },
                Ok(view) => if !old(context).declared().contains_key("position"@) {
                    match result {
                        Ok(_) => false,
                        Err(error) => {
                            &&& error@ == FailureView::RenderApiError(
                                RenderApiErrorView::InvalidAttributeName("position"@),
                            )
                            &&& final(context).issued() == old(context).issued().push(
                                Call::BindBuffer {
                                    buffer: *buffer,
                                    data: view@,
                                    usage: DrawKind::StaticDraw,
                                },
                            )
                        },
                    }
                } else {
                    match result {
                        Ok(kept) => {
                            &&& kept@ == view@
                            &&& final(context).issued() == old(context).issued() + setup_calls(
                                *buffer,
                                view@,
                                old(context).declared()["position"@],
                            )
                        },
                        Err(_) => false,
                    }
                },
            },
    {
        let ghost before = context.issued();
        let ghost program = context.declared();
        let view = match viewed {
            Ok(view) => view,
            Err(error) => {
                return Err(RenderInitialisationError::from(error));
            },
        };
        context.bind_buffer(buffer, &view, DrawKind::StaticDraw);

        let position = Attributes::Position;
        let precision = view.get_precision();
        match context.vertex_attrib_pointer_with_i32(position, 3, precision, false, 0, 0) {
            Ok(()) => {},
            Err(error) => {
                return Err(RenderInitialisationError::from(error));
            },
        }
        match context.enable_vertex_attrib_array(position) {
            Ok(()) => {},
            Err(error) => {
                return Err(RenderInitialisationError::from(error));
            },
        }
        assert(context.issued() =~= before + setup_calls(*buffer, view@, program["position"@]));
        Ok(view)
    }

    /// Clears the colour buffer to opaque black and draws the triangle.
    /// Nothing but the record of the context changes.
    pub fn draw(&mut self)
        ensures
            final(self).geometry() == old(self).geometry(),
            final(self).buffer() == old(self).buffer(),
            final(self).declared() == old(self).declared(),
            final(self).issued() == old(self).issued() + draw_calls(old(self).geometry().len()),
    {
        self.context.clear_color(0, 0, 0, 100);
        self.context.clear(ClearMask::ColorBufferBit);

        let count = (self.view.length() / 3) as i32;
        self.context.draw_arrays(DrawArrayKind::Triangles, 0, count);
        assert(final(self).issued() =~= old(self).issued() + draw_calls(
            old(self).geometry().len(),
        ));
    }
}

} // verus!
