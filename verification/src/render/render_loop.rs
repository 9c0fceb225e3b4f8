//! A render loop for a fixed picture.

use vstd::prelude::*;
use vstd::view::View as _;
use vstd::string::StringExecFns;
use super::api::{
    AttributeSource, AttributeValue, Call, FailureView, RenderAPI, RenderApiError,
    RenderApiErrorView,
};
use super::constants::{BufferKind, HasBufferKind, buffer_kind_code};
use super::data::{DataViewError, Fixed};
use super::render::{draw_calls, fixed_triangle, setup_calls, Render, RenderInitialisationError};

verus! {

/// Why a render loop could not be set up.
#[derive(Clone, Debug, PartialEq, Eq)]
pub enum RenderLoopInitError {
    RenderApiError(RenderApiError),
    DataViewError(DataViewError),
}

impl vstd::view::View for RenderLoopInitError {
    type V = FailureView;

    open spec fn view(&self) -> FailureView {
        match self {
            RenderLoopInitError::RenderApiError(error) => FailureView::RenderApiError(error@),
            RenderLoopInitError::DataViewError(error) => FailureView::DataViewError(*error),
        }
    }
}

impl From<RenderApiError> for RenderLoopInitError {
    fn from(error: RenderApiError) -> (wrapped: Self) {
        RenderLoopInitError::RenderApiError(error)
    }
}

impl vstd::std_specs::convert::FromSpecImpl<RenderApiError> for RenderLoopInitError {
    open spec fn obeys_from_spec() -> bool {
        true
    }

    open spec fn from_spec(error: RenderApiError) -> Self {
        RenderLoopInitError::RenderApiError(error)
    }
}

impl From<DataViewError> for RenderLoopInitError {
    fn from(error: DataViewError) -> (wrapped: Self) {
        RenderLoopInitError::DataViewError(error)
    }
}

impl vstd::std_specs::convert::FromSpecImpl<DataViewError> for RenderLoopInitError {
    open spec fn obeys_from_spec() -> bool {
        true
    }

    open spec fn from_spec(error: DataViewError) -> Self {
        RenderLoopInitError::DataViewError(error)
    }
}

impl RenderLoopInitError {
    /// The text of the message for an error of the set-up.
    pub open spec fn message(error: FailureView) -> Seq<char> {
        match error {
            FailureView::RenderApiError(error) => "RenderApiError: "@ + error.message(),
            FailureView::DataViewError(error) => "DataViewError: "@ + error.message(),
        }
    }

    pub fn to_string(self) -> (text: String)
        ensures
            text@ == Self::message(self@),
    {
        match self {
            RenderLoopInitError::RenderApiError(error) => {
                let inner = error.to_string();
                String::from_str("RenderApiError: ").concat(inner.as_str())
            },
            RenderLoopInitError::DataViewError(error) => {
                let inner = error.to_string();
                String::from_str("DataViewError: ").concat(inner.as_str())
            },
        }
    }
}

/// A `Render` that is driven frame by frame.
#[derive(Debug)]
pub struct RenderLoop<R, B> {
    render: Render<R, B>,
}

impl<R, B> RenderLoop<R, B> where R: RenderAPI<Buffer = B>, B: HasBufferKind {
    /// The `Render` that the loop drives.
    pub closed spec fn render(self) -> Render<R, B> {
        self.render
    }

    /// The requests that the context of the loop has accepted.
    pub open spec fn issued(self) -> Seq<Call<B>> {
        self.render().issued()
    }

    /// The components that the view holds.
    pub open spec fn geometry(self) -> Seq<Fixed> {
        self.render().geometry()
    }

    /// The buffer that the loop owns.
    pub open spec fn buffer(self) -> B {
        self.render().buffer()
    }

    /// Sets a `Render` up on `context` and wraps it. An error keeps its
    /// family and its cause.
    ///
    /// Whether the buffer and the view can be made is for the context and
    /// the host to say; `from_render` says what follows from each outcome
    /// of the set-up.
    pub fn create(context: R) -> (result: Result<Self, RenderLoopInitError>)
        ensures
            match result {
                Ok(created) => {
                    &&& created.geometry() == fixed_triangle()
                    &&& created.buffer().spec_buffer_kind_constant() == buffer_kind_code(
                        BufferKind::ArrayBuffer,
                    )
                    &&& context.declared().contains_key("position"@)
                    &&& created.issued() == context.issued().push(
                        Call::CreateBuffer {
                            kind: BufferKind::ArrayBuffer,
                            buffer: created.buffer(),
                        },
                    ) + setup_calls(
                        created.buffer(),
                        fixed_triangle(),
                        context.declared()["position"@],
                    )
                },
                Err(error) => {
                    ||| error@ == FailureView::RenderApiError(
                        RenderApiErrorView::FailedToCreateBuffer,
                    )
                    ||| error@ == FailureView::DataViewError(DataViewError::FailedToCreateMemory)
                    ||| {
                        &&& !context.declared().contains_key("position"@)
                        &&& error@ == FailureView::RenderApiError(
                            RenderApiErrorView::InvalidAttributeName("position"@),
                        )
                    }
                },
            },
    {
        Self::from_render(Render::create(context))
    }

    /// Wraps the outcome of setting a `Render` up: a `Render` becomes the
    /// loop that drives it, and an error becomes the error of the loop with
    /// the same family and the same cause.
    pub fn from_render(made: Result<Render<R, B>, RenderInitialisationError>) -> (result: Result<
        Self,
        RenderLoopInitError,
    >)
        ensures
            match made {
                Ok(render) => match result {
                    Ok(created) => created.render() == render,
                    Err(_) => false,
                },
                Err(failed) => match result {
                    Ok(_) => false,
                    Err(error) => error@ == failed@,
                },
            },
    {
        match made {
            Ok(render) => Ok(RenderLoop { render }),
            Err(RenderInitialisationError::RenderApiError(error)) => Err(
                RenderLoopInitError::from(error),
            ),
            Err(RenderInitialisationError::DataViewError(error)) => Err(
                RenderLoopInitError::from(error),
            ),
        }
    }

    /// Clears the colour buffer to opaque black and draws the triangle.
    /// Nothing but the record of the context changes.
    pub fn draw(&mut self)
        ensures
            final(self).geometry() == old(self).geometry(),
            final(self).buffer() == old(self).buffer(),
            final(self).issued() == old(self).issued() + draw_calls(old(self).geometry().len()),
    {
        self.render.draw();
    }
}

} // verus!
