//! The render loop: one buffer, one view and one graphics context, and a
//! triangle that is laid out again whenever the viewport changes.

use vstd::prelude::*;
use vstd::view::View as _;
use vstd::string::StringExecFns;
use super::render::api::{
    AttributeKey, AttributeSource, AttributeValue, Call, FailureView, RenderAPI, RenderApiError,
    RenderApiErrorView, UniformKey,
};
use super::render::render::{draw_calls, setup_calls};
use super::render::constants::{
    BufferKind, ClearMask, DrawArrayKind, DrawKind, HasBufferKind, ViewPrecision, buffer_kind_code,
};
use super::render::data::{DataViewError, Fixed, Float32View, View};

verus! {

/// The per-vertex inputs of the vertex shader.
#[derive(Clone, Copy, Debug)]
pub enum VertexAttributes {
    Position,
}

/// The per-draw inputs of the vertex shader.
#[derive(Clone, Copy, Debug)]
pub enum VertexUniforms {
    Resolution,
}

impl AttributeKey for VertexAttributes {
    open spec fn spec_name(&self) -> Seq<char> {
        match self {
            VertexAttributes::Position => "position"@,
        }
    }

    fn name(&self) -> (name: &str) {
        proof {
            reveal_strlit("position");
        }
        match self {
            VertexAttributes::Position => "position",
        }
    }
}

impl UniformKey for VertexUniforms {
    open spec fn spec_name(&self) -> Seq<char> {
        match self {
            VertexUniforms::Resolution => "resolution"@,
        }
    }

    fn name(&self) -> (name: &str) {
        proof {
            reveal_strlit("resolution");
        }
        match self {
            VertexUniforms::Resolution => "resolution",
        }
    }
}

/// The smaller of the two sides of a viewport.
pub open spec fn min_dim(width: int, height: int) -> int {
    if width <= height {
        width
    } else {
        height
    }
}

/// Half of what `dimension` has beyond `side`, in hundredths.
pub open spec fn padding(dimension: int, side: int) -> int {
    50 * (dimension - side)
}

/// The coordinate, in hundredths, that lies `percent` hundredths of `side`
/// into a square of that side centred in `dimension`.
pub open spec fn inset(dimension: int, side: int, percent: int) -> int {
    padding(dimension, side) + side * percent
}

/// The number of components of a triangle: three for each of three points.
pub const TRIANGLE_COMPONENTS: usize = 9;

/// The triangle for a viewport: three points of three components each, in
/// the largest square that fits the viewport, centred in it. The corners sit
/// at (0.15, 0.15), (0.85, 0.15) and (0.5, 0.85) of the square's side.
pub open spec fn spec_triangle_points(width: i32, height: i32) -> Seq<Fixed> {
    let side = min_dim(width as int, height as int);
    seq![
        inset(width as int, side, 15) as Fixed,
        inset(height as int, side, 15) as Fixed,
        0,
        inset(width as int, side, 85) as Fixed,
        inset(height as int, side, 15) as Fixed,
        0,
        inset(width as int, side, 50) as Fixed,
        inset(height as int, side, 85) as Fixed,
        0,
    ]
}

fn make_point(hr_p: Fixed, vt_p: Fixed, min_dim: Fixed, x_offset: Fixed, y_offset: Fixed) -> (point:
    [Fixed; 3])
    requires
        0 <= hr_p <= 50 * 0x1_0000_0000,
        0 <= vt_p <= 50 * 0x1_0000_0000,
        -0x8000_0000 <= min_dim < 0x8000_0000,
        0 <= x_offset <= 100,
        0 <= y_offset <= 100,
    ensures
        point[0] == hr_p + min_dim * x_offset,
        point[1] == vt_p + min_dim * y_offset,
        point[2] == 0,
{
    assert(-100 * 0x8000_0000 <= min_dim * x_offset <= 100 * 0x8000_0000) by (nonlinear_arith)
        requires
            -0x8000_0000 <= min_dim < 0x8000_0000,
            0 <= x_offset <= 100,
    ;
    assert(-100 * 0x8000_0000 <= min_dim * y_offset <= 100 * 0x8000_0000) by (nonlinear_arith)
        requires
            -0x8000_0000 <= min_dim < 0x8000_0000,
            0 <= y_offset <= 100,
    ;
    [hr_p + min_dim * x_offset, vt_p + min_dim * y_offset, 0]
}

/// Lays the triangle out for a viewport of `width` by `height` pixels.
pub fn triangle_points(width: i32, height: i32) -> (points: [Fixed; 9])
    ensures
        points@ == spec_triangle_points(width, height),
{
    let width_f: Fixed = width as Fixed;
    let height_f: Fixed = height as Fixed;
    let min_dim: Fixed = if width_f <= height_f {
        width_f
    } else {
        height_f
    };

    let hr_p: Fixed = 50 * (width_f - min_dim);
    let vt_p: Fixed = 50 * (height_f - min_dim);

    let left_p = make_point(hr_p, vt_p, min_dim, 15, 15);
    let right_p = make_point(hr_p, vt_p, min_dim, 85, 15);
    let top_p = make_point(hr_p, vt_p, min_dim, 50, 85);

    let points: [Fixed; 9] = [
        left_p[0],
        left_p[1],
        left_p[2],
        right_p[0],
        right_p[1],
        right_p[2],
        top_p[0],
        top_p[1],
        top_p[2],
    ];
    assert(points@ =~= spec_triangle_points(width, height));
    points
}

/// The larger of the two sides of a viewport.
pub open spec fn max_dim(width: int, height: int) -> int {
    if width <= height {
        height
    } else {
        width
    }
}

/// The triangle of a viewport with positive sides has three points of three
/// components each, every component lies between zero and the larger side,
/// and the mean of the three abscissas is the middle of the width.
pub proof fn lemma_triangle_points_inside(width: i32, height: i32)
    requires
        width > 0,
        height > 0,
    ensures
        spec_triangle_points(width, height).len() == 3 * 3,
        forall|i: int|
            0 <= i < 9 ==> 0 <= #[trigger] spec_triangle_points(width, height)[i] <= 100 * max_dim(
                width as int,
                height as int,
            ),
        spec_triangle_points(width, height)[0] + spec_triangle_points(width, height)[3]
            + spec_triangle_points(width, height)[6] == 3 * (50 * width),
{
}

/// Why the render loop could not be set up or resized.
#[derive(Clone, Debug, PartialEq, Eq)]
pub enum RenderLoopError {
    RenderApiError(RenderApiError),
    DataViewError(DataViewError),
}

impl vstd::view::View for RenderLoopError {
    type V = FailureView;

    open spec fn view(&self) -> FailureView {
        match self {
            RenderLoopError::RenderApiError(error) => FailureView::RenderApiError(error@),
            RenderLoopError::DataViewError(error) => FailureView::DataViewError(*error),
        }
    }
}

impl RenderLoopError {
    /// The text of the message for an error of the loop.
    pub open spec fn message(error: FailureView) -> Seq<char> {
        match error {
            FailureView::RenderApiError(error) => "render_loop RenderApiError: "@
                + error.message(),
            FailureView::DataViewError(error) => "render_loop DataViewError: "@ + error.message(),
        }
    }
}

impl From<RenderApiError> for RenderLoopError {
    fn from(error: RenderApiError) -> (wrapped: Self) {
        RenderLoopError::RenderApiError(error)
    }
}

impl vstd::std_specs::convert::FromSpecImpl<RenderApiError> for RenderLoopError {
    open spec fn obeys_from_spec() -> bool {
        true
    }

    open spec fn from_spec(error: RenderApiError) -> Self {
        RenderLoopError::RenderApiError(error)
    }
}

impl From<DataViewError> for RenderLoopError {
    fn from(error: DataViewError) -> (wrapped: Self) {
        RenderLoopError::DataViewError(error)
    }
}

impl vstd::std_specs::convert::FromSpecImpl<DataViewError> for RenderLoopError {
    open spec fn obeys_from_spec() -> bool {
        true
    }

    open spec fn from_spec(error: DataViewError) -> Self {
        RenderLoopError::DataViewError(error)
    }
}

impl RenderLoopError {
    pub fn to_string(&self) -> (text: String)
        ensures
            text@ == Self::message(self@),
    {
        match self {
            RenderLoopError::RenderApiError(error) => {
                let inner = error.to_string();
                String::from_str("render_loop RenderApiError: ").concat(inner.as_str())
            },
            RenderLoopError::DataViewError(error) => {
                let inner = error.to_string();
                String::from_str("render_loop DataViewError: ").concat(inner.as_str())
            },
        }
    }
}

/// The request that gives the resolution uniform the size of the viewport.
pub open spec fn resolution_call<B>(width: i32, height: i32) -> Call<B> {
    Call::Uniform2f {
        uniform: "resolution"@,
        x: (100 * width) as Fixed,
        y: (100 * height) as Fixed,
    }
}

/// The request that moves the viewport transform to the new size.
pub open spec fn viewport_call<B>(width: i32, height: i32) -> Call<B> {
    Call::SetViewport { x: 0, y: 0, width, height }
}

/// The request that uploads `data` into `buffer`.
pub open spec fn upload_call<B>(buffer: B, data: Seq<Fixed>) -> Call<B> {
    Call::BindBuffer { buffer, data, usage: DrawKind::StaticDraw }
}

/// What setting a loop up asks of the context once it has `buffer`: upload
/// `data` into it, wire the attribute at `position` to it and switch it on,
/// and then give the resolution uniform the size of the viewport.
pub open spec fn startup_calls<B>(
    buffer: B,
    data: Seq<Fixed>,
    position: AttributeValue,
    width: i32,
    height: i32,
) -> Seq<Call<B>> {
    setup_calls(buffer, data, position).push(resolution_call(width, height))
}

/// What a successful `update_viewport` asks of the context, for a loop that
/// owns `buffer`.
pub open spec fn resize_calls<B>(buffer: B, width: i32, height: i32) -> Seq<Call<B>> {
    seq![
        viewport_call(width, height),
        upload_call(buffer, spec_triangle_points(width, height)),
        resolution_call(width, height),
    ]
}

/// A buffer, the view that fills it, and the context that draws it.
#[derive(Debug)]
pub struct RenderLoop<R, B> {
    view: Float32View,
    buffer: B,
    context: R,
}

impl<R, B> RenderLoop<R, B> where R: RenderAPI<Buffer = B>, B: HasBufferKind {
    /// What holds of every loop that `create` made, whatever was done with
    /// it since: the view has nine components, three for each of three
    /// points, and the buffer is of the kind `ArrayBuffer`. `draw` and
    /// `update_viewport` keep it.
    pub open spec fn well_formed(self) -> bool {
        &&& self.geometry().len() == 9
        &&& self.buffer().spec_buffer_kind_constant() == buffer_kind_code(
            BufferKind::ArrayBuffer,
        )
    }

    /// The components that the view holds.
    pub closed spec fn geometry(self) -> Seq<Fixed> {
        self.view@
    }

    /// The buffer that the loop owns and uploads into.
    pub closed spec fn buffer(self) -> B {
        self.buffer
    }

    /// The requests that the context of the loop has accepted.
    pub closed spec fn issued(self) -> Seq<Call<B>> {
        self.context.issued()
    }

    /// The attributes that the program of the context declares.
    pub closed spec fn declared(self) -> Map<Seq<char>, AttributeValue> {
        self.context.declared()
    }

    /// The uniforms that the program of the context declares.
    pub closed spec fn uniforms(self) -> Set<Seq<char>> {
        self.context.uniforms()
    }

    /// What the context has been asked between `earlier` and `self`.
    pub open spec fn since(self, earlier: Self) -> Seq<Call<B>> {
        self.issued().subrange(earlier.issued().len() as int, self.issued().len() as int)
    }

    /// `next` has the buffer and the program of `self`.
    pub open spec fn same_resources(self, next: Self) -> bool {
        &&& next.buffer() == self.buffer()
        &&& next.declared() == self.declared()
        &&& next.uniforms() == self.uniforms()
    }

    /// `next` is what one `draw` makes of `self`.
    pub open spec fn drew(self, next: Self) -> bool {
        &&& self.same_resources(next)
        &&& next.geometry() == self.geometry()
        &&& next.issued() == self.issued() + draw_calls(self.geometry().len())
    }

    /// `next` is what one successful `update_viewport(width, height)` makes
    /// of `self`: the new triangle is in the view, and it was uploaded into
    /// the buffer that the loop owned before.
    pub open spec fn resized(self, next: Self, width: i32, height: i32) -> bool {
        &&& self.same_resources(next)
        &&& next.geometry() == spec_triangle_points(width, height)
        &&& next.issued() == self.issued() + resize_calls(self.buffer(), width, height)
    }

    /// `self` is the loop that is set up on `context`, once `context` has
    /// made `buffer`, for a view that shows `data`.
    pub open spec fn set_up_on(
        self,
        context: R,
        buffer: B,
        data: Seq<Fixed>,
        width: i32,
        height: i32,
    ) -> bool {
        &&& self.buffer() == buffer
        &&& self.geometry() == data
        &&& self.declared() == context.declared()
        &&& self.uniforms() == context.uniforms()
        &&& self.issued() == context.issued() + startup_calls(
            buffer,
            data,
            context.declared()["position"@],
            width,
            height,
        )
    }

    /// Sets the loop up on `context` for a viewport of `width` by `height`:
    /// makes one buffer and keeps it, uploads the triangle into it, wires
    /// the position attribute and gives the resolution uniform its first
    /// value. The first step that fails ends the attempt, and its error is
    /// the result.
    ///
    /// Whether the buffer and the view can be made is for the context and
    /// the host to say; `create_with` and `create_with_view` say what
    /// follows from each of their answers, and `set_up_with` and
    /// `set_up_with_view` say what is asked of the context on each path.
    pub fn create(context: R, width: i32, height: i32) -> (result: Result<Self, RenderLoopError>)
        ensures
            match result {
                Ok(created) => {
                    &&& created.well_formed()
                    &&& created.geometry().len() == 9
                    &&& created.geometry().len() % 3 == 0
                    &&& created.geometry() == spec_triangle_points(width, height)
                    &&& context.declared().contains_key("position"@)
                    &&& context.uniforms().contains("resolution"@)
                    &&& created.declared() == context.declared()
                    &&& created.uniforms() == context.uniforms()
                    &&& created.issued() == context.issued().push(
                        Call::CreateBuffer {
                            kind: BufferKind::ArrayBuffer,
                            buffer: created.buffer(),
                        },
                    ) + startup_calls(
                        created.buffer(),
                        spec_triangle_points(width, height),
                        context.declared()["position"@],
                        width,
                        height,
                    )
                },
                Err(error) => {
                    ||| error@ == FailureView::RenderApiError(
                        RenderApiErrorView::FailedToCreateBuffer,
                    )
                    ||| error@ == FailureView::DataViewError(
                        DataViewError::FailedToCreateMemory,
                    )
                    ||| {
                        &&& !context.declared().contains_key("position"@)
                        &&& error@ == FailureView::RenderApiError(
                            RenderApiErrorView::InvalidAttributeName("position"@),
                        )
                    }
                    ||| {
                        &&& context.declared().contains_key("position"@)
                        &&& !context.uniforms().contains("resolution"@)
                        &&& error@ == FailureView::RenderApiError(
                            RenderApiErrorView::InvalidAttributeName("resolution"@),
                        )
                    }
                },
            },
    {
        let mut context = context;
        let made = context.create_buffer(BufferKind::ArrayBuffer);
        Self::create_with(context, made, width, height)
    }

    /// Goes on with `create` once the context has answered the request for
    /// a buffer with `made`: a refusal is the result, tagged as an error of
    /// the context, and a buffer becomes the buffer of the loop. What is
    /// asked of the context on the way, and in which order, is stated by
    /// `set_up_with`, which does the work.
    pub fn create_with(
        context: R,
        made: Result<B, RenderApiError>,
        width: i32,
        height: i32,
    ) -> (result: Result<Self, RenderLoopError>)
        ensures
            match made {
                Err(refused) => match result {
                    Ok(_) => false,
                    Err(error) => error@ == FailureView::RenderApiError(refused@),
                },
                Ok(buffer) => match result {
                    Ok(created) => {
                        &&& created.set_up_on(
                            context,
                            buffer,
                            spec_triangle_points(width, height),
                            width,
                            height,
                        )
                        &&& created.geometry().len() == 9
                        &&& context.declared().contains_key("position"@)
                        &&& context.uniforms().contains("resolution"@)
                    },
                    Err(error) => {
                        ||| error@ == FailureView::DataViewError(
                            DataViewError::FailedToCreateMemory,
                        )
                        ||| {
                            &&& !context.declared().contains_key("position"@)
                            &&& error@ == FailureView::RenderApiError(
                                RenderApiErrorView::InvalidAttributeName("position"@),
                            )
                        }
                        ||| {
                            &&& context.declared().contains_key("position"@)
                            &&& !context.uniforms().contains("resolution"@)
                            &&& error@ == FailureView::RenderApiError(
                                RenderApiErrorView::InvalidAttributeName("resolution"@),
                            )
                        }
                    },
                },
            },
    {
        let mut context = context;
        match Self::set_up_with(&mut context, made, width, height) {
            Ok((buffer, view)) => Ok(RenderLoop { buffer, view, context }),
            Err(error) => Err(error),
        }
    }

    /// Goes on with `create` once the host has answered the request for a
    /// view with `viewed`: a refusal is the result, tagged as an error of
    /// the view. With a view the outcome is that of the program: a program
    /// without a `position` attribute, or else without a `resolution`
    /// uniform, gives the error that names it, and any other program gives
    /// the loop. What is asked of the context on the way is stated by
    /// `set_up_with_view`, which does the work.
    pub fn create_with_view(
        context: R,
        buffer: B,
        viewed: Result<Float32View, DataViewError>,
        width: i32,
        height: i32,
    ) -> (result: Result<Self, RenderLoopError>)
        ensures
            match viewed {
                Err(failed) => match result {
                    Ok(_) => false,
                    Err(error) => error@ == FailureView::DataViewError(failed),
                },
                Ok(view) => if !context.declared().contains_key("position"@) {
                    match result {
                        Ok(_) => false,
                        Err(error) => error@ == FailureView::RenderApiError(
                            RenderApiErrorView::InvalidAttributeName("position"@),
                        ),
                    }
                } else if !context.uniforms().contains("resolution"@) {
                    match result {
                        Ok(_) => false,
                        Err(error) => error@ == FailureView::RenderApiError(
                            RenderApiErrorView::InvalidAttributeName("resolution"@),
                        ),
                    }
                } else {
                    match result {
                        Ok(created) => created.set_up_on(context, buffer, view@, width, height),
                        Err(_) => false,
                    }
                },
            },
    {
        let mut context = context;
        match Self::set_up_with_view(&mut context, &buffer, viewed, width, height) {
            Ok(view) => Ok(RenderLoop { buffer, view, context }),
            Err(error) => Err(error),
        }
    }

    /// The steps of the set-up that follow the request for a buffer, on a
    /// context that stays with the caller, so that what was asked of it can
    /// be told on every path.
    ///
    /// After a refusal nothing is asked of the context. With a buffer, the
    /// triangle is laid out and a view is asked of the host, and
    /// `set_up_with_view` does the rest with the answer.
    pub fn set_up_with(
        context: &mut R,
        made: Result<B, RenderApiError>,
        width: i32,
        height: i32,
    ) -> (result: Result<(B, Float32View), RenderLoopError>)
        ensures
            final(context).declared() == old(context).declared(),
            final(context).uniforms() == old(context).uniforms(),
            match made {
                Err(refused) => match result {
                    Ok(_) => false,
                    Err(error) => {
                        &&& error@ == FailureView::RenderApiError(refused@)
                        &&& final(context).issued() == old(context).issued()
                    },
                },
                Ok(buffer) => match result {
                    Ok(parts) => {
                        &&& parts.0 == buffer
                        &&& parts.1@ == spec_triangle_points(width, height)
                        &&& old(context).declared().contains_key("position"@)
                        &&& old(context).uniforms().contains("resolution"@)
                        &&& final(context).issued() == old(context).issued() + startup_calls(
                            buffer,
                            spec_triangle_points(width, height),
                            old(context).declared()["position"@],
                            width,
                            height,
                        )
                    },
                    Err(error) => {
                        ||| {
                            &&& error@ == FailureView::DataViewError(
                                DataViewError::FailedToCreateMemory,
                            )
                            &&& final(context).issued() == old(context).issued()
                        }
                        ||| {
                            &&& !old(context).declared().contains_key("position"@)
                            &&& error@ == FailureView::RenderApiError(
                                RenderApiErrorView::InvalidAttributeName("position"@),
                            )
                            &&& final(context).issued() == old(context).issued().push(
                                upload_call(buffer, spec_triangle_points(width, height)),
                            )
                        }
                        ||| {
                            &&& old(context).declared().contains_key("position"@)
                            &&& !old(context).uniforms().contains("resolution"@)
                            &&& error@ == FailureView::RenderApiError(
                                RenderApiErrorView::InvalidAttributeName("resolution"@),
                            )
                            &&& final(context).issued() == old(context).issued() + setup_calls(
                                buffer,
                                spec_triangle_points(width, height),
                                old(context).declared()["position"@],
                            )
                        }
                    },
                },
            },
    {
        let buffer = match made {
            Ok(buffer) => buffer,
            Err(error) => {
                return Err(RenderLoopError::from(error));
            },
        };
        let data: [Fixed; 9] = triangle_points(width, height);
        let viewed = Float32View::create(data.as_slice());
        match Self::set_up_with_view(context, &buffer, viewed, width, height) {
            Ok(view) => Ok((buffer, view)),
            Err(error) => Err(error),
        }
    }

    /// The steps of the set-up that follow the request for a view, on a
    /// context that stays with the caller.
    ///
    /// After a refusal nothing is asked of the context. With a view, the
    /// view is uploaded into `buffer`, and the position attribute is wired
    /// and switched on; a program without a `position` attribute ends the
    /// set-up right after the upload. Then the resolution uniform is given
    /// the size of the viewport; a program without a `resolution` uniform
    /// ends the set-up there. The view comes back when every step was
    /// taken.
    pub fn set_up_with_view(
        context: &mut R,
        buffer: &B,
        viewed: Result<Float32View, DataViewError>,
        width: i32,
        height: i32,
    ) -> (result: Result<Float32View, RenderLoopError>)
        ensures
            final(context).declared() == old(context).declared(),
            final(context).uniforms() == old(context).uniforms(),
            match viewed {
                Err(failed) => match result {
                    Ok(_) => false,
                    Err(error) => {
                        &&& error@ == FailureView::DataViewError(failed)
                        &&& final(context).issued() == old(context).issued()
                    },
                },
                Ok(view) => if !old(context).declared().contains_key("position"@) {
                    match result {
                        Ok(_) => false,
                        Err(error) => {
                            &&& error@ == FailureView::RenderApiError(
                                RenderApiErrorView::InvalidAttributeName("position"@),
                            )
                            &&& final(context).issued() == old(context).issued().push(
                                upload_call(*buffer, view@),
                            )
                        },
                    }
                } else if !old(context).uniforms().contains("resolution"@) {
                    match result {
                        Ok(_) => false,
                        Err(error) => {
                            &&& error@ == FailureView::RenderApiError(
                                RenderApiErrorView::InvalidAttributeName("resolution"@),
                            )
                            &&& final(context).issued() == old(context).issued() + setup_calls(
                                *buffer,
                                view@,
                                old(context).declared()["position"@],
                            )
                        },
                    }
                } else {
                    match result {
                        Ok(kept) => {
                            &&& kept@ == view@
                            &&& final(context).issued() == old(context).issued() + startup_calls(
                                *buffer,
                                view@,
                                old(context).declared()["position"@],
                                width,
                                height,
                            )
                        },
                        Err(_) => false,
                    }
                },
            },
    {
        let ghost before = context.issued();
        let ghost program = context.declared();
        let view = match viewed {
            Ok(view) => view,
            Err(error) => {
                return Err(RenderLoopError::from(error));
            },
        };
        context.bind_buffer(buffer, &view, DrawKind::StaticDraw);

        let position = VertexAttributes::Position;
        let precision = view.get_precision();
        match context.vertex_attrib_pointer_with_i32(position, 3, precision, false, 0, 0) {
            Ok(()) => {},
            Err(error) => {
                return Err(RenderLoopError::from(error));
            },
        }
        match context.enable_vertex_attrib_array(position) {
            Ok(()) => {},
            Err(error) => {
                return Err(RenderLoopError::from(error));
            },
        }
        assert(context.issued() =~= before + setup_calls(*buffer, view@, program["position"@]));

        let resolution = VertexUniforms::Resolution;
        match context.uniform2f(resolution, 100 * (width as Fixed), 100 * (height as Fixed)) {
            Ok(()) => {},
            Err(error) => {
                return Err(RenderLoopError::from(error));
            },
        }
        assert(context.issued() =~= before + startup_calls(
            *buffer,
            view@,
            program["position"@],
            width,
            height,
        ));
        Ok(view)
    }

    /// Clears the colour buffer to opaque black and draws the triangle.
    /// Nothing but the record of the context changes.
    pub fn draw(&mut self)
        ensures
            old(self).drew(*final(self)),
    {
        self.context.clear_color(0, 0, 0, 100);
        self.context.clear(ClearMask::ColorBufferBit);

        let count = (self.view.length() / 3) as i32;
        self.context.draw_arrays(DrawArrayKind::Triangles, 0, count);
        assert(final(self).issued() =~= old(self).issued() + draw_calls(
            old(self).geometry().len(),
        ));
    }

    /// Lays the triangle out for a viewport of `width` by `height`, moves
    /// the viewport transform, uploads the triangle into the buffer that the
    /// loop owns and gives the resolution uniform its new value. No buffer
    /// is made.
    ///
    /// A failure leaves the loop usable. If the view could not be re-aimed,
    /// which is for the host to say, only the viewport transform has moved.
    /// If the program declares no `resolution` uniform, the new triangle is
    /// already in place. `update_viewport_with` says which of the three
    /// comes from which answer of the host.
    pub fn update_viewport(&mut self, width: i32, height: i32) -> (result: Result<
        (),
        RenderLoopError,
    >)
        ensures
            old(self).same_resources(*final(self)),
            old(self).well_formed() ==> final(self).well_formed(),
            match result {
                Ok(()) => {
                    &&& old(self).uniforms().contains("resolution"@)
                    &&& old(self).resized(*final(self), width, height)
                    &&& final(self).geometry().len() == 9
                    &&& final(self).geometry().len() % 3 == 0
                },
                Err(error) => {
                    ||| {
                        &&& error@ == FailureView::DataViewError(
                            DataViewError::FailedToCreateMemory,
                        )
                        &&& final(self).geometry() == old(self).geometry()
                        &&& final(self).issued() == old(self).issued().push(
                            viewport_call(width, height),
                        )
                    }
                    ||| {
                        &&& !old(self).uniforms().contains("resolution"@)
                        &&& error@ == FailureView::RenderApiError(
                            RenderApiErrorView::InvalidAttributeName("resolution"@),
                        )
                        &&& final(self).geometry() == spec_triangle_points(width, height)
                        &&& final(self).issued() == old(self).issued().push(
                            viewport_call(width, height),
                        ).push(
                            upload_call(old(self).buffer(), spec_triangle_points(width, height)),
                        )
                    }
                },
            },
    {
        let storage = Float32View::reserve(TRIANGLE_COMPONENTS);
        self.update_viewport_with(storage, width, height)
    }

    /// Goes on with `update_viewport` once the host has answered the request
    /// for memory for the new view. The viewport transform is moved in any
    /// case. Without `storage` that is all, and the result is the error of
    /// the view. With it the view is aimed at the new triangle, which is
    /// uploaded into the buffer of the loop; then a program with a
    /// `resolution` uniform gets the new size and the result is `Ok`, and a
    /// program without one gives the error that names it.
    pub fn update_viewport_with(
        &mut self,
        storage: Option<Vec<Fixed>>,
        width: i32,
        height: i32,
    ) -> (result: Result<(), RenderLoopError>)
        ensures
            old(self).same_resources(*final(self)),
            old(self).well_formed() ==> final(self).well_formed(),
            match storage {
                None => match result {
                    Ok(()) => false,
                    Err(error) => {
                        &&& error@ == FailureView::DataViewError(
                            DataViewError::FailedToCreateMemory,
                        )
                        &&& final(self).geometry() == old(self).geometry()
                        &&& final(self).issued() == old(self).issued().push(
                            viewport_call(width, height),
                        )
                    },
                },
                Some(_) => if old(self).uniforms().contains("resolution"@) {
                    match result {
                        Ok(()) => old(self).resized(*final(self), width, height),
                        Err(_) => false,
                    }
                } else {
                    match result {
                        Ok(()) => false,
                        Err(error) => {
                            &&& error@ == FailureView::RenderApiError(
                                RenderApiErrorView::InvalidAttributeName("resolution"@),
                            )
                            &&& final(self).geometry() == spec_triangle_points(width, height)
                            &&& final(self).issued() == old(self).issued().push(
                                viewport_call(width, height),
                            ).push(
                                upload_call(
                                    old(self).buffer(),
                                    spec_triangle_points(width, height),
                                ),
                            )
                        },
                    }
                },
            },
    {
        let data = triangle_points(width, height);

        self.context.set_viewport(0, 0, width, height);
        match self.view.update_from_storage(storage, data.as_slice()) {
            Ok(()) => {},
            Err(error) => {
                return Err(RenderLoopError::from(error));
            },
        }
        self.context.bind_buffer(&self.buffer, &self.view, DrawKind::StaticDraw);

        let resolution = VertexUniforms::Resolution;
        match self.context.uniform2f(resolution, 100 * (width as Fixed), 100 * (height as Fixed)) {
            Ok(()) => {},
            Err(error) => {
                return Err(RenderLoopError::from(error));
            },
        }
        assert(final(self).issued() =~= old(self).issued() + resize_calls(
            old(self).buffer(),
            width,
            height,
        ));
        Ok(())
    }
}

/// Drawing changes neither the view nor the buffer, and a second `draw`
/// asks of the context exactly what the first one asked.
pub proof fn lemma_draw_repeats<R, B>(
    start: RenderLoop<R, B>,
    once: RenderLoop<R, B>,
    twice: RenderLoop<R, B>,
) where R: RenderAPI<Buffer = B>, B: HasBufferKind
    requires
        start.drew(once),
        once.drew(twice),
    ensures
        twice.geometry() == start.geometry(),
        twice.buffer() == start.buffer(),
        once.since(start) == draw_calls::<B>(start.geometry().len()),
        twice.since(once) == once.since(start),
{
    assert(once.since(start) =~= draw_calls::<B>(start.geometry().len()));
    assert(twice.since(once) =~= draw_calls::<B>(once.geometry().len()));
}

/// Resizing twice to the same size uploads the same triangle into the same
/// buffer and gives the resolution uniform the same value both times: the
/// second call asks of the context exactly what the first one asked, and
/// leaves the same view.
pub proof fn lemma_update_viewport_idempotent<R, B>(
    start: RenderLoop<R, B>,
    once: RenderLoop<R, B>,
    twice: RenderLoop<R, B>,
    width: i32,
    height: i32,
) where R: RenderAPI<Buffer = B>, B: HasBufferKind
    requires
        start.resized(once, width, height),
        once.resized(twice, width, height),
    ensures
        twice.geometry() == once.geometry(),
        twice.buffer() == start.buffer(),
        twice.since(once) == once.since(start),
        twice.since(once)[1] == upload_call(start.buffer(), spec_triangle_points(width, height)),
        twice.since(once)[2] == resolution_call::<B>(width, height),
{
    assert(once.since(start) =~= resize_calls(start.buffer(), width, height));
    assert(twice.since(once) =~= resize_calls(once.buffer(), width, height));
}

/// Drawing and resizing keep a loop well-formed: its view still has nine
/// components, a whole number of points, and its buffer is the one it had,
/// of the kind `ArrayBuffer`.
pub proof fn lemma_well_formed_is_kept<R, B>(
    before: RenderLoop<R, B>,
    after: RenderLoop<R, B>,
    width: i32,
    height: i32,
) where R: RenderAPI<Buffer = B>, B: HasBufferKind
    requires
        before.well_formed(),
        before.drew(after) || before.resized(after, width, height),
    ensures
        after.well_formed(),
        after.geometry().len() == 9,
        after.geometry().len() % 3 == 0,
        after.buffer() == before.buffer(),
{
}

/// Neither drawing nor resizing makes a buffer.
pub proof fn lemma_no_buffer_is_made<R, B>(
    before: RenderLoop<R, B>,
    after: RenderLoop<R, B>,
    width: i32,
    height: i32,
) where R: RenderAPI<Buffer = B>, B: HasBufferKind
    requires
        before.drew(after) || before.resized(after, width, height),
    ensures
        forall|i: int|
            0 <= i < after.since(before).len() ==> !(#[trigger] after.since(before)[i]
                is CreateBuffer),
{
    if before.drew(after) {
        assert(after.since(before) =~= draw_calls::<B>(before.geometry().len()));
    } else {
        assert(after.since(before) =~= resize_calls(before.buffer(), width, height));
    }
}

/// A well-formed loop draws exactly three vertices.
pub proof fn lemma_well_formed_draws_three_vertices<R, B>(
    before: RenderLoop<R, B>,
    after: RenderLoop<R, B>,
) where R: RenderAPI<Buffer = B>, B: HasBufferKind
    requires
        before.well_formed(),
        before.drew(after),
    ensures
        after.since(before) == seq![
            Call::<B>::ClearColor { red: 0, green: 0, blue: 0, alpha: 100 },
            Call::<B>::Clear { mask: ClearMask::ColorBufferBit },
            Call::<B>::DrawArrays { mode: DrawArrayKind::Triangles, first: 0, count: 3 },
        ],
{
    assert(after.since(before) =~= draw_calls::<B>(before.geometry().len()));
}

} // verus!
