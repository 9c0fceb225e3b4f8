use std::cell::{Cell, RefCell};
use std::rc::Rc;

use runtime::render::api::{
    attribute_from_location, uniform_from_location, AttributeKey, AttributeSource,
    AttributeValue, IntoAttributeValue, RenderAPI, RenderApiError, UniformKey,
};
use runtime::render::constants::{
    BufferKind, ClearMask, DrawArrayKind, DrawKind, HasBufferKind, HasClearMaskKind,
    HasDrawArrayKind, HasDrawKind, HasViewPrecision, ViewPrecision,
};
use runtime::render::data::{DataViewError, Fixed, Float32View, View};
use runtime::render::render::{Attributes, Render, RenderInitialisationError};
use runtime::render::render_loop::{RenderLoop as FixedRenderLoop, RenderLoopInitError};
use runtime::render_loop::{
    triangle_points, RenderLoop, RenderLoopError, VertexAttributes, VertexUniforms,
};

/// What a context was asked, in the numbers it would hand to the driver.
#[derive(Clone, Debug, PartialEq, Eq)]
enum Request {
    CreateBuffer { target: u32, buffer: u32 },
    BindBuffer { target: u32, buffer: u32, data: Vec<Fixed>, usage: u32 },
    VertexAttribPointer {
        index: u32,
        size: i32,
        precision: u32,
        normalized: bool,
        stride: i32,
        offset: i32,
    },
    EnableVertexAttribArray { index: u32 },
    ClearColor { red: Fixed, green: Fixed, blue: Fixed, alpha: Fixed },
    Clear { mask: u32 },
    DrawArrays { mode: u32, first: i32, count: i32 },
    Viewport { x: i32, y: i32, width: i32, height: i32 },
    Uniform2f { uniform: String, x: Fixed, y: Fixed },
}

struct Tape {
    requests: RefCell<Vec<Request>>,
    buffers: Cell<u32>,
    uniforms: RefCell<Vec<&'static str>>,
}

impl Tape {
    fn taken(&self) -> Vec<Request> {
        self.requests.borrow().clone()
    }

    fn since(&self, mark: usize) -> Vec<Request> {
        self.requests.borrow()[mark..].to_vec()
    }

    fn mark(&self) -> usize {
        self.requests.borrow().len()
    }
}

/// A context that answers from a table and writes down what it is asked.
struct Recorder {
    attributes: Vec<(&'static str, u32)>,
    refuses_buffers: bool,
    tape: Rc<Tape>,
}

#[derive(Debug, PartialEq, Eq)]
struct RecordedBuffer {
    kind: BufferKind,
    id: u32,
}

impl HasBufferKind for RecordedBuffer {
    fn buffer_kind_constant(&self) -> u32 {
        self.kind.buffer_kind_constant()
    }
}

impl Recorder {
    fn new(attributes: &[(&'static str, u32)], uniforms: &[&'static str]) -> (Recorder, Rc<Tape>) {
        let tape = Rc::new(Tape {
            requests: RefCell::new(Vec::new()),
            buffers: Cell::new(0),
            uniforms: RefCell::new(uniforms.to_vec()),
        });
        let recorder = Recorder {
            attributes: attributes.to_vec(),
            refuses_buffers: false,
            tape: Rc::clone(&tape),
        };
        (recorder, tape)
    }

    fn complete() -> (Recorder, Rc<Tape>) {
        Recorder::new(&[("position", 7)], &["resolution"])
    }

    fn record(&mut self, request: Request) {
        self.tape.requests.borrow_mut().push(request);
    }
}

impl AttributeSource for Recorder {
    fn get_attribute<AK>(&self, key: AK) -> Result<AttributeValue, RenderApiError>
    where
        AK: AttributeKey,
    {
        let name = key.name();
        let location = self
            .attributes
            .iter()
            .find(|(declared, _)| *declared == name)
            .map_or(-1, |(_, location)| *location as i32);
        attribute_from_location(location, name)
    }
}

impl RenderAPI for Recorder {
    type Buffer = RecordedBuffer;

    fn create_buffer(&mut self, kind: BufferKind) -> Result<RecordedBuffer, RenderApiError> {
        if self.refuses_buffers {
            return Err(RenderApiError::FailedToCreateBuffer);
        }
        let id = self.tape.buffers.get();
        self.tape.buffers.set(id + 1);
        self.record(Request::CreateBuffer { target: kind.buffer_kind_constant(), buffer: id });
        Ok(RecordedBuffer { kind, id })
    }

    fn bind_buffer<V>(&mut self, buffer: &RecordedBuffer, view: &V, draw_kind: DrawKind)
    where
        V: View,
    {
        self.record(Request::BindBuffer {
            target: buffer.buffer_kind_constant(),
            buffer: buffer.id,
            data: view.object().to_vec(),
            usage: draw_kind.draw_kind_constant(),
        });
    }

    fn vertex_attrib_pointer_with_i32<A>(
        &mut self,
        key: A,
        size: i32,
        precision: ViewPrecision,
        normalized: bool,
        stride: i32,
        offset: i32,
    ) -> Result<(), RenderApiError>
    where
        A: IntoAttributeValue,
    {
        let index = key.with_context(&*self)?;
        self.record(Request::VertexAttribPointer {
            index,
            size,
            precision: precision.view_precision_constant(),
            normalized,
            stride,
            offset,
        });
        Ok(())
    }

    fn enable_vertex_attrib_array<A>(&mut self, key: A) -> Result<(), RenderApiError>
    where
        A: IntoAttributeValue,
    {
        let index = key.with_context(&*self)?;
        self.record(Request::EnableVertexAttribArray { index });
        Ok(())
    }

    fn clear_color(&mut self, red: Fixed, green: Fixed, blue: Fixed, alpha: Fixed) {
        self.record(Request::ClearColor { red, green, blue, alpha });
    }

    fn clear(&mut self, mask: ClearMask) {
        self.record(Request::Clear { mask: mask.clear_mask_constant() });
    }

    fn draw_arrays(&mut self, mode: DrawArrayKind, first: i32, count: i32) {
        self.record(Request::DrawArrays { mode: mode.draw_array_kind_constant(), first, count });
    }

    fn set_viewport(&mut self, x: i32, y: i32, width: i32, height: i32) {
        self.record(Request::Viewport { x, y, width, height });
    }

    fn uniform2f<U>(&mut self, key: U, x: Fixed, y: Fixed) -> Result<(), RenderApiError>
    where
        U: UniformKey,
    {
        let name = key.name();
        let declared = self.tape.uniforms.borrow().iter().position(|uniform| *uniform == name);
        uniform_from_location(declared, name)?;
        self.record(Request::Uniform2f { uniform: name.to_string(), x, y });
        Ok(())
    }
}

fn made() -> Request {
    Request::CreateBuffer { target: 34962, buffer: 0 }
}

fn upload(width: i32, height: i32) -> Request {
    Request::BindBuffer {
        target: 34962,
        buffer: 0,
        data: triangle_points(width, height).to_vec(),
        usage: 35044,
    }
}

fn resolution(width: i32, height: i32) -> Request {
    Request::Uniform2f {
        uniform: "resolution".to_string(),
        x: 100 * Fixed::from(width),
        y: 100 * Fixed::from(height),
    }
}

fn drawing() -> Vec<Request> {
    vec![
        Request::ClearColor { red: 0, green: 0, blue: 0, alpha: 100 },
        Request::Clear { mask: 16384 },
        Request::DrawArrays { mode: 4, first: 0, count: 3 },
    ]
}

fn lost_uniform() -> RenderLoopError {
    RenderLoopError::RenderApiError(RenderApiError::InvalidAttributeName(
        "resolution".to_string(),
    ))
}

#[test]
fn key_names() {
    assert_eq!(VertexAttributes::Position.name(), "position");
    assert_eq!(VertexUniforms::Resolution.name(), "resolution");
    assert_eq!(Attributes::Position.name(), "position");
}

#[test]
fn key_names_are_not_empty() {
    assert!(!VertexAttributes::Position.name().is_empty());
    assert!(!VertexUniforms::Resolution.name().is_empty());
    assert!(!Attributes::Position.name().is_empty());
}

#[test]
fn declared_key_resolves_to_its_location() {
    let (recorder, _) = Recorder::complete();
    assert_eq!(recorder.get_attribute(VertexAttributes::Position), Ok(7));
    assert_eq!(VertexAttributes::Position.with_context(&recorder), Ok(7));
}

#[test]
fn undeclared_key_is_an_invalid_attribute_name() {
    let (recorder, _) = Recorder::new(&[("colour", 0)], &["resolution"]);
    let missing = Err(RenderApiError::InvalidAttributeName("position".to_string()));
    assert_eq!(recorder.get_attribute(VertexAttributes::Position), missing);
    assert_eq!(VertexAttributes::Position.with_context(&recorder), missing);
}

#[test]
fn location_resolves_to_itself() {
    let (recorder, _) = Recorder::new(&[], &[]);
    assert_eq!(3u32.with_context(&recorder), Ok(3));
    assert_eq!(0u32.with_context(&recorder), Ok(0));
    assert_eq!(u32::MAX.with_context(&recorder), Ok(u32::MAX));
}

#[test]
fn location_and_key_wire_the_same_attribute() {
    let (mut recorder, tape) = Recorder::complete();
    let position = VertexAttributes::Position;
    recorder
        .vertex_attrib_pointer_with_i32(position, 3, ViewPrecision::Float, false, 0, 0)
        .unwrap();
    recorder.vertex_attrib_pointer_with_i32(7u32, 3, ViewPrecision::Float, false, 0, 0).unwrap();
    let taken = tape.taken();
    assert_eq!(taken.len(), 2);
    assert_eq!(taken[0], taken[1]);
}

#[test]
fn negative_location_is_an_invalid_attribute_name() {
    assert_eq!(
        attribute_from_location(-1, "position"),
        Err(RenderApiError::InvalidAttributeName("position".to_string()))
    );
    assert_eq!(
        attribute_from_location(i32::MIN, "a"),
        Err(RenderApiError::InvalidAttributeName("a".to_string()))
    );
}

#[test]
fn location_from_zero_up_is_kept() {
    assert_eq!(attribute_from_location(0, "position"), Ok(0));
    assert_eq!(attribute_from_location(12, "position"), Ok(12));
    assert_eq!(attribute_from_location(i32::MAX, "position"), Ok(2147483647));
}

#[test]
fn missing_uniform_is_an_invalid_attribute_name() {
    assert_eq!(
        uniform_from_location(None::<u8>, "resolution"),
        Err(RenderApiError::InvalidAttributeName("resolution".to_string()))
    );
    assert_eq!(uniform_from_location(Some(4u8), "resolution"), Ok(4));
}

#[test]
fn create_uploads_wires_and_sets_the_resolution() {
    let (recorder, tape) = Recorder::complete();
    assert!(RenderLoop::create(recorder, 200, 100).is_ok());
    assert_eq!(
        tape.taken(),
        vec![
            Request::CreateBuffer { target: 34962, buffer: 0 },
            Request::BindBuffer {
                target: 34962,
                buffer: 0,
                data: vec![6500, 1500, 0, 13500, 1500, 0, 10000, 8500, 0],
                usage: 35044,
            },
            Request::VertexAttribPointer {
                index: 7,
                size: 3,
                precision: 5126,
                normalized: false,
                stride: 0,
                offset: 0,
            },
            Request::EnableVertexAttribArray { index: 7 },
            Request::Uniform2f { uniform: "resolution".to_string(), x: 20000, y: 10000 },
        ]
    );
    assert_eq!(tape.buffers.get(), 1);
}

#[test]
fn create_uploads_nine_components() {
    let (recorder, tape) = Recorder::complete();
    assert!(RenderLoop::create(recorder, 640, 480).is_ok());
    match &tape.taken()[1] {
        Request::BindBuffer { data, .. } => {
            assert_eq!(data.len(), 9);
            assert_eq!(data.len() % 3, 0);
        }
        other => panic!("expected an upload, got {:?}", other),
    }
}

#[test]
fn create_fails_when_the_buffer_is_refused() {
    let (mut recorder, tape) = Recorder::complete();
    recorder.refuses_buffers = true;
    let error = RenderLoop::create(recorder, 100, 100).err();
    assert_eq!(
        error,
        Some(RenderLoopError::RenderApiError(RenderApiError::FailedToCreateBuffer))
    );
    assert_eq!(tape.taken(), vec![]);
}

#[test]
fn create_fails_when_the_position_is_not_declared() {
    let (recorder, tape) = Recorder::new(&[], &["resolution"]);
    let error = RenderLoop::create(recorder, 100, 100).err();
    assert_eq!(
        error,
        Some(RenderLoopError::RenderApiError(RenderApiError::InvalidAttributeName(
            "position".to_string()
        )))
    );
    assert_eq!(tape.taken(), vec![made(), upload(100, 100)]);
}

#[test]
fn create_fails_when_the_resolution_is_not_declared() {
    let (recorder, tape) = Recorder::new(&[("position", 0)], &[]);
    let error = RenderLoop::create(recorder, 100, 100).err();
    assert_eq!(error, Some(lost_uniform()));
    assert_eq!(tape.taken().len(), 4);
}

#[test]
fn draw_clears_to_opaque_black_and_draws_three_vertices() {
    let (recorder, tape) = Recorder::complete();
    let mut render_loop = RenderLoop::create(recorder, 100, 100).unwrap();
    let mark = tape.mark();
    render_loop.draw();
    assert_eq!(tape.since(mark), drawing());
}

#[test]
fn draw_asks_the_same_every_time() {
    let (recorder, tape) = Recorder::complete();
    let mut render_loop = RenderLoop::create(recorder, 320, 200).unwrap();
    let mark = tape.mark();
    render_loop.draw();
    let first = tape.since(mark);
    let mark = tape.mark();
    render_loop.draw();
    let second = tape.since(mark);
    let mark = tape.mark();
    render_loop.draw();
    let third = tape.since(mark);
    assert_eq!(first, drawing());
    assert_eq!(second, first);
    assert_eq!(third, first);
}

#[test]
fn draw_leaves_the_uploaded_triangle_alone() {
    let (recorder, tape) = Recorder::complete();
    let mut render_loop = RenderLoop::create(recorder, 320, 200).unwrap();
    render_loop.draw();
    render_loop.draw();
    let uploads = tape
        .taken()
        .into_iter()
        .filter(|request| matches!(request, Request::BindBuffer { .. }))
        .count();
    assert_eq!(uploads, 1);
    assert_eq!(tape.buffers.get(), 1);
}

#[test]
fn update_viewport_moves_uploads_and_sets_the_resolution() {
    let (recorder, tape) = Recorder::complete();
    let mut render_loop = RenderLoop::create(recorder, 100, 100).unwrap();
    let mark = tape.mark();
    assert_eq!(render_loop.update_viewport(200, 100), Ok(()));
    assert_eq!(
        tape.since(mark),
        vec![
            Request::Viewport { x: 0, y: 0, width: 200, height: 100 },
            Request::BindBuffer {
                target: 34962,
                buffer: 0,
                data: vec![6500, 1500, 0, 13500, 1500, 0, 10000, 8500, 0],
                usage: 35044,
            },
            Request::Uniform2f { uniform: "resolution".to_string(), x: 20000, y: 10000 },
        ]
    );
}

#[test]
fn update_viewport_keeps_the_buffer() {
    let (recorder, tape) = Recorder::complete();
    let mut render_loop = RenderLoop::create(recorder, 100, 100).unwrap();
    render_loop.update_viewport(300, 200).unwrap();
    render_loop.update_viewport(50, 60).unwrap();
    assert_eq!(tape.buffers.get(), 1);
}

#[test]
fn update_viewport_twice_asks_the_same_twice() {
    let (recorder, tape) = Recorder::complete();
    let mut render_loop = RenderLoop::create(recorder, 100, 100).unwrap();
    let mark = tape.mark();
    render_loop.update_viewport(640, 480).unwrap();
    let first = tape.since(mark);
    let mark = tape.mark();
    render_loop.update_viewport(640, 480).unwrap();
    let second = tape.since(mark);
    assert_eq!(first.len(), 3);
    assert_eq!(first[1], upload(640, 480));
    assert_eq!(first[2], resolution(640, 480));
    assert_eq!(second, first);
}

#[test]
fn draw_after_update_viewport_still_draws_three_vertices() {
    let (recorder, tape) = Recorder::complete();
    let mut render_loop = RenderLoop::create(recorder, 100, 100).unwrap();
    render_loop.update_viewport(1920, 1080).unwrap();
    let mark = tape.mark();
    render_loop.draw();
    assert_eq!(tape.since(mark), drawing());
}

#[test]
fn update_viewport_fails_when_the_resolution_is_lost() {
    let (recorder, tape) = Recorder::complete();
    let mut render_loop = RenderLoop::create(recorder, 100, 100).unwrap();
    tape.uniforms.borrow_mut().clear();
    let mark = tape.mark();
    assert_eq!(render_loop.update_viewport(200, 100), Err(lost_uniform()));
    assert_eq!(
        tape.since(mark),
        vec![Request::Viewport { x: 0, y: 0, width: 200, height: 100 }, upload(200, 100)]
    );
}

#[test]
fn loop_is_usable_after_a_failed_update() {
    let (recorder, tape) = Recorder::complete();
    let mut render_loop = RenderLoop::create(recorder, 100, 100).unwrap();
    tape.uniforms.borrow_mut().clear();
    assert!(render_loop.update_viewport(200, 100).is_err());
    tape.uniforms.borrow_mut().push("resolution");
    let mark = tape.mark();
    render_loop.draw();
    assert_eq!(tape.since(mark), drawing());
    let mark = tape.mark();
    assert_eq!(render_loop.update_viewport(300, 300), Ok(()));
    assert_eq!(
        tape.since(mark),
        vec![
            Request::Viewport { x: 0, y: 0, width: 300, height: 300 },
            upload(300, 300),
            resolution(300, 300),
        ]
    );
}

#[test]
fn render_uploads_the_fixed_triangle_and_wires_it() {
    let (recorder, tape) = Recorder::new(&[("position", 2)], &[]);
    assert!(Render::create(recorder).is_ok());
    assert_eq!(
        tape.taken(),
        vec![
            Request::CreateBuffer { target: 34962, buffer: 0 },
            Request::BindBuffer {
                target: 34962,
                buffer: 0,
                data: vec![-70, -70, 0, 70, -70, 0, 0, 70, 0],
                usage: 35044,
            },
            Request::VertexAttribPointer {
                index: 2,
                size: 3,
                precision: 5126,
                normalized: false,
                stride: 0,
                offset: 0,
            },
            Request::EnableVertexAttribArray { index: 2 },
        ]
    );
}

#[test]
fn render_draws_three_vertices() {
    let (recorder, tape) = Recorder::new(&[("position", 2)], &[]);
    let mut render = Render::create(recorder).unwrap();
    let mark = tape.mark();
    render.draw();
    render.draw();
    let mut twice = drawing();
    twice.extend(drawing());
    assert_eq!(tape.since(mark), twice);
}

#[test]
fn render_fails_when_the_buffer_is_refused() {
    let (mut recorder, _) = Recorder::complete();
    recorder.refuses_buffers = true;
    assert_eq!(
        Render::create(recorder).err(),
        Some(RenderInitialisationError::RenderApiError(RenderApiError::FailedToCreateBuffer))
    );
}

#[test]
fn render_fails_when_the_position_is_not_declared() {
    let (recorder, _) = Recorder::new(&[("normal", 1)], &[]);
    assert_eq!(
        Render::create(recorder).err(),
        Some(RenderInitialisationError::RenderApiError(RenderApiError::InvalidAttributeName(
            "position".to_string()
        )))
    );
}

#[test]
fn fixed_loop_sets_up_and_draws_like_a_render() {
    let (recorder, tape) = Recorder::new(&[("position", 2)], &[]);
    let mut fixed = FixedRenderLoop::create(recorder).unwrap();
    assert_eq!(tape.taken().len(), 4);
    assert_eq!(tape.taken()[0], made());
    assert_eq!(
        tape.taken()[1],
        Request::BindBuffer {
            target: 34962,
            buffer: 0,
            data: vec![-70, -70, 0, 70, -70, 0, 0, 70, 0],
            usage: 35044,
        }
    );
    let mark = tape.mark();
    fixed.draw();
    assert_eq!(tape.since(mark), drawing());
}

#[test]
fn fixed_loop_keeps_the_cause_of_a_failure() {
    let (mut refusing, _) = Recorder::complete();
    refusing.refuses_buffers = true;
    assert_eq!(
        FixedRenderLoop::create(refusing).err(),
        Some(RenderLoopInitError::RenderApiError(RenderApiError::FailedToCreateBuffer))
    );
    let (undeclared, _) = Recorder::new(&[], &[]);
    assert_eq!(
        FixedRenderLoop::create(undeclared).err(),
        Some(RenderLoopInitError::RenderApiError(RenderApiError::InvalidAttributeName(
            "position".to_string()
        )))
    );
}

#[test]
fn create_makes_one_buffer_and_uploads_into_it() {
    let (recorder, tape) = Recorder::complete();
    assert!(RenderLoop::create(recorder, 100, 100).is_ok());
    let taken = tape.taken();
    assert_eq!(taken[0], Request::CreateBuffer { target: 34962, buffer: 0 });
    assert_eq!(taken[1], upload(100, 100));
    let made_buffers = taken
        .iter()
        .filter(|request| matches!(request, Request::CreateBuffer { .. }))
        .count();
    assert_eq!(made_buffers, 1);
}

#[test]
fn update_viewport_uploads_into_the_buffer_of_the_loop() {
    // The context has handed out buffers before, so the loop's buffer is
    // not the first one.
    let (mut recorder, tape) = Recorder::complete();
    recorder.create_buffer(BufferKind::ElementBuffer).unwrap();
    recorder.create_buffer(BufferKind::ArrayBuffer).unwrap();
    let mut render_loop = RenderLoop::create(recorder, 100, 100).unwrap();
    let mark = tape.mark();
    render_loop.update_viewport(200, 100).unwrap();
    render_loop.update_viewport(300, 100).unwrap();
    let asked = tape.since(mark);
    assert_eq!(asked.len(), 6);
    for request in asked {
        match request {
            Request::BindBuffer { buffer, target, .. } => {
                assert_eq!(buffer, 2);
                assert_eq!(target, 34962);
            }
            Request::CreateBuffer { .. } => panic!("a resize made a buffer"),
            _ => {}
        }
    }
    assert_eq!(tape.buffers.get(), 3);
}

#[test]
fn refused_buffer_ends_the_set_up_before_anything_is_asked() {
    let (recorder, tape) = Recorder::complete();
    let refused = Err(RenderApiError::FailedToCreateBuffer);
    assert_eq!(
        RenderLoop::create_with(recorder, refused, 100, 100).err(),
        Some(RenderLoopError::RenderApiError(RenderApiError::FailedToCreateBuffer))
    );
    assert_eq!(tape.taken(), vec![]);
}

#[test]
fn refusal_keeps_its_cause() {
    let (recorder, _) = Recorder::complete();
    let refused = Err(RenderApiError::InvalidAttributeName("buffer".to_string()));
    assert_eq!(
        RenderLoop::create_with(recorder, refused, 100, 100).err(),
        Some(RenderLoopError::RenderApiError(RenderApiError::InvalidAttributeName(
            "buffer".to_string()
        )))
    );
}

#[test]
fn given_buffer_is_the_one_uploaded_into() {
    let (recorder, tape) = Recorder::complete();
    let buffer = RecordedBuffer { kind: BufferKind::ArrayBuffer, id: 41 };
    let mut render_loop = RenderLoop::create_with(recorder, Ok(buffer), 200, 100).unwrap();
    assert_eq!(
        tape.taken()[0],
        Request::BindBuffer {
            target: 34962,
            buffer: 41,
            data: triangle_points(200, 100).to_vec(),
            usage: 35044,
        }
    );
    let mark = tape.mark();
    render_loop.update_viewport(100, 100).unwrap();
    match &tape.since(mark)[1] {
        Request::BindBuffer { buffer, .. } => assert_eq!(*buffer, 41),
        other => panic!("expected an upload, got {:?}", other),
    }
    assert_eq!(tape.buffers.get(), 0);
}

#[test]
fn failed_view_is_an_error_of_the_view() {
    let (recorder, tape) = Recorder::complete();
    let buffer = RecordedBuffer { kind: BufferKind::ArrayBuffer, id: 0 };
    let failed = Err(DataViewError::FailedToCreateMemory);
    assert_eq!(
        RenderLoop::create_with_view(recorder, buffer, failed, 100, 100).err(),
        Some(RenderLoopError::DataViewError(DataViewError::FailedToCreateMemory))
    );
    assert_eq!(tape.taken(), vec![]);
}

#[test]
fn given_view_is_the_one_uploaded() {
    let (recorder, tape) = Recorder::complete();
    let buffer = RecordedBuffer { kind: BufferKind::ArrayBuffer, id: 3 };
    let view = Float32View::create(&[1, 2, 3, 4, 5, 6]).unwrap();
    let mut render_loop =
        RenderLoop::create_with_view(recorder, buffer, Ok(view), 50, 60).unwrap();
    assert_eq!(
        tape.taken(),
        vec![
            Request::BindBuffer {
                target: 34962,
                buffer: 3,
                data: vec![1, 2, 3, 4, 5, 6],
                usage: 35044,
            },
            Request::VertexAttribPointer {
                index: 7,
                size: 3,
                precision: 5126,
                normalized: false,
                stride: 0,
                offset: 0,
            },
            Request::EnableVertexAttribArray { index: 7 },
            Request::Uniform2f { uniform: "resolution".to_string(), x: 5000, y: 6000 },
        ]
    );
    let mark = tape.mark();
    render_loop.draw();
    assert_eq!(tape.since(mark)[2], Request::DrawArrays { mode: 4, first: 0, count: 2 });
}

#[test]
fn missing_position_comes_before_missing_resolution() {
    let (recorder, _) = Recorder::new(&[], &[]);
    let buffer = RecordedBuffer { kind: BufferKind::ArrayBuffer, id: 0 };
    let view = Float32View::create(&triangle_points(10, 10)).unwrap();
    assert_eq!(
        RenderLoop::create_with_view(recorder, buffer, Ok(view), 10, 10).err(),
        Some(RenderLoopError::RenderApiError(RenderApiError::InvalidAttributeName(
            "position".to_string()
        )))
    );
}

#[test]
fn render_takes_each_answer_in_turn() {
    let (recorder, tape) = Recorder::complete();
    assert_eq!(
        Render::create_with(recorder, Err(RenderApiError::FailedToCreateBuffer)).err(),
        Some(RenderInitialisationError::RenderApiError(RenderApiError::FailedToCreateBuffer))
    );
    assert_eq!(tape.taken(), vec![]);

    let (recorder, tape) = Recorder::complete();
    let buffer = RecordedBuffer { kind: BufferKind::ArrayBuffer, id: 5 };
    assert_eq!(
        Render::create_with_view(recorder, buffer, Err(DataViewError::FailedToCreateMemory)).err(),
        Some(RenderInitialisationError::DataViewError(DataViewError::FailedToCreateMemory))
    );
    assert_eq!(tape.taken(), vec![]);

    let (recorder, tape) = Recorder::complete();
    let buffer = RecordedBuffer { kind: BufferKind::ArrayBuffer, id: 5 };
    assert!(Render::create_with(recorder, Ok(buffer)).is_ok());
    assert_eq!(
        tape.taken()[0],
        Request::BindBuffer {
            target: 34962,
            buffer: 5,
            data: vec![-70, -70, 0, 70, -70, 0, 0, 70, 0],
            usage: 35044,
        }
    );
}

#[test]
fn fixed_loop_wraps_each_outcome() {
    let failed: Result<Render<Recorder, RecordedBuffer>, _> =
        Err(RenderInitialisationError::DataViewError(DataViewError::FailedToCreateMemory));
    assert_eq!(
        FixedRenderLoop::from_render(failed).err(),
        Some(RenderLoopInitError::DataViewError(DataViewError::FailedToCreateMemory))
    );
    let refused: Result<Render<Recorder, RecordedBuffer>, _> =
        Err(RenderInitialisationError::RenderApiError(RenderApiError::FailedToCreateBuffer));
    assert_eq!(
        FixedRenderLoop::from_render(refused).err(),
        Some(RenderLoopInitError::RenderApiError(RenderApiError::FailedToCreateBuffer))
    );
    let (recorder, tape) = Recorder::new(&[("position", 2)], &[]);
    let mut fixed = FixedRenderLoop::from_render(Render::create(recorder)).unwrap();
    let mark = tape.mark();
    fixed.draw();
    assert_eq!(tape.since(mark), drawing());
}

#[test]
fn nothing_is_asked_after_a_refused_buffer() {
    let (mut recorder, tape) = Recorder::complete();
    let refused = Err(RenderApiError::FailedToCreateBuffer);
    let outcome =
        RenderLoop::<Recorder, RecordedBuffer>::set_up_with(&mut recorder, refused, 100, 100);
    assert_eq!(
        outcome.err(),
        Some(RenderLoopError::RenderApiError(RenderApiError::FailedToCreateBuffer))
    );
    assert_eq!(tape.taken(), vec![]);
}

#[test]
fn nothing_is_asked_after_a_failed_view() {
    let (mut recorder, tape) = Recorder::complete();
    let buffer = RecordedBuffer { kind: BufferKind::ArrayBuffer, id: 0 };
    let failed = Err(DataViewError::FailedToCreateMemory);
    let outcome = RenderLoop::<Recorder, RecordedBuffer>::set_up_with_view(
        &mut recorder,
        &buffer,
        failed,
        100,
        100,
    );
    assert_eq!(
        outcome.err(),
        Some(RenderLoopError::DataViewError(DataViewError::FailedToCreateMemory))
    );
    assert_eq!(tape.taken(), vec![]);
}

#[test]
fn only_the_upload_is_asked_without_a_position() {
    let (mut recorder, tape) = Recorder::new(&[], &["resolution"]);
    let buffer = RecordedBuffer { kind: BufferKind::ArrayBuffer, id: 0 };
    let outcome = RenderLoop::<Recorder, RecordedBuffer>::set_up_with(
        &mut recorder,
        Ok(buffer),
        100,
        100,
    );
    assert_eq!(
        outcome.err(),
        Some(RenderLoopError::RenderApiError(RenderApiError::InvalidAttributeName(
            "position".to_string()
        )))
    );
    assert_eq!(tape.taken(), vec![upload(100, 100)]);
}

#[test]
fn the_uniform_is_not_set_without_a_resolution() {
    let (mut recorder, tape) = Recorder::new(&[("position", 7)], &[]);
    let buffer = RecordedBuffer { kind: BufferKind::ArrayBuffer, id: 0 };
    let view = Float32View::create(&triangle_points(100, 100)).unwrap();
    let outcome = RenderLoop::<Recorder, RecordedBuffer>::set_up_with_view(
        &mut recorder,
        &buffer,
        Ok(view),
        100,
        100,
    );
    assert_eq!(outcome.err(), Some(lost_uniform()));
    assert_eq!(
        tape.taken(),
        vec![
            upload(100, 100),
            Request::VertexAttribPointer {
                index: 7,
                size: 3,
                precision: 5126,
                normalized: false,
                stride: 0,
                offset: 0,
            },
            Request::EnableVertexAttribArray { index: 7 },
        ]
    );
}

#[test]
fn set_up_hands_back_buffer_and_view() {
    let (mut recorder, tape) = Recorder::complete();
    let buffer = RecordedBuffer { kind: BufferKind::ArrayBuffer, id: 9 };
    let (kept, view) = RenderLoop::<Recorder, RecordedBuffer>::set_up_with(
        &mut recorder,
        Ok(buffer),
        200,
        100,
    )
    .unwrap();
    assert_eq!(kept, RecordedBuffer { kind: BufferKind::ArrayBuffer, id: 9 });
    assert_eq!(view.object(), &triangle_points(200, 100));
    assert_eq!(tape.taken().len(), 4);
    assert_eq!(tape.taken()[3], resolution(200, 100));
}

#[test]
fn resize_without_storage_only_moves_the_viewport() {
    let (recorder, tape) = Recorder::complete();
    let mut render_loop = RenderLoop::create(recorder, 100, 100).unwrap();
    let mark = tape.mark();
    assert_eq!(
        render_loop.update_viewport_with(None, 200, 100),
        Err(RenderLoopError::DataViewError(DataViewError::FailedToCreateMemory))
    );
    assert_eq!(
        tape.since(mark),
        vec![Request::Viewport { x: 0, y: 0, width: 200, height: 100 }]
    );
    // The view still shows the old triangle: the next upload of it is a
    // resize away.
    let mark = tape.mark();
    render_loop.draw();
    assert_eq!(tape.since(mark), drawing());
}

#[test]
fn resize_with_storage_uploads_and_sets_the_resolution() {
    let (recorder, tape) = Recorder::complete();
    let mut render_loop = RenderLoop::create(recorder, 100, 100).unwrap();
    let mark = tape.mark();
    assert_eq!(render_loop.update_viewport_with(Some(vec![1, 2, 3]), 200, 100), Ok(()));
    assert_eq!(
        tape.since(mark),
        vec![
            Request::Viewport { x: 0, y: 0, width: 200, height: 100 },
            upload(200, 100),
            resolution(200, 100),
        ]
    );
}

#[test]
fn resize_with_storage_fails_on_a_lost_resolution() {
    let (recorder, tape) = Recorder::complete();
    let mut render_loop = RenderLoop::create(recorder, 100, 100).unwrap();
    tape.uniforms.borrow_mut().clear();
    let mark = tape.mark();
    assert_eq!(render_loop.update_viewport_with(Some(Vec::new()), 200, 100), Err(lost_uniform()));
    assert_eq!(
        tape.since(mark),
        vec![Request::Viewport { x: 0, y: 0, width: 200, height: 100 }, upload(200, 100)]
    );
}

#[test]
fn render_says_what_was_asked_on_each_path() {
    let (mut recorder, tape) = Recorder::complete();
    let refused = Err(RenderApiError::FailedToCreateBuffer);
    assert!(Render::<Recorder, RecordedBuffer>::set_up_with(&mut recorder, refused).is_err());
    assert_eq!(tape.taken(), vec![]);

    let buffer = RecordedBuffer { kind: BufferKind::ArrayBuffer, id: 0 };
    let failed = Err(DataViewError::FailedToCreateMemory);
    assert!(Render::<Recorder, RecordedBuffer>::set_up_with_view(&mut recorder, &buffer, failed)
        .is_err());
    assert_eq!(tape.taken(), vec![]);

    let (mut undeclared, tape) = Recorder::new(&[], &[]);
    let outcome = Render::<Recorder, RecordedBuffer>::set_up_with(&mut undeclared, Ok(buffer));
    assert_eq!(
        outcome.err(),
        Some(RenderInitialisationError::RenderApiError(RenderApiError::InvalidAttributeName(
            "position".to_string()
        )))
    );
    assert_eq!(
        tape.taken(),
        vec![Request::BindBuffer {
            target: 34962,
            buffer: 0,
            data: vec![-70, -70, 0, 70, -70, 0, 0, 70, 0],
            usage: 35044,
        }]
    );
}
