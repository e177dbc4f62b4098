use draw3d::app::{AppBuilder, DEFAULT_WINDOW_SIDE};
use draw3d::draw::{Color, DrawCall, DrawState};
use draw3d::geometry::{Geometry, GeometryType};
use draw3d::host::{Action, Event, Host, Key, LoopState, SurfaceError, ONE_BITS};
use draw3d::shapes::{PolyLine, Polygon};
use draw3d::surface::{preferred_format, SurfaceSize};
use draw3d::vertex::Vertex;

fn vtx(x: f32, y: f32) -> Vertex {
    Vertex::new([x.to_bits(), y.to_bits(), 0], [0, 0, 0])
}

fn color(r: f64, g: f64, b: f64) -> Color {
    Color::new(r.to_bits(), g.to_bits(), b.to_bits())
}

fn triangle() -> Geometry {
    Geometry::new_mesh(&[vtx(0.0, 0.0), vtx(1.0, 0.0), vtx(0.0, 1.0)], &[0, 1, 2]).unwrap()
}

#[test]
fn instance_count_follows_additions() {
    let mut d = DrawState::new(color(0.1, 0.2, 0.3));
    assert_eq!(d.instance_count(), 0);
    d.add_geometry(triangle());
    assert_eq!(d.instance_count(), 1);
    let square = Polygon::new(vec![vtx(0.0, 0.0), vtx(1.0, 0.0), vtx(1.0, 1.0), vtx(0.0, 1.0)]).unwrap();
    d.add(&square);
    let line = PolyLine::new(vec![vtx(0.0, 0.0), vtx(1.0, 1.0)]).unwrap();
    d.add(&line);
    assert_eq!(d.instance_count(), 3);
    assert_eq!(d.geometry_list().len(), 3);
    assert_eq!(d.geometry_list()[1].num_indices(), 6);
    assert_eq!(d.geometry_list()[2].geometry_type(), GeometryType::Line);
}

#[test]
fn background_survives_additions() {
    let mut d = DrawState::new(color(1.0, 1.0, 1.0));
    let c = color(0.1, 0.2, 0.3);
    d.update_background_color(c);
    assert_eq!(d.background_color(), c);
    d.add_geometry(triangle());
    d.add_geometry(triangle());
    assert_eq!(d.background_color(), c);
    assert_eq!(d.instance_count(), 2);
}

#[test]
fn draw_calls_follow_insertion_order() {
    let mut d = DrawState::new(color(0.0, 0.0, 0.0));
    d.add_geometry(triangle());
    d.add(&PolyLine::new(vec![vtx(0.0, 0.0), vtx(1.0, 0.0), vtx(2.0, 0.0)]).unwrap());
    let calls = d.draw_calls();
    assert_eq!(
        calls,
        vec![
            DrawCall { geometry: 0, pipeline: GeometryType::Mesh, index_count: 3, instance_count: 2 },
            DrawCall { geometry: 1, pipeline: GeometryType::Line, index_count: 4, instance_count: 2 },
        ]
    );
    assert!(DrawState::new(color(0.0, 0.0, 0.0)).draw_calls().is_empty());
}

#[test]
fn resize_twice_equals_once() {
    let mut once = Host::new(SurfaceSize::new(800, 600));
    let mut twice = Host::new(SurfaceSize::new(800, 600));
    let s = SurfaceSize::new(1024, 768);
    assert!(once.resize(s));
    assert!(twice.resize(s));
    assert!(twice.resize(s));
    assert_eq!(once.size(), twice.size());
    assert_eq!(once.size(), s);
}

#[test]
fn zero_sized_resize_is_ignored() {
    let mut h = Host::new(SurfaceSize::new(800, 600));
    assert!(!h.resize(SurfaceSize::new(0, 600)));
    assert!(!h.resize(SurfaceSize::new(800, 0)));
    assert_eq!(h.size(), SurfaceSize::new(800, 600));
    assert_eq!(h.handle(Event::Resized(SurfaceSize::new(0, 0))), Action::Nothing);
    assert_eq!(
        h.handle(Event::Resized(SurfaceSize::new(640, 480))),
        Action::Reconfigure(SurfaceSize::new(640, 480))
    );
    assert_eq!(h.size(), SurfaceSize::new(640, 480));
}

#[test]
fn srgb_format_is_preferred() {
    assert_eq!(preferred_format(&[false, true, true]), Some(1));
    assert_eq!(preferred_format(&[false, false]), Some(0));
    assert_eq!(preferred_format(&[true]), Some(0));
    assert_eq!(preferred_format(&[]), None);
}

#[test]
fn polyline_model_after_five_ticks() {
    let mut host = Host::new(SurfaceSize::new(800, 800));
    let mut model = PolyLine::new(vec![vtx(0.0, 0.0), vtx(0.1, 0.1), vtx(0.2, 0.0)]).unwrap();
    let mut ticks = 0;
    for t in 0..5 {
        assert_eq!(host.handle(Event::AboutToWait), Action::RequestRedraw);
        assert_eq!(host.handle(Event::RedrawRequested), Action::Frame);
        model.push(vtx(0.3 + t as f32 * 0.1, 0.1));
        let mut frame = host.draw();
        frame.add(&model);
        host.draw_to_frame(frame);
        assert_eq!(host.after_render(Ok(())), Action::Nothing);
        ticks += 1;
    }
    assert_eq!(ticks, 5);
    let frame = host.draw_state();
    assert_eq!(frame.instance_count(), 1);
    assert_eq!(frame.geometry_list()[0].num_indices(), 14);
}

#[test]
fn close_request_ends_the_loop() {
    let mut h = Host::new(SurfaceSize::new(800, 800));
    assert_eq!(h.handle(Event::CloseRequested), Action::Exit);
    assert_eq!(h.state(), LoopState::Exited);
    assert_eq!(h.handle(Event::RedrawRequested), Action::Nothing);
    assert_eq!(h.handle(Event::AboutToWait), Action::Nothing);
    assert_eq!(h.after_render(Err(SurfaceError::Lost)), Action::Nothing);
    assert_eq!(h.state(), LoopState::Exited);
}

#[test]
fn escape_press_ends_the_loop() {
    let mut h = Host::new(SurfaceSize::new(800, 800));
    assert_eq!(h.handle(Event::Keyboard { key: Key::Escape, pressed: false }), Action::Nothing);
    assert_eq!(h.handle(Event::Keyboard { key: Key::Other, pressed: true }), Action::Nothing);
    assert_eq!(h.state(), LoopState::Running);
    assert_eq!(h.handle(Event::Keyboard { key: Key::Escape, pressed: true }), Action::Exit);
    assert_eq!(h.handle(Event::RedrawRequested), Action::Nothing);
    assert_eq!(h.state(), LoopState::Exited);
}

#[test]
fn render_outcomes() {
    let mut h = Host::new(SurfaceSize::new(300, 200));
    assert_eq!(h.after_render(Ok(())), Action::Nothing);
    assert_eq!(h.after_render(Err(SurfaceError::Lost)), Action::Reconfigure(SurfaceSize::new(300, 200)));
    assert_eq!(h.after_render(Err(SurfaceError::Outdated)), Action::Report(SurfaceError::Outdated));
    assert_eq!(h.after_render(Err(SurfaceError::Timeout)), Action::Report(SurfaceError::Timeout));
    assert_eq!(h.state(), LoopState::Running);
    assert_eq!(h.after_render(Err(SurfaceError::OutOfMemory)), Action::Exit);
    assert_eq!(h.state(), LoopState::Exited);
}

#[test]
fn fresh_frame_carries_background_forward() {
    let mut h = Host::new(SurfaceSize::new(10, 10));
    let white = Color::new(ONE_BITS, ONE_BITS, ONE_BITS);
    assert_eq!(ONE_BITS, 1.0f64.to_bits());
    assert_eq!(h.draw().background_color(), white);
    let mut d = h.draw();
    d.update_background_color(color(0.2, 0.0, 0.0));
    d.add_geometry(triangle());
    h.draw_to_frame(d);
    let next = h.draw();
    assert_eq!(next.background_color(), color(0.2, 0.0, 0.0));
    assert_eq!(next.instance_count(), 0);
}

#[test]
fn builder_defaults_and_settings() {
    let mut b: AppBuilder<u8, u16, u32> = draw3d::app(7u8);
    assert_eq!(b.requested_window_size(), SurfaceSize::new(DEFAULT_WINDOW_SIDE, DEFAULT_WINDOW_SIDE));
    b.window_size(800, 600);
    let b = b.update(3u16).view(4u32).title(String::from("demo"));
    assert_eq!(b.requested_window_size(), SurfaceSize::new(800, 600));
    let (model, update, view, size, title) = b.into_parts();
    assert_eq!((model, update, view), (7u8, Some(3u16), Some(4u32)));
    assert_eq!(size, Some(SurfaceSize::new(800, 600)));
    assert_eq!(title.as_deref(), Some("demo"));
}
