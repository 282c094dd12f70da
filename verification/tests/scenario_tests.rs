use mandelbrot_viewer::event::{Event, PhysicalSize, WindowEvent};
use mandelbrot_viewer::mouse::PanInput;
use mandelbrot_viewer::scalar::Scalar;
use mandelbrot_viewer::state::{Directive, State};
use mandelbrot_viewer::uniform::ZoomInput;

fn s(v: f32) -> Scalar {
    Scalar::from_bits(v.to_bits())
}

fn f(v: Scalar) -> f32 {
    f32::from_bits(v.to_bits())
}

/// The pan arithmetic of the shell.
fn pan(p: &PanInput) -> (Scalar, Scalar) {
    let ratio = f(p.width) / f(p.height);
    let x = f(p.x) - f(p.px);
    let y = f(p.y) - f(p.py);
    let x = f(p.axis_range) * x / f(p.width) * ratio;
    let y = f(p.axis_range) * y / f(p.height);
    (s(f(p.centre_x) + x), s(f(p.centre_y) + y))
}

/// The zoom arithmetic of the shell.
fn zoom(z: &ZoomInput) -> Scalar {
    s(f(z.axis_range) * f(z.factor))
}

/// Hands an event to the viewer and does what it asks for.
fn drive(st: &mut State, e: Event) {
    match st.dispatch(&e) {
        Directive::Pan(p) => {
            let (x, y) = pan(&p);
            st.pan_to(x, y);
        }
        Directive::Zoom(z) => st.zoom_to(zoom(&z)),
        _ => {}
    }
}

fn moved(x: f32, y: f32) -> Event {
    Event::Window(WindowEvent::CursorMoved { x: s(x), y: s(y) })
}

fn wheel(y: f32) -> Event {
    Event::Window(WindowEvent::WheelLines { y: s(y) })
}

fn viewer() -> State {
    State::new(PhysicalSize { width: 800, height: 600 })
}

fn close(a: f32, b: f32, tolerance: f32) -> bool {
    (a - b).abs() <= tolerance
}

#[test]
fn one_scroll_down_tick_widens_by_five_percent() {
    let mut st = viewer();
    assert_eq!(f(st.shader_uniform.axis_range), 2.0);
    drive(&mut st, wheel(-1.0));
    let a = f(st.shader_uniform.axis_range);
    assert_eq!((a * 10000.0).round() / 10000.0, 2.1);
    assert_eq!(a, 2.0 * 1.05f32);
}

#[test]
fn one_scroll_up_tick_narrows_by_five_percent() {
    let mut st = viewer();
    drive(&mut st, wheel(1.0));
    let a = f(st.shader_uniform.axis_range);
    assert_eq!((a * 10000.0).round() / 10000.0, 1.9);
    assert_eq!(a, 2.0 * 0.95f32);
}

#[test]
fn zoom_out_ticks_compound() {
    let mut st = viewer();
    for n in 1..=40 {
        drive(&mut st, wheel(-1.0));
        let expected = 2.0 * 1.05f32.powi(n);
        assert!(close(f(st.shader_uniform.axis_range), expected, expected * 1.0e-5), "{n}");
    }
}

#[test]
fn zoom_in_ticks_compound() {
    let mut st = viewer();
    for n in 1..=40 {
        drive(&mut st, wheel(3.0));
        let expected = 2.0 * 0.95f32.powi(n);
        assert!(close(f(st.shader_uniform.axis_range), expected, expected * 1.0e-5), "{n}");
    }
}

#[test]
fn zoom_never_leaves_the_range_at_or_below_zero() {
    let mut st = viewer();
    for _ in 0..5000 {
        drive(&mut st, wheel(1.0));
        assert!(f(st.shader_uniform.axis_range) > 0.0);
    }
    let small = st.shader_uniform.axis_range;
    assert!(f(small) < 1.0e-40);
    // A product that is not above zero is refused, and the range stays.
    st.zoom_to(s(f(small) * 0.0));
    assert_eq!(st.shader_uniform.axis_range, small);
    st.zoom_to(s(f(small) * -1.0));
    assert_eq!(st.shader_uniform.axis_range, small);
}

#[test]
fn pan_arithmetic_on_the_stored_positions() {
    // Stored positions (100, 100) then (110, 115), resolution 800 by 600,
    // axis range 2.
    let mut st = viewer();
    st.dispatch(&moved(-100.0, -100.0));
    st.dispatch(&Event::Window(WindowEvent::LeftPressed));
    let before = (f(st.shader_uniform.mouse.centre_x), f(st.shader_uniform.mouse.centre_y));
    drive(&mut st, moved(-110.0, -115.0));
    assert_eq!((f(st.shader_uniform.mouse.x), f(st.shader_uniform.mouse.px)), (110.0, 100.0));
    assert_eq!((f(st.shader_uniform.mouse.y), f(st.shader_uniform.mouse.py)), (115.0, 100.0));
    let dx = f(st.shader_uniform.mouse.centre_x) - before.0;
    let dy = f(st.shader_uniform.mouse.centre_y) - before.1;
    assert!(close(dx, 2.0 * 10.0 / 800.0 * (800.0 / 600.0), 1.0e-6), "{dx}");
    assert!(close(dx, 0.033333, 1.0e-5), "{dx}");
    assert!(close(dy, 0.05, 1.0e-6), "{dy}");
}

#[test]
fn pointer_positions_enter_the_pan_negated() {
    // The pointer itself goes from (100, 100) to (110, 115): the stored
    // positions are the negated ones, and the centre moves the other way.
    let mut st = viewer();
    st.dispatch(&moved(100.0, 100.0));
    st.dispatch(&Event::Window(WindowEvent::LeftPressed));
    let before = (f(st.shader_uniform.mouse.centre_x), f(st.shader_uniform.mouse.centre_y));
    drive(&mut st, moved(110.0, 115.0));
    let dx = f(st.shader_uniform.mouse.centre_x) - before.0;
    let dy = f(st.shader_uniform.mouse.centre_y) - before.1;
    assert!(close(dx, -0.033333, 1.0e-5), "{dx}");
    assert!(close(dy, -0.05, 1.0e-6), "{dy}");
}

#[test]
fn pan_depends_on_the_last_two_positions_only() {
    let mut a = viewer();
    let mut b = viewer();
    for i in 0..50 {
        drive(&mut a, moved(i as f32 * 13.0, 400.0 - i as f32));
    }
    drive(&mut b, moved(5.0, 5.0));
    for st in [&mut a, &mut b] {
        drive(st, moved(200.0, 300.0));
        drive(st, Event::Window(WindowEvent::LeftPressed));
        drive(st, moved(230.0, 280.0));
        drive(st, moved(260.0, 281.0));
    }
    assert_eq!(a.shader_uniform.mouse.centre_x, b.shader_uniform.mouse.centre_x);
    assert_eq!(a.shader_uniform.mouse.centre_y, b.shader_uniform.mouse.centre_y);
    assert_eq!(a.shader_uniform, b.shader_uniform);
}

#[test]
fn consecutive_drag_steps_add_up() {
    let mut st = viewer();
    drive(&mut st, moved(-10.0, -20.0));
    drive(&mut st, Event::Window(WindowEvent::LeftPressed));
    let start = (f(st.shader_uniform.mouse.centre_x), f(st.shader_uniform.mouse.centre_y));
    drive(&mut st, moved(-40.0, -50.0));
    drive(&mut st, moved(-100.0, -20.0));
    let dx = f(st.shader_uniform.mouse.centre_x) - start.0;
    let dy = f(st.shader_uniform.mouse.centre_y) - start.1;
    assert!(close(dx, 2.0 * 90.0 / 800.0 * (800.0 / 600.0), 1.0e-5), "{dx}");
    assert!(close(dy, 0.0, 1.0e-6), "{dy}");
    drive(&mut st, Event::Window(WindowEvent::LeftReleased));
    let held = st.shader_uniform.mouse;
    drive(&mut st, moved(-500.0, -500.0));
    assert_eq!(st.shader_uniform.mouse.centre_x, held.centre_x);
    assert_eq!(st.shader_uniform.mouse.centre_y, held.centre_y);
}
