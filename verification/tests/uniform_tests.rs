use mandelbrot_viewer::mouse::{Drag, Mouse, START_CENTRE_X};
use mandelbrot_viewer::scalar::Scalar;
use mandelbrot_viewer::ui::{Interface, MAX_ITERATIONS, TEN, TWO};
use mandelbrot_viewer::uniform::{
    ShaderUniform, OFFSET_AXIS_RANGE, OFFSET_CENTRE, OFFSET_DRAG, OFFSET_EXPONENT,
    OFFSET_ITERATIONS, OFFSET_MOUSE, OFFSET_PREVIOUS, OFFSET_RESOLUTION, OFFSET_VALUE,
    UNIFORM_SIZE, ZOOM_IN, ZOOM_OUT,
};

fn s(v: f32) -> Scalar {
    Scalar::from_bits(v.to_bits())
}

fn f(v: Scalar) -> f32 {
    f32::from_bits(v.to_bits())
}

fn word(bytes: &[u8], offset: usize) -> u32 {
    u32::from_le_bytes([bytes[offset], bytes[offset + 1], bytes[offset + 2], bytes[offset + 3]])
}

#[test]
fn mouse_starts_idle_at_the_start_centre() {
    let m = Mouse::new();
    assert_eq!(f(m.x), 0.0);
    assert_eq!(f(m.y), 0.0);
    assert_eq!(f(m.px), 0.0);
    assert_eq!(f(m.py), 0.0);
    assert_eq!(m.drag, Drag::Idle);
    assert_eq!(f(m.centre_x), -0.765);
    assert_eq!(f(m.centre_y), 0.0);
    assert_eq!(START_CENTRE_X, (-0.765f32).to_bits());
}

#[test]
fn drag_codes() {
    assert_eq!(Drag::Idle.to_code(), -1);
    assert_eq!(Drag::Dragging.to_code(), 1);
    assert_eq!(Drag::Released.to_code(), 0);
}

#[test]
fn set_and_unset_drag_change_only_the_flag() {
    let mut m = Mouse::new();
    m.update_position(s(3.0), s(4.0));
    let before = m;
    m.set_drag();
    assert_eq!(m, Mouse { drag: Drag::Dragging, ..before });
    m.unset_drag();
    assert_eq!(m, Mouse { drag: Drag::Released, ..before });
    m.set_drag();
    assert_eq!(m.drag, Drag::Dragging);
}

#[test]
fn update_position_keeps_previous_and_negates() {
    let mut m = Mouse::new();
    m.update_position(s(100.0), s(100.0));
    assert_eq!((f(m.x), f(m.y)), (-100.0, -100.0));
    assert_eq!((f(m.px), f(m.py)), (0.0, 0.0));
    m.update_position(s(110.0), s(115.0));
    assert_eq!((f(m.x), f(m.y)), (-110.0, -115.0));
    assert_eq!((f(m.px), f(m.py)), (-100.0, -100.0));
    assert_eq!(f(m.centre_x), -0.765);
    assert_eq!(f(m.centre_y), 0.0);
}

#[test]
fn pan_input_only_while_dragging() {
    let mut m = Mouse::new();
    m.update_position(s(1.0), s(2.0));
    assert_eq!(m.pan_input(s(800.0), s(600.0), s(2.0)), None);
    m.set_drag();
    let p = m.pan_input(s(800.0), s(600.0), s(2.0)).unwrap();
    assert_eq!((f(p.x), f(p.y), f(p.px), f(p.py)), (-1.0, -2.0, 0.0, 0.0));
    assert_eq!((f(p.centre_x), f(p.centre_y)), (-0.765, 0.0));
    assert_eq!((f(p.width), f(p.height), f(p.axis_range)), (800.0, 600.0, 2.0));
    m.unset_drag();
    assert_eq!(m.pan_input(s(800.0), s(600.0), s(2.0)), None);
}

#[test]
fn drag_mouse_moves_the_centre_only_while_dragging() {
    let mut m = Mouse::new();
    let idle = m;
    m.drag_mouse(s(1.0), s(1.0));
    assert_eq!(m, idle);
    m.set_drag();
    m.drag_mouse(s(0.25), s(-0.5));
    assert_eq!((f(m.centre_x), f(m.centre_y)), (0.25, -0.5));
    assert_eq!(m.drag, Drag::Dragging);
    m.unset_drag();
    let released = m;
    m.drag_mouse(s(9.0), s(9.0));
    assert_eq!(m, released);
}

#[test]
fn interface_starts_with_its_defaults() {
    let i = Interface::new();
    assert_eq!(i.iterations, 500);
    assert_eq!(f(i.value), 2.0);
    assert_eq!(f(i.exponent), 2.0);
    assert_eq!(TWO, 2.0f32.to_bits());
    assert_eq!(TEN, 10.0f32.to_bits());
    assert_eq!(MAX_ITERATIONS, 3000);
}

#[test]
fn set_iterations_clamps() {
    let mut i = Interface::new();
    i.set_iterations(0);
    assert_eq!(i.iterations, 0);
    i.set_iterations(3000);
    assert_eq!(i.iterations, 3000);
    i.set_iterations(3001);
    assert_eq!(i.iterations, 3000);
    i.set_iterations(-1);
    assert_eq!(i.iterations, 0);
    i.set_iterations(i32::MIN);
    assert_eq!(i.iterations, 0);
    i.set_iterations(i32::MAX);
    assert_eq!(i.iterations, 3000);
    i.set_iterations(1234);
    assert_eq!(i.iterations, 1234);
    assert_eq!(f(i.value), 2.0);
    assert_eq!(f(i.exponent), 2.0);
}

#[test]
fn set_value_clamps() {
    let mut i = Interface::new();
    for (given, kept) in [
        (0.0f32, 0.0f32),
        (-3.5, -3.5),
        (10.0, 10.0),
        (-10.0, -10.0),
        (10.000001, 10.0),
        (-10.000001, -10.0),
        (1.0e30, 10.0),
        (f32::INFINITY, 10.0),
        (f32::NEG_INFINITY, -10.0),
    ] {
        i.set_value(s(given));
        assert_eq!(f(i.value), kept, "{given}");
        assert_eq!(f(i.value), given.clamp(-10.0, 10.0));
    }
    i.set_value(s(4.0));
    i.set_value(s(f32::NAN));
    assert_eq!(f(i.value), 4.0);
    assert_eq!(i.iterations, 500);
    assert_eq!(f(i.exponent), 2.0);
}

#[test]
fn set_exponent_clamps() {
    let mut i = Interface::new();
    for (given, kept) in [
        (0.0f32, 0.0f32),
        (3.5, 3.5),
        (10.0, 10.0),
        (-0.5, 0.0),
        (-10.0, 0.0),
        (10.5, 10.0),
        (f32::INFINITY, 10.0),
        (f32::NEG_INFINITY, 0.0),
    ] {
        i.set_exponent(s(given));
        assert_eq!(f(i.exponent), kept, "{given}");
        assert_eq!(f(i.exponent), given.clamp(0.0, 10.0));
    }
    i.set_exponent(s(-3.0));
    assert_eq!(i.exponent.to_bits(), 0);
    i.set_exponent(s(7.0));
    i.set_exponent(s(f32::NAN));
    assert_eq!(f(i.exponent), 7.0);
    assert_eq!(i.iterations, 500);
    assert_eq!(f(i.value), 2.0);
}

#[test]
fn uniform_starts_with_its_defaults() {
    let u = ShaderUniform::new();
    assert_eq!((f(u.resolution.width), f(u.resolution.height)), (0.0, 0.0));
    assert_eq!(u.iterations, 100);
    assert_eq!(f(u.value), 2.0);
    assert_eq!(u.mouse, Mouse::new());
    assert_eq!(f(u.axis_range), 2.0);
    assert_eq!(f(u.exponent), 2.0);
}

#[test]
fn uniform_setters_change_one_field() {
    let start = ShaderUniform::new();
    let mut u = start;
    u.update_resolution(s(800.0), s(600.0));
    assert_eq!((f(u.resolution.width), f(u.resolution.height)), (800.0, 600.0));
    assert_eq!(ShaderUniform { resolution: start.resolution, ..u }, start);
    let mut u = start;
    u.update_iterations(7);
    assert_eq!(u, ShaderUniform { iterations: 7, ..start });
    let mut u = start;
    u.update_value(s(-1.5));
    assert_eq!(u, ShaderUniform { value: s(-1.5), ..start });
    let mut u = start;
    u.update_exponent(s(3.25));
    assert_eq!(u, ShaderUniform { exponent: s(3.25), ..start });
}

#[test]
fn zoom_input_picks_the_factor_by_the_sign() {
    let u = ShaderUniform::new();
    assert_eq!(ZOOM_OUT, 1.05f32.to_bits());
    assert_eq!(ZOOM_IN, 0.95f32.to_bits());
    for (scroll, factor) in [
        (-1.0f32, 1.05f32),
        (-0.001, 1.05),
        (f32::NEG_INFINITY, 1.05),
        (1.0, 0.95),
        (0.0, 0.95),
        (-0.0, 0.95),
        (f32::NAN, 0.95),
        (-f32::NAN, 0.95),
    ] {
        let z = u.zoom_input(s(scroll));
        assert_eq!(f(z.factor), factor, "{scroll}");
        assert_eq!(f(z.axis_range), 2.0);
    }
}

#[test]
fn zoom_to_refuses_what_is_not_above_zero() {
    let start = ShaderUniform::new();
    let mut u = start;
    u.zoom_to(s(2.1));
    assert_eq!(u, ShaderUniform { axis_range: s(2.1), ..start });
    for refused in [0.0f32, -0.0, -1.0, f32::NAN, -f32::NAN, f32::NEG_INFINITY] {
        u.zoom_to(s(refused));
        assert_eq!(f(u.axis_range), 2.1, "{refused}");
    }
    u.zoom_to(s(1.0e-45));
    assert_eq!(f(u.axis_range), 1.0e-45);
    u.zoom_to(s(f32::INFINITY));
    assert_eq!(f(u.axis_range), f32::INFINITY);
}

#[test]
fn uniform_words_in_order() {
    let mut u = ShaderUniform::new();
    u.update_resolution(s(800.0), s(600.0));
    u.update_iterations(-2);
    u.update_value(s(1.5));
    u.mouse.update_position(s(1.0), s(2.0));
    u.mouse.update_position(s(3.0), s(4.0));
    u.mouse.set_drag();
    u.mouse.drag_mouse(s(0.5), s(0.25));
    u.zoom_to(s(7.0));
    u.update_exponent(s(9.0));
    let expected: Vec<u32> = vec![
        800.0f32.to_bits(),
        600.0f32.to_bits(),
        0xffff_fffe,
        1.5f32.to_bits(),
        (-3.0f32).to_bits(),
        (-4.0f32).to_bits(),
        1,
        (-1.0f32).to_bits(),
        (-2.0f32).to_bits(),
        0.5f32.to_bits(),
        0.25f32.to_bits(),
        0,
        7.0f32.to_bits(),
        9.0f32.to_bits(),
        0,
        0,
    ];
    assert_eq!(u.to_words(), expected);
}

#[test]
fn uniform_bytes_follow_the_layout() {
    let mut u = ShaderUniform::new();
    u.update_resolution(s(800.0), s(600.0));
    u.update_iterations(300);
    u.update_value(s(1.5));
    u.mouse.update_position(s(1.0), s(2.0));
    u.mouse.update_position(s(3.0), s(4.0));
    u.zoom_to(s(7.0));
    u.update_exponent(s(9.0));
    let bytes = u.to_bytes();
    assert_eq!(UNIFORM_SIZE, 64);
    assert_eq!(bytes.len(), UNIFORM_SIZE);
    assert_eq!(bytes.len() % 16, 0);
    assert_eq!(
        (
            OFFSET_RESOLUTION,
            OFFSET_ITERATIONS,
            OFFSET_VALUE,
            OFFSET_MOUSE,
            OFFSET_DRAG,
            OFFSET_PREVIOUS,
            OFFSET_CENTRE,
            OFFSET_AXIS_RANGE,
            OFFSET_EXPONENT
        ),
        (0, 8, 12, 16, 24, 28, 36, 48, 52)
    );
    assert_eq!(f32::from_bits(word(&bytes, OFFSET_RESOLUTION)), 800.0);
    assert_eq!(f32::from_bits(word(&bytes, OFFSET_RESOLUTION + 4)), 600.0);
    assert_eq!(word(&bytes, OFFSET_ITERATIONS) as i32, 300);
    assert_eq!(f32::from_bits(word(&bytes, OFFSET_VALUE)), 1.5);
    assert_eq!(f32::from_bits(word(&bytes, OFFSET_MOUSE)), -3.0);
    assert_eq!(f32::from_bits(word(&bytes, OFFSET_MOUSE + 4)), -4.0);
    assert_eq!(word(&bytes, OFFSET_DRAG) as i32, -1);
    assert_eq!(f32::from_bits(word(&bytes, OFFSET_PREVIOUS)), -1.0);
    assert_eq!(f32::from_bits(word(&bytes, OFFSET_PREVIOUS + 4)), -2.0);
    assert_eq!(f32::from_bits(word(&bytes, OFFSET_CENTRE)), -0.765);
    assert_eq!(f32::from_bits(word(&bytes, OFFSET_CENTRE + 4)), 0.0);
    assert_eq!(word(&bytes, 44), 0);
    assert_eq!(f32::from_bits(word(&bytes, OFFSET_AXIS_RANGE)), 7.0);
    assert_eq!(f32::from_bits(word(&bytes, OFFSET_EXPONENT)), 9.0);
    assert_eq!(word(&bytes, 56), 0);
    assert_eq!(word(&bytes, 60), 0);
}

#[test]
fn axis_range_and_exponent_do_not_share_a_place() {
    let mut u = ShaderUniform::new();
    u.zoom_to(s(3.0));
    u.update_exponent(s(5.0));
    let bytes = u.to_bytes();
    assert_eq!(&bytes[48..52], &3.0f32.to_le_bytes());
    assert_eq!(&bytes[52..56], &5.0f32.to_le_bytes());
    u.update_exponent(s(6.0));
    let again = u.to_bytes();
    assert_eq!(&again[48..52], &3.0f32.to_le_bytes());
    assert_eq!(&again[52..56], &6.0f32.to_le_bytes());
    assert_eq!(&again[..48], &bytes[..48]);
}

#[test]
fn new_uniform_bytes() {
    let bytes = ShaderUniform::new().to_bytes();
    let mut expected: Vec<u8> = Vec::new();
    expected.extend_from_slice(&0.0f32.to_le_bytes());
    expected.extend_from_slice(&0.0f32.to_le_bytes());
    expected.extend_from_slice(&100i32.to_le_bytes());
    expected.extend_from_slice(&2.0f32.to_le_bytes());
    expected.extend_from_slice(&0.0f32.to_le_bytes());
    expected.extend_from_slice(&0.0f32.to_le_bytes());
    expected.extend_from_slice(&(-1i32).to_le_bytes());
    expected.extend_from_slice(&0.0f32.to_le_bytes());
    expected.extend_from_slice(&0.0f32.to_le_bytes());
    expected.extend_from_slice(&(-0.765f32).to_le_bytes());
    expected.extend_from_slice(&0.0f32.to_le_bytes());
    expected.extend_from_slice(&0u32.to_le_bytes());
    expected.extend_from_slice(&2.0f32.to_le_bytes());
    expected.extend_from_slice(&2.0f32.to_le_bytes());
    expected.extend_from_slice(&[0u8; 8]);
    assert_eq!(bytes, expected);
}
