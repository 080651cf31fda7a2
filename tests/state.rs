use porp::{
    apply_input, InputEvent,
    centered_position, Button, ButtonState, CullingMethod, DepthTestMethod, Display, DrawMethod,
    IDManager, IDType, Entity, KeyCode, Keyboard, Mouse, MouseButton, RenderUpdateData,
    Transforms,
};

#[test]
fn button_keeps_tick_and_state() {
    let b = Button::new(7, ButtonState::Pressed);
    assert_eq!(b.get_tick_number(), 7);
    assert_eq!(b.get_state(), ButtonState::Pressed);
}

#[test]
fn keyboard_unknown_key_is_released_at_tick_zero() {
    let k = Keyboard::new();
    let b = k.get_key(KeyCode { code: 12 });
    assert_eq!(b.get_tick_number(), 0);
    assert_eq!(b.get_state(), ButtonState::Released);
}

#[test]
fn keyboard_records_last_transition() {
    let mut k = Keyboard::new();
    k.set_key_state(KeyCode { code: 3 }, Button::new(4, ButtonState::Pressed));
    k.set_key_state(KeyCode { code: 3 }, Button::new(9, ButtonState::Released));
    k.set_key_state(KeyCode { code: 5 }, Button::new(6, ButtonState::Pressed));
    assert_eq!(k.get_key(KeyCode { code: 3 }), Button::new(9, ButtonState::Released));
    assert_eq!(k.get_key(KeyCode { code: 5 }), Button::new(6, ButtonState::Pressed));
}

#[test]
fn mouse_buttons_and_position() {
    let mut m = Mouse::new();
    assert_eq!(m.get_mouse_position(), (0, 0));
    m.set_mouse_button(MouseButton::Left, Button::new(2, ButtonState::Pressed));
    m.set_mouse_button(MouseButton::Other(0), Button::new(3, ButtonState::Pressed));
    m.set_mouse_position((-4, 8));
    assert_eq!(m.get_button(MouseButton::Left), Button::new(2, ButtonState::Pressed));
    assert_eq!(m.get_button(MouseButton::Other(0)), Button::new(3, ButtonState::Pressed));
    assert_eq!(m.get_button(MouseButton::Middle), Button::new(0, ButtonState::Released));
    assert_eq!(m.get_mouse_position(), (-4, 8));
}

#[test]
fn display_resolution() {
    let mut d = Display::new((800, 600));
    assert_eq!(d.get_resolution(), (800, 600));
    d.set_resolution((1920, 1080));
    assert_eq!(d.get_resolution(), (1920, 1080));
}

#[test]
fn draw_method_parts() {
    let both = DrawMethod::Both(DepthTestMethod::IfLess, CullingMethod::Clockwise);
    assert_eq!(both.depth_test(), Some(DepthTestMethod::IfLess));
    assert_eq!(both.culling(), Some(CullingMethod::Clockwise));
    let cull = DrawMethod::Culling(CullingMethod::CounterClockwise);
    assert_eq!(cull.depth_test(), None);
    assert_eq!(cull.culling(), Some(CullingMethod::CounterClockwise));
    assert_eq!(DrawMethod::Depth(DepthTestMethod::IfLess).culling(), None);
    assert_eq!(DrawMethod::Neither.depth_test(), None);
    assert_eq!(DrawMethod::Neither.culling(), None);
}

#[test]
fn window_is_centered() {
    assert_eq!(centered_position((1920, 1080), (800, 600)), (560, 240));
    assert_eq!(centered_position((801, 600), (800, 600)), (0, 0));
}

#[test]
fn render_updates_drain_in_order_and_leave_empty() {
    let mut q: RenderUpdateData<u8> = RenderUpdateData::new();
    assert!(q.is_empty());
    q.push_vertices(1, vec![1, 2]);
    q.push_vertices(0, vec![3]);
    q.push_indices(1, vec![0, 1, 2]);
    q.push_texture(2, b"png");
    q.push_draw_method(1, DrawMethod::Neither);
    assert!(!q.is_empty());
    let taken = q.take_all();
    assert!(q.is_empty());
    let (v, i, t, d) = taken.into_parts();
    assert_eq!(v, vec![(1, vec![1, 2]), (0, vec![3])]);
    assert_eq!(i, vec![(1, vec![0, 1, 2])]);
    assert_eq!(t, vec![(2u64, &b"png"[..])]);
    assert_eq!(d, vec![(1, DrawMethod::Neither)]);
}

#[test]
fn render_updates_second_drain_is_empty() {
    let mut q: RenderUpdateData<u8> = RenderUpdateData::new();
    q.push_indices(4, vec![9]);
    let _ = q.take_all();
    let again = q.take_all();
    assert!(again.is_empty());
    assert!(q.is_empty());
}

#[test]
fn transforms_store_matrix_with_inverse() {
    let mut manager = IDManager::new();
    let a = Entity::new(&mut manager);
    let mut b = Entity::new_from(&a);
    b.use_new_id(&mut manager, IDType::Model);
    let mut t: Transforms<i32> = Transforms::new();
    assert_eq!(t.get_model_matrix(&a), None);
    t.set_model_matrix(&a, 2, -2);
    t.set_model_matrix(&b, 5, -5);
    t.set_view_matrix(&a, 7, -7);
    t.set_perspective_matrix(&a, 11, -11);
    assert_eq!(t.get_model_matrix(&a), Some(2));
    assert_eq!(t.get_model_inverse(&a), Some(-2));
    assert_eq!(t.get_model_matrix(&b), Some(5));
    assert_eq!(t.get_model_inverse(&b), Some(-5));
    assert_eq!(t.get_view_matrix(&b), Some(7));
    assert_eq!(t.get_view_inverse(&a), Some(-7));
    assert_eq!(t.get_perspective_matrix(&b), Some(11));
    assert_eq!(t.get_perspective_inverse(&b), Some(-11));
    t.set_model_matrix(&a, 3, -3);
    assert_eq!(t.get_model_matrix(&a), Some(3));
    assert_eq!(t.get_model_inverse(&a), Some(-3));
}

#[test]
fn input_events_update_state_with_tick_number() {
    let mut k = Keyboard::new();
    let mut m = Mouse::new();
    let mut d = Display::new((640, 480));
    let key = KeyCode { code: 30 };
    assert!(apply_input(InputEvent::Key(key, ButtonState::Pressed), 12, &mut k, &mut m, &mut d));
    assert!(apply_input(
        InputEvent::MouseInput(MouseButton::Right, ButtonState::Pressed),
        13,
        &mut k,
        &mut m,
        &mut d
    ));
    assert!(apply_input(InputEvent::MouseMoved(10, -3), 13, &mut k, &mut m, &mut d));
    assert!(apply_input(InputEvent::Resized(1024, 768), 13, &mut k, &mut m, &mut d));
    assert!(apply_input(InputEvent::Focused(false), 13, &mut k, &mut m, &mut d));
    assert_eq!(k.get_key(key), Button::new(12, ButtonState::Pressed));
    assert_eq!(m.get_button(MouseButton::Right), Button::new(13, ButtonState::Pressed));
    assert_eq!(m.get_button(MouseButton::Left), Button::new(0, ButtonState::Released));
    assert_eq!(m.get_mouse_position(), (10, -3));
    assert_eq!(d.get_resolution(), (1024, 768));
}

#[test]
fn close_event_stops_polling_and_changes_nothing() {
    let mut k = Keyboard::new();
    let mut m = Mouse::new();
    let mut d = Display::new((640, 480));
    assert!(!apply_input(InputEvent::Closed, 5, &mut k, &mut m, &mut d));
    assert_eq!(d.get_resolution(), (640, 480));
    assert_eq!(m.get_mouse_position(), (0, 0));
}
