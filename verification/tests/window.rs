use std::path::PathBuf;

use lux::interactive::{Event, MouseButton, MouseScrollDelta};
use lux::keycodes::VirtualKeyCode;
use lux::window::{batch_fits, ElementState, Window, WindowEvent, WindowOptions};

fn window() -> Window {
    Window::new(WindowOptions::default(), (640, 480))
}

#[test]
fn default_options() {
    let o = WindowOptions::default();
    assert_eq!(o.dimensions, (800, 500));
    assert_eq!(o.title, "Lux");
    assert!(o.vsync);
    assert_eq!(o.multisampling, 1);
    assert!(!o.transparent);
    assert!(o.decorations);
    assert!(o.clone() == o);
}

#[test]
fn new_window_state() {
    let w = window();
    assert!(w.was_open());
    assert_eq!(w.title(), "Lux");
    assert_eq!(w.get_size_u(), (640, 480));
    assert_eq!(w.width_u(), 640);
    assert_eq!(w.height_u(), 480);
    assert!(w.is_focused());
    assert!(!w.is_mouse_down());
    assert_eq!(w.mouse_pos_i(), (0, 0));
    assert!(!w.is_key_pressed(30u8));
}

#[test]
fn new_window_takes_its_title_from_the_options() {
    let mut o = WindowOptions::default();
    o.title = "Asteroids".to_string();
    let w = Window::new(o, (100, 50));
    assert_eq!(w.title(), "Asteroids");
    assert_eq!(w.options().title, "Asteroids");
}

#[test]
fn change_options_reports_changes() {
    let mut w = window();
    assert!(!w.change_options(WindowOptions::default()));
    let mut o = WindowOptions::default();
    o.title = "Game".to_string();
    assert!(w.change_options(o));
    assert_eq!(w.options().title, "Game");
    assert_eq!(w.title(), "Game");
    let mut o = w.options().clone();
    o.dimensions = (1, 1);
    assert!(w.change_options(o));
    assert!(!w.change_options(w.options().clone()));
}

#[test]
fn mouse_events_update_state_and_queue() {
    let mut w = window();
    let mut it = w.events(vec![
        WindowEvent::MouseMoved(10, -3),
        WindowEvent::MouseInput(ElementState::Pressed, MouseButton::Left),
        WindowEvent::MouseWheel(MouseScrollDelta::PixelDelta(0, 2.0f32.to_bits())),
    ]);
    assert_eq!(w.mouse_pos_i(), (10, -3));
    assert_eq!(w.mouse_x_i(), 10);
    assert_eq!(w.mouse_y_i(), -3);
    assert!(w.is_mouse_down());
    assert_eq!(it.next(), Some(Event::MouseMoved((10, -3))));
    assert_eq!(it.next(), Some(Event::MouseDown(MouseButton::Left)));
    assert_eq!(it.next(), Some(Event::MouseWheel(MouseScrollDelta::PixelDelta(0, 2.0f32.to_bits()))));
    assert_eq!(it.next(), None);

    let mut it = w.events(vec![WindowEvent::MouseInput(ElementState::Released, MouseButton::Left)]);
    assert!(!w.is_mouse_down());
    assert_eq!(it.next(), Some(Event::MouseUp(MouseButton::Left)));
}

#[test]
fn releasing_unpressed_button_does_not_underflow() {
    let mut w = window();
    w.process_events(vec![WindowEvent::MouseInput(ElementState::Released, MouseButton::Right)]);
    assert!(!w.is_mouse_down());
    assert_eq!(w.mouse_down_count(), 0);
    w.process_events(vec![
        WindowEvent::MouseInput(ElementState::Pressed, MouseButton::Right),
        WindowEvent::MouseInput(ElementState::Pressed, MouseButton::Left),
        WindowEvent::MouseInput(ElementState::Released, MouseButton::Right),
    ]);
    assert_eq!(w.mouse_down_count(), 1);
}

#[test]
fn batches_fit_while_the_held_count_stays_small() {
    let raw = vec![
        WindowEvent::MouseInput(ElementState::Pressed, MouseButton::Right),
        WindowEvent::MouseMoved(1, 1),
        WindowEvent::MouseInput(ElementState::Released, MouseButton::Right),
        WindowEvent::MouseInput(ElementState::Pressed, MouseButton::Other(7)),
    ];
    // Two presses, but never two buttons held at once.
    assert!(batch_fits(254, &raw));
    assert!(!batch_fits(255, &raw));
    assert!(batch_fits(255, &vec![]));
    // A release before the presses makes room.
    let mut released_first = vec![WindowEvent::MouseInput(ElementState::Released, MouseButton::Left)];
    released_first.extend(raw);
    assert!(batch_fits(255, &released_first));
}

#[test]
fn a_full_count_takes_presses_after_releases() {
    let mut w = Window::new(WindowOptions::default(), (10, 10));
    let presses: Vec<WindowEvent> =
        (0..255).map(|_| WindowEvent::MouseInput(ElementState::Pressed, MouseButton::Left)).collect();
    assert!(batch_fits(0, &presses));
    w.process_events(presses);
    assert_eq!(w.mouse_down_count(), 255);
    let raw = vec![
        WindowEvent::MouseInput(ElementState::Released, MouseButton::Left),
        WindowEvent::MouseInput(ElementState::Pressed, MouseButton::Left),
    ];
    assert!(batch_fits(w.mouse_down_count(), &raw));
    w.process_events(raw);
    assert_eq!(w.mouse_down_count(), 255);
}

#[test]
fn window_events_resize_move_focus_close() {
    let mut w = window();
    assert!(w.is_open(vec![WindowEvent::Resized(100, 50), WindowEvent::Moved(-5, 7), WindowEvent::Focused(false)]));
    assert_eq!(w.get_size_u(), (100, 50));
    assert!(!w.is_focused());
    let mut it = w.events(vec![WindowEvent::Other]);
    assert_eq!(it.next(), Some(Event::WindowResized((100, 50))));
    assert_eq!(it.next(), Some(Event::WindowMoved((-5, 7))));
    assert_eq!(it.next(), None);
    assert!(!w.is_open(vec![WindowEvent::Closed]));
    assert!(!w.was_open());
    // Closing is permanent.
    assert!(!w.is_open(vec![WindowEvent::Focused(true)]));
}

#[test]
fn key_press_uses_virtual_key_char() {
    let mut w = window();
    let mut it = w.events(vec![
        WindowEvent::ReceivedCharacter('A'),
        WindowEvent::KeyboardInput(ElementState::Pressed, 30, Some(VirtualKeyCode::A)),
    ]);
    assert_eq!(it.next(), Some(Event::KeyPressed(30, Some('a'), Some(VirtualKeyCode::A))));
    assert!(w.is_key_pressed(30u8));
    assert!(w.is_key_pressed('a'));
    assert!(!w.is_key_pressed('A'));
    assert!(w.is_key_pressed(VirtualKeyCode::A));

    let mut it = w.events(vec![WindowEvent::KeyboardInput(ElementState::Released, 30, Some(VirtualKeyCode::A))]);
    assert_eq!(it.next(), Some(Event::KeyReleased(30, Some('a'), Some(VirtualKeyCode::A))));
    assert!(!w.is_key_pressed(30u8));
    assert!(!w.is_key_pressed('a'));
    assert!(!w.is_key_pressed(VirtualKeyCode::A));
}

#[test]
fn key_press_uses_received_char_then_remembers_it() {
    let mut w = window();
    let mut it = w.events(vec![
        WindowEvent::ReceivedCharacter('!'),
        WindowEvent::KeyboardInput(ElementState::Pressed, 2, Some(VirtualKeyCode::LShift)),
        WindowEvent::KeyboardInput(ElementState::Pressed, 2, None),
    ]);
    assert_eq!(it.next(), Some(Event::KeyPressed(2, Some('!'), Some(VirtualKeyCode::LShift))));
    // The received character is consumed; the scancode remembers it.
    assert_eq!(it.next(), Some(Event::KeyPressed(2, Some('!'), None)));
    assert!(w.is_key_pressed('!'));
    assert!(w.is_key_pressed(VirtualKeyCode::LShift));

    // A later character does not replace the remembered one.
    let mut it = w.events(vec![
        WindowEvent::ReceivedCharacter('?'),
        WindowEvent::KeyboardInput(ElementState::Released, 2, None),
    ]);
    assert_eq!(it.next(), Some(Event::KeyReleased(2, Some('!'), None)));
    assert!(!w.is_key_pressed('!'));
}

#[test]
fn key_without_any_char() {
    let mut w = window();
    let mut it = w.events(vec![WindowEvent::KeyboardInput(ElementState::Pressed, 1, Some(VirtualKeyCode::Escape))]);
    assert_eq!(it.next(), Some(Event::KeyPressed(1, None, Some(VirtualKeyCode::Escape))));
    assert!(w.is_key_pressed(VirtualKeyCode::Escape));
    assert!(w.is_key_pressed(1u8));
}

#[test]
fn dropped_files_are_queued() {
    let mut w = window();
    let mut it = w.events(vec![WindowEvent::DroppedFile(PathBuf::from("a.png"))]);
    assert_eq!(it.next(), Some(Event::FileDropped(PathBuf::from("a.png"))));
}

#[test]
fn restocked_events_come_back_first() {
    let mut w = window();
    let mut it = w.events(vec![WindowEvent::MouseMoved(1, 1), WindowEvent::MouseMoved(2, 2)]);
    assert_eq!(it.next(), Some(Event::MouseMoved((1, 1))));
    w.restock_events(it);
    let mut it = w.events(vec![WindowEvent::MouseMoved(3, 3)]);
    assert_eq!(it.next(), Some(Event::MouseMoved((2, 2))));
    assert_eq!(it.next(), Some(Event::MouseMoved((3, 3))));
    assert_eq!(it.next(), None);
}

#[test]
fn events_then_restock_restores_queue() {
    let mut w = window();
    w.process_events(vec![WindowEvent::Resized(1, 2), WindowEvent::Moved(3, 4)]);
    let it = w.events(vec![]);
    w.restock_events(it);
    let mut it = w.events(vec![]);
    assert_eq!(it.next(), Some(Event::WindowResized((1, 2))));
    assert_eq!(it.next(), Some(Event::WindowMoved((3, 4))));
    assert!(it.is_empty());
}

#[test]
fn a_key_is_pressed_when_its_last_event_was_a_press() {
    let mut w = window();
    w.process_events(vec![
        WindowEvent::KeyboardInput(ElementState::Pressed, 30, Some(VirtualKeyCode::A)),
        WindowEvent::KeyboardInput(ElementState::Pressed, 48, Some(VirtualKeyCode::B)),
        WindowEvent::KeyboardInput(ElementState::Released, 30, Some(VirtualKeyCode::A)),
        WindowEvent::MouseMoved(3, 4),
    ]);
    // The last event about A was its release, the last about B its press.
    assert!(!w.is_key_pressed(30u8));
    assert!(!w.is_key_pressed('a'));
    assert!(!w.is_key_pressed(VirtualKeyCode::A));
    assert!(w.is_key_pressed(48u8));
    assert!(w.is_key_pressed('b'));
    assert!(w.is_key_pressed(VirtualKeyCode::B));
    // No event ever named C.
    assert!(!w.is_key_pressed(VirtualKeyCode::C));

    // A batch about other keys leaves A and B as they were.
    w.process_events(vec![WindowEvent::KeyboardInput(ElementState::Pressed, 46, Some(VirtualKeyCode::C))]);
    assert!(!w.is_key_pressed(30u8));
    assert!(w.is_key_pressed(48u8));
    assert!(w.is_key_pressed(VirtualKeyCode::C));

    // Pressed again after its release: pressed.
    w.process_events(vec![
        WindowEvent::KeyboardInput(ElementState::Released, 30, Some(VirtualKeyCode::A)),
        WindowEvent::KeyboardInput(ElementState::Pressed, 30, Some(VirtualKeyCode::A)),
    ]);
    assert!(w.is_key_pressed('a'));
}

#[test]
fn window_options_are_eq() {
    fn same<T: Eq>(a: &T, b: &T) -> bool {
        a == b
    }
    assert!(same(&WindowOptions::default(), &WindowOptions::default()));
    let mut o = WindowOptions::default();
    o.vsync = false;
    assert!(!same(&o, &WindowOptions::default()));
}
