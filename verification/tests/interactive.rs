use std::collections::VecDeque;
use std::path::PathBuf;

use lux::interactive::{AbstractKey, Event, EventIterator, MouseButton, MouseScrollDelta};
use lux::keycodes::{keycode_to_char, VirtualKeyCode};

#[test]
fn keycodes_to_chars() {
    assert_eq!(keycode_to_char(VirtualKeyCode::A), Some('a'));
    assert_eq!(keycode_to_char(VirtualKeyCode::Z), Some('z'));
    assert_eq!(keycode_to_char(VirtualKeyCode::Key0), Some('0'));
    assert_eq!(keycode_to_char(VirtualKeyCode::Numpad7), Some('7'));
    assert_eq!(keycode_to_char(VirtualKeyCode::Return), Some('\n'));
    assert_eq!(keycode_to_char(VirtualKeyCode::NumpadEnter), Some('\n'));
    assert_eq!(keycode_to_char(VirtualKeyCode::Tab), Some('\t'));
    assert_eq!(keycode_to_char(VirtualKeyCode::Space), Some(' '));
    assert_eq!(keycode_to_char(VirtualKeyCode::Backslash), Some('\\'));
    assert_eq!(keycode_to_char(VirtualKeyCode::Apostrophe), Some('\''));
    assert_eq!(keycode_to_char(VirtualKeyCode::Subtract), Some('-'));
    assert_eq!(keycode_to_char(VirtualKeyCode::Slash), None);
    assert_eq!(keycode_to_char(VirtualKeyCode::Apps), None);
    assert_eq!(keycode_to_char(VirtualKeyCode::Escape), None);
    assert_eq!(keycode_to_char(VirtualKeyCode::F1), None);
}

#[test]
fn abstract_keys() {
    assert_eq!(5u8.to_key(), (Some(5), None, None));
    assert_eq!('x'.to_key(), (None, Some('x'), None));
    assert_eq!(VirtualKeyCode::Escape.to_key(), (None, None, Some(VirtualKeyCode::Escape)));
}

fn sample() -> VecDeque<Event> {
    let mut v = VecDeque::new();
    v.push_back(Event::MouseMoved((1, 2)));
    v.push_back(Event::MouseDown(MouseButton::Left));
    v.push_back(Event::KeyPressed(30, Some('a'), Some(VirtualKeyCode::A)));
    v
}

#[test]
fn event_iterator_front_and_back() {
    let mut it = EventIterator::from_deque(sample());
    assert!(!it.is_empty());
    assert_eq!(it.size_hint(), (3, Some(3)));
    assert_eq!(it.next(), Some(Event::MouseMoved((1, 2))));
    assert_eq!(it.next_back(), Some(Event::KeyPressed(30, Some('a'), Some(VirtualKeyCode::A))));
    assert_eq!(it.size_hint(), (1, Some(1)));
    assert_eq!(it.next(), Some(Event::MouseDown(MouseButton::Left)));
    assert!(it.is_empty());
    assert_eq!(it.next(), None);
    assert_eq!(it.next_back(), None);
}

#[test]
fn event_iterator_views() {
    let mut it = EventIterator::from_deque(sample());
    assert_eq!(it.as_ref().count(), 3);
    for e in it.as_mut() {
        if let Event::MouseMoved(p) = e {
            *p = (5, 6);
        }
    }
    assert_eq!(it.as_ref().next(), Some(&Event::MouseMoved((5, 6))));
    let back = it.into_deque();
    assert_eq!(back.len(), 3);
    assert_eq!(back[0], Event::MouseMoved((5, 6)));
}

#[test]
fn events_clone() {
    let e = Event::MouseWheel(MouseScrollDelta::LineDelta(1.5f32.to_bits(), 0));
    assert_eq!(e.clone(), e);
    let f = Event::FileDropped(PathBuf::from("/tmp/a.png"));
    assert_eq!(f.clone(), f);
    let k = Event::KeyReleased(3, None, None);
    assert_eq!(k.clone(), k);
}

#[test]
fn mouse_buttons_compare() {
    assert_eq!(MouseButton::Other(4), MouseButton::Other(4));
    assert_ne!(MouseButton::Left, MouseButton::Right);
}
