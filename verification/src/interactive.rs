//! Events coming from an interactive window, and the keys of the keyboard.

use std::collections::VecDeque;
use std::collections::vec_deque::{Iter, IterMut};
use std::path::PathBuf;
use vstd::prelude::*;
use vstd::std_specs::iter::IteratorSpec;

pub use crate::keycodes::VirtualKeyCode;
use crate::keycodes::keycode_char;

verus! {

/// A path on the file system, as handed over by the windowing system.
#[verifier::external_type_specification]
#[verifier::external_body]
pub struct ExPathBuf(PathBuf);

/// A mutable iterator over the events of a queue.
#[verifier::external_type_specification]
#[verifier::external_body]
#[verifier::reject_recursive_types(T)]
pub struct ExIterMut<'a, T: 'a>(IterMut<'a, T>);

/// The amount that the mouse wheel moved.
///
/// The amounts are fractional; each is held as the bit pattern of a 32-bit
/// IEEE float (`f32::to_bits`), horizontal first.
#[derive(Clone, Copy, PartialEq, Eq, Debug, Structural)]
pub enum MouseScrollDelta {
    /// A movement in lines (or rows and columns).
    LineDelta(u32, u32),
    /// A movement in pixels.
    PixelDelta(u32, u32),
}

/// A handy enumeration for the buttons on a mouse.
#[derive(Clone, Copy, PartialEq, Eq, Hash, Debug, Structural)]
pub enum MouseButton {
    /// The left mouse button.
    Left,
    /// The right mouse button.
    Right,
    /// The middle mouse button.
    Middle,
    /// Any other unnamed mouse button.
    Other(u8),
}

/// An event coming from an Interactive object.
#[derive(PartialEq, Debug)]
pub enum Event {
    /// The mouse moved to this position.
    MouseMoved((i32, i32)),
    /// The mouse wheel moved by this delta.
    MouseWheel(MouseScrollDelta),
    /// This mouse button was pushed down.
    MouseDown(MouseButton),
    /// This mouse button was released.
    MouseUp(MouseButton),
    /// This key was pressed.
    ///
    /// The keycode `u8` is always given, which can sometimes be translated
    /// into a `char` and can sometimes be translated to a `VirtualKeyCode`.
    KeyPressed(u8, Option<char>, Option<VirtualKeyCode>),
    /// This key was released.
    KeyReleased(u8, Option<char>, Option<VirtualKeyCode>),
    /// The window was resized to this size.
    WindowResized((u32, u32)),
    /// The window was moved to this position on the screen.
    WindowMoved((i32, i32)),
    /// A file has been dragged-and-dropped into the screen.
    FileDropped(PathBuf),
}

/// Copies a path.
///
/// Calls `PathBuf::clone`; the copy is opaque to the verifier, so nothing is
/// stated of it.
#[verifier::external_body]
fn clone_path(p: &PathBuf) -> PathBuf {
    p.clone()
}

impl Clone for Event {
    fn clone(&self) -> (r: Event)
        ensures
            !(self is FileDropped) ==> r == *self,
            self is FileDropped ==> r is FileDropped,
    {
        match self {
            Event::MouseMoved(p) => Event::MouseMoved(*p),
            Event::MouseWheel(d) => Event::MouseWheel(*d),
            Event::MouseDown(b) => Event::MouseDown(*b),
            Event::MouseUp(b) => Event::MouseUp(*b),
            Event::KeyPressed(code, c, v) => Event::KeyPressed(*code, *c, *v),
            Event::KeyReleased(code, c, v) => Event::KeyReleased(*code, *c, *v),
            Event::WindowResized(s) => Event::WindowResized(*s),
            Event::WindowMoved(p) => Event::WindowMoved(*p),
            Event::FileDropped(path) => Event::FileDropped(clone_path(path)),
        }
    }
}

/// An iterator for windowing events.
///
/// It contains a `VecDeque<Event>` internally
/// that it pulls items from during iteration.
pub struct EventIterator {
    backing: VecDeque<Event>,
}

impl View for EventIterator {
    type V = Seq<Event>;

    closed spec fn view(&self) -> Seq<Event> {
        self.backing@
    }
}

impl EventIterator {
    /// Returns true if this event iterator contains no events
    pub fn is_empty(&self) -> (r: bool)
        ensures
            r == (self@.len() == 0),
    {
        broadcast use vstd::std_specs::vecdeque::group_vec_dequeue_axioms;

        self.backing.len() == 0
    }

    /// Constructs an `EventIterator` from a `VecDeque`.
    pub fn from_deque(v: VecDeque<Event>) -> (r: EventIterator)
        ensures
            r@ == v@,
    {
        EventIterator { backing: v }
    }

    /// Converts this `EventIterator` back into a `VecDeque`.
    pub fn into_deque(self) -> (r: VecDeque<Event>)
        ensures
            r@ == self@,
    {
        self.backing
    }

    /// Returns an iterator over the events contained inside without
    /// removing them.
    pub fn as_ref(&self) -> (r: Iter<'_, Event>)
        ensures
            r.remaining() == self@.map_values(|e: Event| &e),
    {
        broadcast use vstd::std_specs::vecdeque::group_vec_dequeue_axioms;

        let r = self.backing.iter();
        assert(self@.as_ref() =~= self@.map_values(|e: Event| &e));
        r
    }

    /// Returns a mutable iterator over the events contained
    /// inside without removing them.
    ///
    /// Calls `VecDeque::iter_mut`; nothing is stated of what the caller does
    /// to the events through the iterator.
    #[verifier::external_body]
    pub fn as_mut(&mut self) -> IterMut<'_, Event> {
        self.backing.iter_mut()
    }

    /// Removes and returns the oldest event.
    pub fn next(&mut self) -> (r: Option<Event>)
        ensures
            old(self)@.len() == 0 ==> r is None && final(self)@ == old(self)@,
            old(self)@.len() > 0 ==> r == Some(old(self)@[0]) && final(self)@ == old(self)@.drop_first(),
    {
        self.backing.pop_front()
    }

    /// Removes and returns the newest event.
    pub fn next_back(&mut self) -> (r: Option<Event>)
        ensures
            old(self)@.len() == 0 ==> r is None && final(self)@ == old(self)@,
            old(self)@.len() > 0 ==> r == Some(old(self)@.last()) && final(self)@ == old(self)@.drop_last(),
    {
        self.backing.pop_back()
    }

    /// The number of events left, as bounds: both bounds are exact.
    pub fn size_hint(&self) -> (r: (usize, Option<usize>))
        ensures
            r.0 == self@.len(),
            r.1 == Some(self@.len() as usize),
    {
        broadcast use vstd::std_specs::vecdeque::group_vec_dequeue_axioms;

        let n = self.backing.len();
        (n, Some(n))
    }
}

/// The three ways a key can be named: by its scancode, by the character it
/// produces, and by its virtual key code.
pub type KeyNames = (Option<u8>, Option<char>, Option<VirtualKeyCode>);

/// A conversion trait for representing the different ways that a key
/// can be represented.
pub trait AbstractKey: Sized {
    /// The key names that `to_key` gives for this key.
    spec fn key_names(self) -> KeyNames;

    /// Converts an abstract key into a set of concrete key implementations.
    fn to_key(self) -> (r: KeyNames)
        ensures
            r == self.key_names(),
    ;
}

impl AbstractKey for u8 {
    open spec fn key_names(self) -> KeyNames {
        (Some(self), None, None)
    }

    fn to_key(self) -> (r: KeyNames) {
        (Some(self), None, None)
    }
}

impl AbstractKey for char {
    open spec fn key_names(self) -> KeyNames {
        (None, Some(self), None)
    }

    fn to_key(self) -> (r: KeyNames) {
        (None, Some(self), None)
    }
}

impl AbstractKey for VirtualKeyCode {
    open spec fn key_names(self) -> KeyNames {
        (None, None, Some(self))
    }

    fn to_key(self) -> (r: KeyNames) {
        (None, None, Some(self))
    }
}

} // verus!
