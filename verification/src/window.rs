//! The state of a window as the user sees it: its options, its size and
//! position, the mouse, the keys held down and the queue of events that the
//! windowing system reported.

use std::collections::{HashMap, VecDeque};
use std::path::PathBuf;
use vstd::prelude::*;

use crate::interactive::{AbstractKey, Event, EventIterator, KeyNames, MouseButton, MouseScrollDelta};
use crate::keycodes::{
    key_index, key_number, keycode_char, keycode_to_char, lemma_key_index_injective, VirtualKeyCode,
};

verus! {

/// A set of options that can be applied to a window
pub struct WindowOptions {
    /// The size of the window in pixels.
    pub dimensions: (u32, u32),
    /// The title displayed on the top of the window.
    pub title: String,
    /// If Vsync is enabled
    pub vsync: bool,
    /// The number of multisampling passes. Must be a power of 2.
    pub multisampling: u16,
    /// True if the window should be transparent.
    pub transparent: bool,
    /// True if the window should have no border or title-bar.
    pub decorations: bool,
}

/// Two sets of window options are the same when every option is.
pub open spec fn same_options(a: WindowOptions, b: WindowOptions) -> bool {
    &&& a.dimensions == b.dimensions
    &&& a.title@ == b.title@
    &&& a.vsync == b.vsync
    &&& a.multisampling == b.multisampling
    &&& a.transparent == b.transparent
    &&& a.decorations == b.decorations
}

impl Clone for WindowOptions {
    fn clone(&self) -> (r: WindowOptions)
        ensures
            same_options(r, *self),
    {
        WindowOptions {
            dimensions: self.dimensions,
            title: self.title.clone(),
            vsync: self.vsync,
            multisampling: self.multisampling,
            transparent: self.transparent,
            decorations: self.decorations,
        }
    }
}

impl PartialEq for WindowOptions {
    fn eq(&self, other: &WindowOptions) -> (r: bool) {
        self.dimensions.0 == other.dimensions.0 && self.dimensions.1 == other.dimensions.1
            && self.title == other.title && self.vsync == other.vsync && self.multisampling
            == other.multisampling && self.transparent == other.transparent && self.decorations
            == other.decorations
    }
}

impl Eq for WindowOptions {

}

impl vstd::std_specs::cmp::PartialEqSpecImpl for WindowOptions {
    open spec fn obeys_eq_spec() -> bool {
        true
    }

    open spec fn eq_spec(&self, other: &WindowOptions) -> bool {
        same_options(*self, *other)
    }
}

impl Default for WindowOptions {
    fn default() -> (r: WindowOptions)
        ensures
            r.dimensions == (800u32, 500u32),
            r.title@ == "Lux"@,
            r.vsync,
            r.multisampling == 1,
            !r.transparent,
            r.decorations,
    {
        WindowOptions {
            dimensions: (800, 500),
            title: "Lux".to_string(),
            multisampling: 1,
            vsync: true,
            transparent: false,
            decorations: true,
        }
    }
}

/// Whether a key or a mouse button went down or up.
#[derive(Clone, Copy, PartialEq, Eq, Debug, Structural)]
pub enum ElementState {
    Pressed,
    Released,
}

/// An event as the windowing system reports it, before the window turns it
/// into an `Event` and updates its state.
#[derive(Debug)]
pub enum WindowEvent {
    /// The mouse moved to this position.
    MouseMoved(i32, i32),
    /// A mouse button went down or up.
    MouseInput(ElementState, MouseButton),
    /// The window was resized to this size.
    Resized(u32, u32),
    /// The window was moved to this position.
    Moved(i32, i32),
    /// The mouse wheel moved.
    MouseWheel(MouseScrollDelta),
    /// The keyboard produced this character.
    ReceivedCharacter(char),
    /// A key went down or up: its scancode and its virtual key code, if any.
    KeyboardInput(ElementState, u8, Option<VirtualKeyCode>),
    /// The window gained or lost the focus.
    Focused(bool),
    /// The window was closed.
    Closed,
    /// A file was dropped onto the window.
    DroppedFile(PathBuf),
    /// Any other event (wake-ups, refreshes, touches); these change nothing.
    Other,
}

/// The state of a window, as a mathematical value.
pub struct WindowModel {
    pub options: WindowOptions,
    pub closed: bool,
    pub events: Seq<Event>,
    pub mouse_pos: (i32, i32),
    pub window_pos: (i32, i32),
    pub window_size: (u32, u32),
    pub focused: bool,
    pub mouse_down_count: u8,
    pub events_since_last_render: bool,
    pub codes_pressed: Map<u8, bool>,
    pub chars_pressed: Map<char, bool>,
    pub virtual_keys_pressed: Map<VirtualKeyCode, bool>,
    pub code_to_char: Map<u8, char>,
}

/// The character that a key event carries: the one of its virtual key code,
/// else (for a press) the last character received, else the one that its
/// scancode produced before.
pub open spec fn key_event_char(
    m: WindowModel,
    code: u8,
    virt: Option<VirtualKeyCode>,
    last_char: Option<char>,
) -> Option<char> {
    let from_virt = match virt {
        Some(v) => keycode_char(v),
        None => None,
    };
    if from_virt is Some {
        from_virt
    } else if last_char is Some {
        last_char
    } else if m.code_to_char.contains_key(code) {
        Some(m.code_to_char[code])
    } else {
        None
    }
}

/// Records in the key tables that a key is held down (`down`) or not.
pub open spec fn record_key(
    m: WindowModel,
    code: u8,
    c: Option<char>,
    virt: Option<VirtualKeyCode>,
    down: bool,
) -> WindowModel {
    WindowModel {
        codes_pressed: m.codes_pressed.insert(code, down),
        chars_pressed: match c {
            Some(ch) => m.chars_pressed.insert(ch, down),
            None => m.chars_pressed,
        },
        virtual_keys_pressed: match virt {
            Some(v) => m.virtual_keys_pressed.insert(v, down),
            None => m.virtual_keys_pressed,
        },
        ..m
    }
}

/// How the window's state and the last received character change on one
/// event from the windowing system.
pub open spec fn step(m: WindowModel, last_char: Option<char>, e: WindowEvent) -> (WindowModel, Option<char>) {
    match e {
        WindowEvent::MouseMoved(x, y) => (
            WindowModel { mouse_pos: (x, y), events: m.events.push(Event::MouseMoved((x, y))), ..m },
            last_char,
        ),
        WindowEvent::MouseInput(ElementState::Pressed, b) => (
            WindowModel {
                events: m.events.push(Event::MouseDown(b)),
                mouse_down_count: (m.mouse_down_count + 1) as u8,
                ..m
            },
            last_char,
        ),
        WindowEvent::MouseInput(ElementState::Released, b) => (
            WindowModel {
                events: m.events.push(Event::MouseUp(b)),
                mouse_down_count: if m.mouse_down_count != 0 {
                    (m.mouse_down_count - 1) as u8
                } else {
                    0
                },
                ..m
            },
            last_char,
        ),
        WindowEvent::Resized(w, h) => (
            WindowModel {
                window_size: (w, h),
                events: m.events.push(Event::WindowResized((w, h))),
                ..m
            },
            last_char,
        ),
        WindowEvent::Moved(x, y) => (
            WindowModel { window_pos: (x, y), events: m.events.push(Event::WindowMoved((x, y))), ..m },
            last_char,
        ),
        WindowEvent::MouseWheel(d) => (
            WindowModel { events: m.events.push(Event::MouseWheel(d)), ..m },
            last_char,
        ),
        WindowEvent::ReceivedCharacter(c) => (m, Some(c)),
        WindowEvent::KeyboardInput(ElementState::Pressed, code, virt) => {
            let c = key_event_char(m, code, virt, last_char);
            let m1 = WindowModel {
                events: m.events.push(Event::KeyPressed(code, c, virt)),
                code_to_char: match c {
                    Some(ch) => if m.code_to_char.contains_key(code) {
                        m.code_to_char
                    } else {
                        m.code_to_char.insert(code, ch)
                    },
                    None => m.code_to_char,
                },
                ..m
            };
            (record_key(m1, code, c, virt, true), None)
        },
        WindowEvent::KeyboardInput(ElementState::Released, code, virt) => {
            let c = key_event_char(m, code, virt, None);
            let m1 = WindowModel { events: m.events.push(Event::KeyReleased(code, c, virt)), ..m };
            (record_key(m1, code, c, virt, false), last_char)
        },
        WindowEvent::Focused(f) => (WindowModel { focused: f, ..m }, last_char),
        WindowEvent::Closed => (WindowModel { closed: true, ..m }, last_char),
        WindowEvent::DroppedFile(p) => (
            WindowModel { events: m.events.push(Event::FileDropped(p)), ..m },
            last_char,
        ),
        WindowEvent::Other => (m, last_char),
    }
}

/// The state after a sequence of events, starting with no character received.
pub open spec fn run(m: WindowModel, evs: Seq<WindowEvent>) -> (WindowModel, Option<char>)
    decreases evs.len(),
{
    if evs.len() == 0 {
        (m, None)
    } else {
        let (m1, lc) = run(m, evs.drop_last());
        step(m1, lc, evs.last())
    }
}

/// The number of mouse buttons held down after some events, starting from
/// `count` held: a press adds one, a release takes one away unless none is
/// held.
pub open spec fn mouse_held(count: int, evs: Seq<WindowEvent>) -> int
    decreases evs.len(),
{
    if evs.len() == 0 {
        count
    } else {
        let h = mouse_held(count, evs.drop_last());
        match evs.last() {
            WindowEvent::MouseInput(ElementState::Pressed, _) => h + 1,
            WindowEvent::MouseInput(ElementState::Released, _) => if h > 0 {
                h - 1
            } else {
                0
            },
            _ => h,
        }
    }
}

/// The window counts at most 255 mouse buttons held down: starting from
/// `count` held, no prefix of the events holds more.
pub open spec fn held_counts_fit(count: u8, evs: Seq<WindowEvent>) -> bool {
    forall|k: int| 0 <= k <= evs.len() ==> #[trigger] mouse_held(count as int, evs.take(k)) <= 255
}

/// The state of the window before a batch of events is processed: the
/// batch counts as input since the last render.
pub open spec fn begin_batch(m: WindowModel) -> WindowModel {
    WindowModel { events_since_last_render: true, ..m }
}

/// The window state after processing a batch of events.
pub open spec fn processed(m: WindowModel, evs: Seq<WindowEvent>) -> WindowModel {
    run(begin_batch(m), evs).0
}

/// The window with its queue of events emptied.
pub open spec fn drained(m: WindowModel) -> WindowModel {
    WindowModel { events: Seq::empty(), ..m }
}

/// The window with some events put back at the front of its queue, in
/// their order.
pub open spec fn restocked(m: WindowModel, evs: Seq<Event>) -> WindowModel {
    WindowModel { events: evs + m.events, ..m }
}

/// Whether a key event names the key given in one of three ways: by
/// scancode, else by character, else by virtual key code.
pub open spec fn names_key(names: KeyNames, code: u8, c: Option<char>, v: Option<VirtualKeyCode>) -> bool {
    match names {
        (Some(k), _, _) => k == code,
        (_, Some(ch), _) => c == Some(ch),
        (_, _, Some(vk)) => v == Some(vk),
        (None, None, None) => false,
    }
}

/// What a queued event reports of the named key: `Some(true)` when it went
/// down, `Some(false)` when it went up, `None` when the event is not about
/// that key.
pub open spec fn key_report(e: Event, names: KeyNames) -> Option<bool> {
    match e {
        Event::KeyPressed(code, c, v) => if names_key(names, code, c, v) {
            Some(true)
        } else {
            None
        },
        Event::KeyReleased(code, c, v) => if names_key(names, code, c, v) {
            Some(false)
        } else {
            None
        },
        _ => None,
    }
}

/// The most recent report of the named key among some events, if any.
pub open spec fn last_key_report(evs: Seq<Event>, names: KeyNames) -> Option<bool>
    decreases evs.len(),
{
    if evs.len() == 0 {
        None
    } else {
        match key_report(evs.last(), names) {
            Some(b) => Some(b),
            None => last_key_report(evs.drop_last(), names),
        }
    }
}

/// Whether a key, named in one of three ways, is held down.
pub open spec fn key_pressed(m: WindowModel, names: KeyNames) -> bool {
    match names {
        (Some(code), _, _) => m.codes_pressed.contains_key(code) && m.codes_pressed[code],
        (_, Some(chr), _) => m.chars_pressed.contains_key(chr) && m.chars_pressed[chr],
        (_, _, Some(key)) => m.virtual_keys_pressed.contains_key(key) && m.virtual_keys_pressed[key],
        (None, None, None) => false,
    }
}

/// The characters held down, as recorded in a table keyed by code point.
spec fn char_table(h: Map<u32, bool>) -> Map<char, bool> {
    Map::new(|c: char| h.contains_key(c as u32), |c: char| h[c as u32])
}

/// The virtual keys held down, as recorded in a table keyed by key number.
spec fn key_table(h: Map<u32, bool>) -> Map<VirtualKeyCode, bool> {
    Map::new(|v: VirtualKeyCode| h.contains_key(key_index(v)), |v: VirtualKeyCode| h[key_index(v)])
}

proof fn lemma_char_table_insert(h: Map<u32, bool>, c: char, b: bool)
    ensures
        char_table(h.insert(c as u32, b)) == char_table(h).insert(c, b),
{
    let l = char_table(h.insert(c as u32, b));
    let r = char_table(h).insert(c, b);
    assert forall|d: char| #[trigger] l.contains_key(d) == r.contains_key(d) by {
        if d != c {
            vstd::utf8::char_u32_cast(d, d as u32);
            vstd::utf8::char_u32_cast(c, c as u32);
        }
    }
    assert forall|d: char| #[trigger] l.contains_key(d) implies l[d] == r[d] by {
        if d != c {
            vstd::utf8::char_u32_cast(d, d as u32);
            vstd::utf8::char_u32_cast(c, c as u32);
        }
    }
    assert(l =~= r);
}

proof fn lemma_key_table_insert(h: Map<u32, bool>, v: VirtualKeyCode, b: bool)
    ensures
        key_table(h.insert(key_index(v), b)) == key_table(h).insert(v, b),
{
    assert forall|w: VirtualKeyCode| w != v implies key_index(w) != key_index(v) by {
        lemma_key_index_injective(w, v);
    }
    assert(key_table(h.insert(key_index(v), b)) =~= key_table(h).insert(v, b));
}

/// A 1 to 1 correlation with a window shown on your desktop: the part of its
/// state that follows from the events the windowing system reported.
pub struct Window {
    options: WindowOptions,
    closed: bool,
    event_store: VecDeque<Event>,
    mouse_pos: (i32, i32),
    window_pos: (i32, i32),
    window_size: (u32, u32),
    focused: bool,
    mouse_down_count: u8,
    events_since_last_render: bool,
    codes_pressed: HashMap<u8, bool>,
    /// Keyed by the character's code point.
    chars_pressed: HashMap<u32, bool>,
    /// Keyed by the number that names the key (`key_number`).
    virtual_keys_pressed: HashMap<u32, bool>,
    code_to_char: HashMap<u8, char>,
}

impl View for Window {
    type V = WindowModel;

    closed spec fn view(&self) -> WindowModel {
        WindowModel {
            options: self.options,
            closed: self.closed,
            events: self.event_store@,
            mouse_pos: self.mouse_pos,
            window_pos: self.window_pos,
            window_size: self.window_size,
            focused: self.focused,
            mouse_down_count: self.mouse_down_count,
            events_since_last_render: self.events_since_last_render,
            codes_pressed: self.codes_pressed@,
            chars_pressed: char_table(self.chars_pressed@),
            virtual_keys_pressed: key_table(self.virtual_keys_pressed@),
            code_to_char: self.code_to_char@,
        }
    }
}

/// Tells whether a batch of events can be processed by a window holding
/// `count` mouse buttons down: whether the count of buttons held stays at
/// most 255 all through the batch.
pub fn batch_fits(count: u8, raw: &Vec<WindowEvent>) -> (r: bool)
    ensures
        r == held_counts_fit(count, raw@),
{
    let mut held: u8 = count;
    let mut i: usize = 0;
    while i < raw.len()
        invariant
            i <= raw@.len(),
            held == mouse_held(count as int, raw@.take(i as int)),
            forall|k: int| 0 <= k <= i ==> #[trigger] mouse_held(count as int, raw@.take(k)) <= 255,
        decreases raw@.len() - i,
    {
        assert(raw@.take(i + 1).drop_last() =~= raw@.take(i as int));
        match &raw[i] {
            WindowEvent::MouseInput(ElementState::Pressed, _) => {
                if held == 255 {
                    assert(mouse_held(count as int, raw@.take(i + 1)) > 255);
                    return false;
                }
                held = held + 1;
            },
            WindowEvent::MouseInput(ElementState::Released, _) => {
                if held > 0 {
                    held = held - 1;
                }
            },
            _ => {},
        }
        i = i + 1;
    }
    assert(raw@.take(raw@.len() as int) =~= raw@);
    true
}

impl Window {
    /// The state of a window that was just opened with the given options and
    /// whose drawable area is `framebuffer_size` pixels: open, focused,
    /// titled as the options say, with the mouse at the origin, no button or key held, and
    /// no event queued.
    pub fn new(options: WindowOptions, framebuffer_size: (u32, u32)) -> (r: Window)
        ensures
            r@.options == options,
            !r@.closed,
            r@.events == Seq::<Event>::empty(),
            r@.mouse_pos == (0i32, 0i32),
            r@.window_pos == (0i32, 0i32),
            r@.window_size == framebuffer_size,
            r@.focused,
            r@.mouse_down_count == 0,
            !r@.events_since_last_render,
            r@.codes_pressed == Map::<u8, bool>::empty(),
            r@.chars_pressed == Map::<char, bool>::empty(),
            r@.virtual_keys_pressed == Map::<VirtualKeyCode, bool>::empty(),
            r@.code_to_char == Map::<u8, char>::empty(),
    {
        broadcast use vstd::std_specs::hash::group_hash_axioms;

        proof {
            assert(char_table(Map::empty()) =~= Map::<char, bool>::empty());
            assert(key_table(Map::empty()) =~= Map::<VirtualKeyCode, bool>::empty());
        }
        Window {
            options: options,
            closed: false,
            event_store: VecDeque::new(),
            mouse_pos: (0, 0),
            window_pos: (0, 0),
            window_size: framebuffer_size,
            focused: true,
            mouse_down_count: 0,
            events_since_last_render: false,
            codes_pressed: HashMap::new(),
            chars_pressed: HashMap::new(),
            virtual_keys_pressed: HashMap::new(),
            code_to_char: HashMap::new(),
        }
    }

    /// The options the window was built with.
    pub fn options(&self) -> (r: &WindowOptions)
        ensures
            *r == self@.options,
    {
        &self.options
    }

    /// Replaces the window options.  Returns true when they differ from the
    /// options in place, in which case the window has to be rebuilt with
    /// them.
    pub fn change_options(&mut self, options: WindowOptions) -> (changed: bool)
        ensures
            changed == !same_options(old(self)@.options, options),
            final(self)@ == (WindowModel { options: options, ..old(self)@ }),
    {
        let changed = !(self.options == options);
        self.options = options;
        changed
    }

    /// Updates the window for one event from the windowing system.
    fn handle_event(&mut self, e: WindowEvent, last_char: &mut Option<char>)
        requires
            e matches WindowEvent::MouseInput(ElementState::Pressed, _) ==> old(self)@.mouse_down_count
                < 255,
        ensures
            (final(self)@, *final(last_char)) == step(old(self)@, *old(last_char), e),
    {
        broadcast use vstd::std_specs::hash::group_hash_axioms;

        let ghost m = self@;
        let ghost lc = *last_char;
        let ghost ev = e;
        match e {
            WindowEvent::MouseMoved(x, y) => {
                self.mouse_pos = (x, y);
                self.event_store.push_back(Event::MouseMoved((x, y)));
            },
            WindowEvent::MouseInput(ElementState::Pressed, button) => {
                self.event_store.push_back(Event::MouseDown(button));
                self.mouse_down_count = self.mouse_down_count + 1;
            },
            WindowEvent::MouseInput(ElementState::Released, button) => {
                self.event_store.push_back(Event::MouseUp(button));
                // Don't underflow!
                if self.mouse_down_count != 0 {
                    self.mouse_down_count = self.mouse_down_count - 1;
                }
            },
            WindowEvent::Resized(w, h) => {
                self.window_size = (w, h);
                self.event_store.push_back(Event::WindowResized(self.window_size));
            },
            WindowEvent::Moved(x, y) => {
                self.window_pos = (x, y);
                self.event_store.push_back(Event::WindowMoved(self.window_pos));
            },
            WindowEvent::MouseWheel(wheel_delta) => {
                self.event_store.push_back(Event::MouseWheel(wheel_delta));
            },
            WindowEvent::ReceivedCharacter(c) => {
                *last_char = Some(c);
            },
            WindowEvent::KeyboardInput(ElementState::Pressed, code, virt) => {
                let from_virt = match virt {
                    Some(v) => keycode_to_char(v),
                    None => None,
                };
                let taken = last_char.take();
                let c = match from_virt {
                    Some(ch) => Some(ch),
                    None => match taken {
                        Some(ch) => Some(ch),
                        None => match self.code_to_char.get(&code) {
                            Some(ch) => Some(*ch),
                            None => None,
                        },
                    },
                };
                self.event_store.push_back(Event::KeyPressed(code, c, virt));
                if let Some(ch) = c {
                    if !self.code_to_char.contains_key(&code) {
                        self.code_to_char.insert(code, ch);
                    }
                }
                self.codes_pressed.insert(code, true);
                if let Some(chr) = c {
                    let ghost before_chars = self.chars_pressed@;
                    self.chars_pressed.insert(chr as u32, true);
                    proof {
                        lemma_char_table_insert(before_chars, chr, true);
                    }
                }
                if let Some(v_key) = virt {
                    let ghost before_keys = self.virtual_keys_pressed@;
                    self.virtual_keys_pressed.insert(key_number(v_key), true);
                    proof {
                        lemma_key_table_insert(before_keys, v_key, true);
                    }
                }
            },
            WindowEvent::KeyboardInput(ElementState::Released, code, virt) => {
                let from_virt = match virt {
                    Some(v) => keycode_to_char(v),
                    None => None,
                };
                let c = match from_virt {
                    Some(ch) => Some(ch),
                    None => match self.code_to_char.get(&code) {
                        Some(ch) => Some(*ch),
                        None => None,
                    },
                };
                self.event_store.push_back(Event::KeyReleased(code, c, virt));
                self.codes_pressed.insert(code, false);
                if let Some(chr) = c {
                    let ghost before_chars = self.chars_pressed@;
                    self.chars_pressed.insert(chr as u32, false);
                    proof {
                        lemma_char_table_insert(before_chars, chr, false);
                    }
                }
                if let Some(v_key) = virt {
                    let ghost before_keys = self.virtual_keys_pressed@;
                    self.virtual_keys_pressed.insert(key_number(v_key), false);
                    proof {
                        lemma_key_table_insert(before_keys, v_key, false);
                    }
                }
            },
            WindowEvent::Focused(f) => {
                self.focused = f;
            },
            WindowEvent::Closed => {
                self.closed = true;
            },
            WindowEvent::DroppedFile(buf) => {
                self.event_store.push_back(Event::FileDropped(buf));
            },
            WindowEvent::Other => {},
        }
        assert((self@, *last_char) == step(m, lc, ev));
    }

    /// Updates the window for a batch of events polled from the windowing
    /// system, queueing the user-facing events in order.
    ///
    /// A character received just before a key press is attributed to that
    /// press; the batch counts as input since the last render.  The window
    /// counts at most 255 mouse buttons held down, which the count must not
    /// exceed at any point of the batch.
    pub fn process_events(&mut self, raw: Vec<WindowEvent>)
        requires
            held_counts_fit(old(self)@.mouse_down_count, raw@),
        ensures
            final(self)@ == processed(old(self)@, raw@),
    {
        self.events_since_last_render = true;
        let ghost start = self@;
        let ghost evs = raw@;
        let mut last_char: Option<char> = None;
        let mut raw = raw;
        let n = raw.len();
        // Queue the events last first, so that popping yields them in order.
        let mut pending: Vec<WindowEvent> = Vec::new();
        while raw.len() > 0
            invariant
                n == evs.len(),
                raw@ == evs.take(raw@.len() as int),
                raw@.len() <= n,
                pending@.len() == n - raw@.len(),
                forall|j: int| 0 <= j < pending@.len() ==> #[trigger] pending@[j] == evs[n - 1 - j],
            decreases raw@.len(),
        {
            let ghost k = raw@.len();
            let e = raw.pop().unwrap();
            proof {
                assert(e == evs[k - 1]);
            }
            pending.push(e);
            proof {
                assert(raw@ =~= evs.take(raw@.len() as int));
            }
        }
        let mut i: usize = 0;
        while i < n
            invariant
                i <= n,
                n == evs.len(),
                pending@.len() == n - i,
                forall|j: int| 0 <= j < pending@.len() ==> #[trigger] pending@[j] == evs[n - 1 - j],
                (self@, last_char) == run(start, evs.take(i as int)),
                self@.mouse_down_count == mouse_held(start.mouse_down_count as int, evs.take(i as int)),
                held_counts_fit(start.mouse_down_count, evs),
            decreases n - i,
        {
            let ghost before = pending@;
            let e = pending.pop().unwrap();
            proof {
                assert(e == before[n - i - 1]);
                assert(e == evs[i as int]);
                assert(evs.take(i + 1).drop_last() =~= evs.take(i as int));
                assert(evs.take(i + 1).last() == evs[i as int]);
                assert(mouse_held(start.mouse_down_count as int, evs.take(i + 1)) <= 255);
                assert forall|j: int| 0 <= j < pending@.len() implies #[trigger] pending@[j] == evs[n - 1 - j] by {
                    assert(pending@[j] == before[j]);
                }
            }
            self.handle_event(e, &mut last_char);
            i = i + 1;
        }
        proof {
            assert(evs.take(n as int) =~= evs);
        }
    }

    /// Returns true if the window is not yet closed, after processing a batch
    /// of events.
    pub fn is_open(&mut self, raw: Vec<WindowEvent>) -> (r: bool)
        requires
            held_counts_fit(old(self)@.mouse_down_count, raw@),
        ensures
            final(self)@ == processed(old(self)@, raw@),
            r == !final(self)@.closed,
    {
        self.process_events(raw);
        !self.closed
    }

    /// Returns true if the window wasn't closed the last time that input was
    /// polled.
    pub fn was_open(&self) -> (r: bool)
        ensures
            r == !self@.closed,
    {
        !self.closed
    }

    /// Returns the title of the window.
    pub fn title(&self) -> (r: &str)
        ensures
            r@ == self@.options.title@,
    {
        self.options.title.as_str()
    }

    /// Returns the size of the window as an unsigned integer.
    pub fn get_size_u(&self) -> (r: (u32, u32))
        ensures
            r == self@.window_size,
    {
        self.window_size
    }

    /// Returns the width of the window as an unsigned integer.
    pub fn width_u(&self) -> (r: u32)
        ensures
            r == self@.window_size.0,
    {
        match self.get_size_u() {
            (w, _) => w,
        }
    }

    /// Returns the height of the window as an unsigned integer.
    pub fn height_u(&self) -> (r: u32)
        ensures
            r == self@.window_size.1,
    {
        match self.get_size_u() {
            (_, h) => h,
        }
    }

    /// Returns true if the operating system has given this window focus.
    pub fn is_focused(&self) -> (r: bool)
        ensures
            r == self@.focused,
    {
        self.focused
    }

    /// Returns true if any mouse button is down.
    pub fn is_mouse_down(&self) -> (r: bool)
        ensures
            r == (self@.mouse_down_count != 0),
    {
        self.mouse_down_count != 0
    }

    /// The number of mouse buttons held down.
    pub fn mouse_down_count(&self) -> (r: u8)
        ensures
            r == self@.mouse_down_count,
    {
        self.mouse_down_count
    }

    /// Returns the current position of the mouse in integer units.
    pub fn mouse_pos_i(&self) -> (r: (i32, i32))
        ensures
            r == self@.mouse_pos,
    {
        self.mouse_pos
    }

    /// Returns the x coordinate of the mouse in integer units.
    pub fn mouse_x_i(&self) -> (r: i32)
        ensures
            r == self@.mouse_pos.0,
    {
        match self.mouse_pos_i() {
            (x, _) => x,
        }
    }

    /// Returns the y coordinate of the mouse in integer units.
    pub fn mouse_y_i(&self) -> (r: i32)
        ensures
            r == self@.mouse_pos.1,
    {
        match self.mouse_pos_i() {
            (_, y) => y,
        }
    }

    /// Returns true if a given key is currently being pressed.
    pub fn is_key_pressed<K: AbstractKey>(&self, k: K) -> (r: bool)
        requires
        ensures
            r == key_pressed(self@, k.key_names()),
    {
        broadcast use vstd::std_specs::hash::group_hash_axioms;

        let state = match k.to_key() {
            (Some(code), _, _) => match self.codes_pressed.get(&code) {
                Some(b) => Some(*b),
                None => None,
            },
            (_, Some(chr), _) => match self.chars_pressed.get(&(chr as u32)) {
                Some(b) => Some(*b),
                None => None,
            },
            (_, _, Some(key)) => match self.virtual_keys_pressed.get(&key_number(key)) {
                Some(b) => Some(*b),
                None => None,
            },
            (None, None, None) => None,
        };
        match state {
            Some(b) => b,
            None => false,
        }
    }

    /// Processes a batch of events, then consumes all unseen events and
    /// returns them in an iterator, oldest first.
    pub fn events(&mut self, raw: Vec<WindowEvent>) -> (r: EventIterator)
        requires
            held_counts_fit(old(self)@.mouse_down_count, raw@),
        ensures
            r@ == processed(old(self)@, raw@).events,
            final(self)@ == drained(processed(old(self)@, raw@)),
    {
        self.process_events(raw);
        let mut store = VecDeque::new();
        std::mem::swap(&mut store, &mut self.event_store);
        EventIterator::from_deque(store)
    }

    /// Add the events from an iterator of events back to the front of the
    /// internal event queue, in their order.
    pub fn restock_events(&mut self, i: EventIterator)
        ensures
            final(self)@ == restocked(old(self)@, i@),
    {
        let mut i = i;
        let ghost given = i@;
        let ghost store = self.event_store@;
        while !i.is_empty()
            invariant
                given == i@ + given.skip(i@.len() as int),
                self.event_store@ == given.skip(i@.len() as int) + store,
                self.options == old(self).options,
                self.closed == old(self).closed,
                self.mouse_pos == old(self).mouse_pos,
                self.window_pos == old(self).window_pos,
                self.window_size == old(self).window_size,
                self.focused == old(self).focused,
                self.mouse_down_count == old(self).mouse_down_count,
                self.events_since_last_render == old(self).events_since_last_render,
                self.codes_pressed == old(self).codes_pressed,
                self.chars_pressed == old(self).chars_pressed,
                self.virtual_keys_pressed == old(self).virtual_keys_pressed,
                self.code_to_char == old(self).code_to_char,
            decreases i@.len(),
        {
            let ghost before = i@;
            let e = i.next_back().unwrap();
            self.event_store.push_front(e);
            proof {
                assert(given.skip(i@.len() as int) =~= seq![e] + given.skip(before.len() as int));
                assert(given =~= i@ + given.skip(i@.len() as int));
            }
        }
        proof {
            assert(given.skip(0) =~= given);
        }
    }
}

/// Once a window is closed it stays closed, whatever events follow; the
/// options, and with them the title, are never changed by events.
pub proof fn lemma_closed_is_permanent(m: WindowModel, evs: Seq<WindowEvent>)
    ensures
        m.closed ==> processed(m, evs).closed,
        processed(m, evs).options == m.options,
    decreases evs.len(),
{
    lemma_run_keeps(begin_batch(m), evs);
}

proof fn lemma_run_keeps(m: WindowModel, evs: Seq<WindowEvent>)
    ensures
        m.closed ==> run(m, evs).0.closed,
        run(m, evs).0.options == m.options,
        run(m, evs).0.events.len() >= m.events.len(),
        run(m, evs).0.events.subrange(0, m.events.len() as int) == m.events,
        forall|c: u8| #[trigger] m.code_to_char.contains_key(c) ==> run(m, evs).0.code_to_char.contains_key(c)
            && run(m, evs).0.code_to_char[c] == m.code_to_char[c],
    decreases evs.len(),
{
    if evs.len() > 0 {
        lemma_run_keeps(m, evs.drop_last());
        let (m1, lc) = run(m, evs.drop_last());
        let m2 = step(m1, lc, evs.last()).0;
        assert(m2.events.len() >= m1.events.len());
        assert(m2.events.subrange(0, m1.events.len() as int) == m1.events);
        assert(m2.events.subrange(0, m.events.len() as int) =~= m1.events.subrange(
            0,
            m.events.len() as int,
        ));
    } else {
        assert(m.events.subrange(0, m.events.len() as int) =~= m.events);
    }
}

/// Events from the windowing system only ever add to the back of the queue:
/// the events queued before a batch stay queued, in order, at the front.
pub proof fn lemma_events_are_appended(m: WindowModel, evs: Seq<WindowEvent>)
    ensures
        processed(m, evs).events.len() >= m.events.len(),
        processed(m, evs).events.subrange(0, m.events.len() as int) == m.events,
{
    lemma_run_keeps(begin_batch(m), evs);
}

/// The character that a scancode first produced stays associated with it.
pub proof fn lemma_code_char_is_kept(m: WindowModel, evs: Seq<WindowEvent>, code: u8)
    requires
        m.code_to_char.contains_key(code),
    ensures
        processed(m, evs).code_to_char.contains_key(code),
        processed(m, evs).code_to_char[code] == m.code_to_char[code],
{
    lemma_run_keeps(begin_batch(m), evs);
    assert(begin_batch(m).code_to_char.contains_key(code));
}

/// A key that goes down is reported as pressed, by its scancode, by its
/// virtual key code, and by the character the event carries; a key that goes
/// up is reported as released in the same three ways.
pub proof fn lemma_key_press_and_release(
    m: WindowModel,
    last_char: Option<char>,
    code: u8,
    virt: Option<VirtualKeyCode>,
    state: ElementState,
)
    ensures
        ({
            let (m1, _) = step(m, last_char, WindowEvent::KeyboardInput(state, code, virt));
            let down = state == ElementState::Pressed;
            let c = if down {
                key_event_char(m, code, virt, last_char)
            } else {
                key_event_char(m, code, virt, None)
            };
            &&& key_pressed(m1, (Some(code), None, None)) == down
            &&& (virt matches Some(v) ==> key_pressed(m1, (None, None, Some(v))) == down)
            &&& (c matches Some(ch) ==> key_pressed(m1, (None, Some(ch), None)) == down)
            &&& m1.events == m.events.push(
                if down {
                    Event::KeyPressed(code, c, virt)
                } else {
                    Event::KeyReleased(code, c, virt)
                },
            )
        }),
{
}

/// A key whose virtual key code stands for a character carries that
/// character, whatever character was received before it.
pub proof fn lemma_virtual_key_char_first(m: WindowModel, code: u8, v: VirtualKeyCode, last_char: Option<char>)
    requires
        keycode_char(v) is Some,
    ensures
        key_event_char(m, code, Some(v), last_char) == keycode_char(v),
{
}

/// A character received just before a key press is consumed by it: the
/// press carries it unless its virtual key code stands for a character, and
/// no later press in the batch can carry it.
pub proof fn lemma_received_char_consumed(m: WindowModel, c: char, code: u8, virt: Option<VirtualKeyCode>)
    ensures
        ({
            let (m1, lc1) = step(m, None, WindowEvent::ReceivedCharacter(c));
            let (m2, lc2) = step(m1, lc1, WindowEvent::KeyboardInput(ElementState::Pressed, code, virt));
            &&& lc2 is None
            &&& (!(virt matches Some(v) && keycode_char(v) is Some) ==> m2.events.last()
                == Event::KeyPressed(code, Some(c), virt))
        }),
{
}

/// Releasing a mouse button when none is held does not wrap around: the
/// count stays at zero.  Pressing one raises the count by one.
pub proof fn lemma_mouse_count(m: WindowModel, last_char: Option<char>, b: MouseButton)
    ensures
        m.mouse_down_count == 0 ==> step(
            m,
            last_char,
            WindowEvent::MouseInput(ElementState::Released, b),
        ).0.mouse_down_count == 0,
        m.mouse_down_count > 0 ==> step(
            m,
            last_char,
            WindowEvent::MouseInput(ElementState::Released, b),
        ).0.mouse_down_count == m.mouse_down_count - 1,
        m.mouse_down_count < 255 ==> step(
            m,
            last_char,
            WindowEvent::MouseInput(ElementState::Pressed, b),
        ).0.mouse_down_count == m.mouse_down_count + 1,
{
}

/// Handing back, untouched, the iterator that `events` returned restores
/// the window to the state that processing the batch left it in: no event
/// is lost or reordered, and the next call of `events` with no new event
/// from the windowing system returns the same events in the same order.
pub proof fn lemma_restock_undoes_events(p: WindowModel, raw: Seq<WindowEvent>)
    ensures
        restocked(drained(processed(p, raw)), processed(p, raw).events) == processed(p, raw),
        processed(restocked(drained(processed(p, raw)), processed(p, raw).events), Seq::empty()).events
            == processed(p, raw).events,
{
    let q = processed(p, raw);
    assert(q.events + Seq::<Event>::empty() =~= q.events);
    let e = Seq::<WindowEvent>::empty();
    assert(processed(q, e) == run(begin_batch(q), e).0);
}

/// Handing back the events left after the first `taken` were consumed puts
/// exactly those, in order, at the front of the queue, ahead of anything
/// queued since.
pub proof fn lemma_restock_keeps_unconsumed(q: WindowModel, taken: int, later: Seq<Event>)
    requires
        0 <= taken <= q.events.len(),
    ensures
        restocked(WindowModel { events: later, ..drained(q) }, q.events.skip(taken)).events
            == q.events.skip(taken) + later,
{
}

/// Processing a batch leaves a key reported as pressed exactly when the
/// most recent key event of the batch about it was a press; a key that no
/// event of the batch is about keeps the state it had.  The key is named by
/// scancode, by character or by virtual key code, and the key events are
/// those the batch queued, which carry all three.
pub proof fn lemma_key_pressed_follows_last_report(m: WindowModel, evs: Seq<WindowEvent>, names: KeyNames)
    ensures
        key_pressed(processed(m, evs), names) == match last_key_report(
            processed(m, evs).events.skip(m.events.len() as int),
            names,
        ) {
            Some(b) => b,
            None => key_pressed(m, names),
        },
{
    lemma_run_key_reports(begin_batch(m), evs, names);
}

proof fn lemma_run_key_reports(m: WindowModel, evs: Seq<WindowEvent>, names: KeyNames)
    ensures
        key_pressed(run(m, evs).0, names) == match last_key_report(
            run(m, evs).0.events.skip(m.events.len() as int),
            names,
        ) {
            Some(b) => b,
            None => key_pressed(m, names),
        },
    decreases evs.len(),
{
    let l = m.events.len() as int;
    if evs.len() == 0 {
        assert(m.events.skip(l).len() == 0);
    } else {
        lemma_run_key_reports(m, evs.drop_last(), names);
        lemma_run_keeps(m, evs.drop_last());
        let (m1, lc) = run(m, evs.drop_last());
        let q = step(m1, lc, evs.last()).0;
        let before = m1.events.skip(l);
        if q.events == m1.events {
            assert(q.events.skip(l) == before);
        } else {
            let e = q.events.last();
            assert(q.events == m1.events.push(e));
            assert(q.events.skip(l).drop_last() =~= before);
            assert(q.events.skip(l).last() == e);
        }
    }
}

/// After a focus event the window is focused exactly as the event says,
/// whatever it was before: a window that lost the focus reports it again once
/// it regains it, including at the end of a batch.
pub proof fn lemma_focus_follows_event(m: WindowModel, last_char: Option<char>, f: bool, evs: Seq<WindowEvent>)
    ensures
        step(m, last_char, WindowEvent::Focused(f)).0.focused == f,
        processed(m, evs.push(WindowEvent::Focused(f))).focused == f,
{
    let all = evs.push(WindowEvent::Focused(f));
    assert(all.drop_last() =~= evs);
}

} // verus!
