//! The window model: the translation of platform window events into
//! engine events, and the window state the engine reads.
//!
//! The platform layer polls its event queue and hands the raw events in
//! as plain values; the translation below is the exact stated function
//! of them.  Pressing escape asks the window to close and produces no
//! event; a size event updates the tracked framebuffer size and raises
//! the resized flag.

use vstd::prelude::*;

use crate::event::Event;

verus! {

/// The platform key code of the escape key.
pub const KEY_ESCAPE: i32 = 256;

/// What happened to a key or button.
#[derive(Clone, Copy, PartialEq, Eq, Structural, Debug)]
pub enum KeyAction {
    Press,
    Release,
    Repeat,
}

/// A platform window event, with plain payloads: key and button codes,
/// whole-pixel positions and offsets, dropped paths as strings.
#[derive(Clone, Debug)]
pub enum RawWindowEvent {
    Size(i32, i32),
    Close,
    Key(i32, KeyAction),
    MouseButton(i32, KeyAction),
    Scroll(i32, i32),
    CursorPos(i32, i32),
    FileDrop(Vec<String>),
    Other,
}

/// The engine events one platform event translates to: none for escape
/// presses and unrecognized events, exactly one otherwise.
pub open spec fn spec_translated_one(e: RawWindowEvent) -> Seq<Event> {
    match e {
        RawWindowEvent::Size(w, h) => seq![Event::WindowResize(w, h)],
        RawWindowEvent::Close => seq![Event::WindowClose],
        RawWindowEvent::Key(key, KeyAction::Press) => if key == KEY_ESCAPE {
            Seq::empty()
        } else {
            seq![Event::KeyPressed(key, 0)]
        },
        RawWindowEvent::Key(key, KeyAction::Release) => seq![Event::KeyReleased(key)],
        RawWindowEvent::Key(key, KeyAction::Repeat) => seq![Event::KeyPressed(key, 1)],
        RawWindowEvent::MouseButton(button, KeyAction::Press) => seq![
            Event::MouseButtonPressed(button),
        ],
        RawWindowEvent::MouseButton(button, KeyAction::Release) => seq![
            Event::MouseButtonReleased(button),
        ],
        RawWindowEvent::MouseButton(button, KeyAction::Repeat) => seq![
            Event::MouseButtonPressed(button),
        ],
        RawWindowEvent::Scroll(x, y) => seq![Event::MouseScrolled(x, y)],
        RawWindowEvent::CursorPos(x, y) => seq![Event::MouseMoved(x, y)],
        RawWindowEvent::FileDrop(paths) => seq![Event::FileDropped(paths)],
        RawWindowEvent::Other => Seq::empty(),
    }
}

/// The engine events for the platform events from `i` on, in order.
pub open spec fn spec_translated_from(s: Seq<RawWindowEvent>, i: int) -> Seq<Event>
    decreases s.len() - i,
{
    if i < 0 || i >= s.len() {
        Seq::empty()
    } else {
        spec_translated_one(s[i]) + spec_translated_from(s, i + 1)
    }
}

/// The framebuffer size after the events from `i` on: the last size
/// event wins.
pub open spec fn spec_size_from(s: Seq<RawWindowEvent>, i: int, width: u32, height: u32) -> (
    u32,
    u32,
)
    decreases s.len() - i,
{
    if i < 0 || i >= s.len() {
        (width, height)
    } else {
        match s[i] {
            RawWindowEvent::Size(w, h) => spec_size_from(s, i + 1, w as u32, h as u32),
            _ => spec_size_from(s, i + 1, width, height),
        }
    }
}

/// Whether any of the events from `i` on resized the window.
pub open spec fn spec_resized_from(s: Seq<RawWindowEvent>, i: int, resized: bool) -> bool
    decreases s.len() - i,
{
    if i < 0 || i >= s.len() {
        resized
    } else {
        match s[i] {
            RawWindowEvent::Size(_, _) => spec_resized_from(s, i + 1, true),
            _ => spec_resized_from(s, i + 1, resized),
        }
    }
}

/// Whether any of the events from `i` on asked the window to close.
pub open spec fn spec_should_close_from(s: Seq<RawWindowEvent>, i: int, should_close: bool) -> bool
    decreases s.len() - i,
{
    if i < 0 || i >= s.len() {
        should_close
    } else {
        match s[i] {
            RawWindowEvent::Key(key, KeyAction::Press) => spec_should_close_from(
                s,
                i + 1,
                should_close || key == KEY_ESCAPE,
            ),
            _ => spec_should_close_from(s, i + 1, should_close),
        }
    }
}

/// The window state the engine reads: the tracked framebuffer size, the
/// resize flag, and the close request.
#[derive(Clone, Debug)]
pub struct Window {
    pub width: u32,
    pub height: u32,
    pub resized: bool,
    pub name: String,
    pub should_close: bool,
}

impl Window {
    pub fn new(width: u32, height: u32, name: String) -> (r: Window)
        ensures
            r.width == width,
            r.height == height,
            !r.resized,
            r.name@ == name@,
            !r.should_close,
    {
        Window { width, height, resized: false, name, should_close: false }
    }

    /// Whether a close has been requested.
    pub fn should_close(&self) -> (r: bool)
        ensures
            r == self.should_close,
    {
        self.should_close
    }

    /// Translate one batch of platform events into engine events, in
    /// order, updating the tracked size, the resize flag and the close
    /// request along the way.
    pub fn poll_events(&mut self, raw_events: Vec<RawWindowEvent>) -> (out: Vec<Event>)
        ensures
            out@ == spec_translated_from(raw_events@, 0),
            final(self).width == spec_size_from(
                raw_events@,
                0,
                old(self).width,
                old(self).height,
            ).0,
            final(self).height == spec_size_from(
                raw_events@,
                0,
                old(self).width,
                old(self).height,
            ).1,
            final(self).resized == spec_resized_from(raw_events@, 0, old(self).resized),
            final(self).should_close == spec_should_close_from(
                raw_events@,
                0,
                old(self).should_close,
            ),
            final(self).name@ == old(self).name@,
    {
        let ghost raws = raw_events@;
        let mut raw_events = raw_events;
        let n = raw_events.len();
        let mut out: Vec<Event> = Vec::new();
        let mut i: usize = 0;
        proof {
            assert(out@ + spec_translated_from(raws, 0) =~= spec_translated_from(raws, 0));
        }
        while i < n
            invariant
                n == raws.len(),
                raw_events@.len() == n,
                forall|j: int| i <= j < n ==> raw_events@[j] == raws[j],
                i <= n,
                spec_translated_from(raws, 0) == out@ + spec_translated_from(raws, i as int),
                spec_size_from(raws, 0, old(self).width, old(self).height) == spec_size_from(
                    raws,
                    i as int,
                    self.width,
                    self.height,
                ),
                spec_resized_from(raws, 0, old(self).resized) == spec_resized_from(
                    raws,
                    i as int,
                    self.resized,
                ),
                spec_should_close_from(raws, 0, old(self).should_close)
                    == spec_should_close_from(raws, i as int, self.should_close),
                self.name@ == old(self).name@,
            decreases n - i,
        {
            let mut item = RawWindowEvent::Other;
            core::mem::swap(&mut item, &mut raw_events[i]);
            proof {
                assert(item == raws[i as int]);
            }
            let ghost out_before = out@;
            match item {
                RawWindowEvent::Size(w, h) => {
                    self.width = w as u32;
                    self.height = h as u32;
                    self.resized = true;
                    out.push(Event::WindowResize(w, h));
                },
                RawWindowEvent::Close => {
                    out.push(Event::WindowClose);
                },
                RawWindowEvent::Key(key, action) => {
                    match action {
                        KeyAction::Press => {
                            if key == KEY_ESCAPE {
                                self.should_close = true;
                            } else {
                                out.push(Event::KeyPressed(key, 0));
                            }
                        },
                        KeyAction::Release => {
                            out.push(Event::KeyReleased(key));
                        },
                        KeyAction::Repeat => {
                            out.push(Event::KeyPressed(key, 1));
                        },
                    }
                },
                RawWindowEvent::MouseButton(button, action) => {
                    match action {
                        KeyAction::Press => {
                            out.push(Event::MouseButtonPressed(button));
                        },
                        KeyAction::Release => {
                            out.push(Event::MouseButtonReleased(button));
                        },
                        KeyAction::Repeat => {
                            out.push(Event::MouseButtonPressed(button));
                        },
                    }
                },
                RawWindowEvent::Scroll(x, y) => {
                    out.push(Event::MouseScrolled(x, y));
                },
                RawWindowEvent::CursorPos(x, y) => {
                    out.push(Event::MouseMoved(x, y));
                },
                RawWindowEvent::FileDrop(paths) => {
                    out.push(Event::FileDropped(paths));
                },
                RawWindowEvent::Other => {},
            }
            proof {
                assert(out@ =~= out_before + spec_translated_one(raws[i as int]));
                assert(out@ + spec_translated_from(raws, i as int + 1) =~= out_before
                    + spec_translated_from(raws, i as int));
            }
            i = i + 1;
        }
        proof {
            assert(out@ + spec_translated_from(raws, n as int) =~= out@);
        }
        out
    }
}

/// Marker for the windowing subsystem when it is registered with an
/// application harness.
#[derive(Clone, Copy, Debug)]
pub struct WindowPlugin;

} // verus!
