//! Engine events and their categories.
//!
//! The windowing layer translates platform events into this enum; the
//! engine reads only the variant (and, where present, integer payloads
//! such as key codes or pixel coordinates).  Each event belongs to a set
//! of categories encoded as a bit mask.

use vstd::prelude::*;

verus! {

/// Bit for events about the application window itself.
pub const CATEGORY_APPLICATION: u8 = 1;

/// Bit for any user input.
pub const CATEGORY_INPUT: u8 = 2;

/// Bit for keyboard input.
pub const CATEGORY_KEYBOARD: u8 = 4;

/// Bit for mouse movement and buttons.
pub const CATEGORY_MOUSE: u8 = 8;

/// Bit for mouse buttons specifically.
pub const CATEGORY_MOUSE_BUTTON: u8 = 16;

/// The event categories; `Uncategorized` carries no bit.
#[derive(Clone, Copy, PartialEq, Eq, Structural, Debug)]
pub enum EventCategory {
    Uncategorized,
    Application,
    Input,
    Keyboard,
    Mouse,
    MouseButton,
}

/// The bit of one category.
pub open spec fn spec_category_flag(c: EventCategory) -> u8 {
    match c {
        EventCategory::Uncategorized => 0,
        EventCategory::Application => CATEGORY_APPLICATION,
        EventCategory::Input => CATEGORY_INPUT,
        EventCategory::Keyboard => CATEGORY_KEYBOARD,
        EventCategory::Mouse => CATEGORY_MOUSE,
        EventCategory::MouseButton => CATEGORY_MOUSE_BUTTON,
    }
}

pub fn category_flag(c: EventCategory) -> (r: u8)
    ensures
        r == spec_category_flag(c),
{
    match c {
        EventCategory::Uncategorized => 0,
        EventCategory::Application => CATEGORY_APPLICATION,
        EventCategory::Input => CATEGORY_INPUT,
        EventCategory::Keyboard => CATEGORY_KEYBOARD,
        EventCategory::Mouse => CATEGORY_MOUSE,
        EventCategory::MouseButton => CATEGORY_MOUSE_BUTTON,
    }
}

/// An engine event.  Keys and mouse buttons are carried as their
/// platform codes; positions and scroll offsets as whole pixels; dropped
/// files as their paths.
#[derive(Clone, Debug)]
pub enum Event {
    NoEvent,
    WindowClose,
    WindowResize(i32, i32),
    WindowFocus,
    WindowLostFocus,
    WindowMoved,
    KeyPressed(i32, i32),
    KeyReleased(i32),
    KeyTyped(i32),
    MouseButtonPressed(i32),
    MouseButtonReleased(i32),
    MouseMoved(i32, i32),
    MouseScrolled(i32, i32),
    FileDropped(Vec<String>),
    Handled,
}

impl Event {
    /// The category bits of each event: window lifecycle events are
    /// application events; key events are keyboard input; mouse buttons
    /// are input, mouse and mouse-button; movement and scrolling are
    /// input and mouse; everything else carries no category.
    pub open spec fn spec_category_flags(self) -> u8 {
        match self {
            Event::WindowClose => CATEGORY_APPLICATION,
            Event::WindowResize(_, _) => CATEGORY_APPLICATION,
            Event::WindowFocus => CATEGORY_APPLICATION,
            Event::WindowLostFocus => CATEGORY_APPLICATION,
            Event::KeyPressed(_, _) => CATEGORY_INPUT | CATEGORY_KEYBOARD,
            Event::KeyReleased(_) => CATEGORY_INPUT | CATEGORY_KEYBOARD,
            Event::KeyTyped(_) => CATEGORY_INPUT | CATEGORY_KEYBOARD,
            Event::MouseButtonPressed(_) => CATEGORY_INPUT | CATEGORY_MOUSE
                | CATEGORY_MOUSE_BUTTON,
            Event::MouseButtonReleased(_) => CATEGORY_INPUT | CATEGORY_MOUSE
                | CATEGORY_MOUSE_BUTTON,
            Event::MouseMoved(_, _) => CATEGORY_INPUT | CATEGORY_MOUSE,
            Event::MouseScrolled(_, _) => CATEGORY_INPUT | CATEGORY_MOUSE,
            _ => 0,
        }
    }

    pub fn get_category_flags(&self) -> (r: u8)
        ensures
            r == self.spec_category_flags(),
    {
        match *self {
            Event::WindowClose => CATEGORY_APPLICATION,
            Event::WindowResize(_, _) => CATEGORY_APPLICATION,
            Event::WindowFocus => CATEGORY_APPLICATION,
            Event::WindowLostFocus => CATEGORY_APPLICATION,
            Event::KeyPressed(_, _) => CATEGORY_INPUT | CATEGORY_KEYBOARD,
            Event::KeyReleased(_) => CATEGORY_INPUT | CATEGORY_KEYBOARD,
            Event::KeyTyped(_) => CATEGORY_INPUT | CATEGORY_KEYBOARD,
            Event::MouseButtonPressed(_) => CATEGORY_INPUT | CATEGORY_MOUSE
                | CATEGORY_MOUSE_BUTTON,
            Event::MouseButtonReleased(_) => CATEGORY_INPUT | CATEGORY_MOUSE
                | CATEGORY_MOUSE_BUTTON,
            Event::MouseMoved(_, _) => CATEGORY_INPUT | CATEGORY_MOUSE,
            Event::MouseScrolled(_, _) => CATEGORY_INPUT | CATEGORY_MOUSE,
            _ => 0,
        }
    }

    /// Whether the event belongs to the category.
    pub fn is_in_category(&self, category: EventCategory) -> (r: bool)
        ensures
            r == ((self.spec_category_flags() & spec_category_flag(category)) != 0),
    {
        (self.get_category_flags() & category_flag(category)) != 0
    }
}

/// Hands an event out for handling exactly once: after the first
/// dispatch the stored event is `Handled` and later dispatches yield
/// nothing.
#[derive(Clone, Debug)]
pub struct EventDispatcher {
    pub event: Event,
}

impl EventDispatcher {
    pub fn new(event: Event) -> (r: EventDispatcher)
        ensures
            r.event == event,
    {
        EventDispatcher { event }
    }

    /// Whether the event has already been handled.
    pub fn is_handled(&self) -> (r: bool)
        ensures
            r == (self.event is Handled),
    {
        matches!(self.event, Event::Handled)
    }

    /// Take the event for handling, marking it handled; yields nothing
    /// when it already was.
    pub fn dispatch(&mut self) -> (r: Option<Event>)
        ensures
            old(self).event is Handled ==> r is None && *final(self) == *old(self),
            !(old(self).event is Handled) ==> r == Some(old(self).event) && final(self).event
                is Handled,
    {
        if matches!(self.event, Event::Handled) {
            return None;
        }
        let mut event = Event::Handled;
        core::mem::swap(&mut event, &mut self.event);
        Some(event)
    }
}

} // verus!
