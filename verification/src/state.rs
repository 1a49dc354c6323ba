//! The state of the box scene.

use vstd::prelude::*;

verus! {

/// A key of the keyboard, as far as the scene tells keys apart.
#[derive(Clone, Copy, Debug, PartialEq, Eq, Structural)]
pub enum VirtualKeyCode {
    Escape,
    Other,
}

/// What happened to the window, as far as the scene tells it apart.
#[derive(Clone, Copy, Debug, PartialEq, Eq, Structural)]
pub enum WindowEvent {
    /// A key went down or up; the key, where the host knows it.
    KeyboardInput { virtual_keycode: Option<VirtualKeyCode> },
    /// Anything else.
    Other,
}

/// An event of the host.
#[derive(Clone, Copy, Debug, PartialEq, Eq, Structural)]
pub enum Event {
    /// An event of the window.
    WindowEvent { event: WindowEvent },
    /// Anything else.
    Other,
}

/// What the host does with the state next.
#[derive(Clone, Copy, Debug, PartialEq, Eq, Structural)]
pub enum Trans {
    /// Go on.
    Stay,
    /// Leave.
    Quit,
}

/// The state in which the emitters run.
pub struct Emitting;

impl Emitting {
    /// Whether an event is the escape key.
    pub open spec fn is_escape(event: Event) -> bool {
        event == (Event::WindowEvent {
            event: WindowEvent::KeyboardInput { virtual_keycode: Some(VirtualKeyCode::Escape) },
        })
    }

    /// Leaves on the escape key and goes on otherwise.
    pub fn handle_event(&mut self, event: Event) -> (t: Trans)
        ensures
            t == (if Self::is_escape(event) {
                Trans::Quit
            } else {
                Trans::Stay
            }),
    {
        match event {
            Event::WindowEvent { event } => match event {
                WindowEvent::KeyboardInput { virtual_keycode: Some(VirtualKeyCode::Escape) } => Trans::Quit,
                _ => Trans::Stay,
            },
            _ => Trans::Stay,
        }
    }
}

} // verus!
