//! What the windowing shell has to do on each kind of window event.

use vstd::prelude::*;

verus! {

/// The kinds of window event that are told apart.
#[derive(Clone, Copy, Debug, PartialEq, Eq, Structural)]
pub enum ShellEvent {
    CloseRequested,
    Resized,
    RedrawRequested,
    CursorMoved,
    MouseInput,
    MouseWheel,
    KeyboardInput,
    /// Any other event.
    Other,
}

/// What is to be done on an event.
#[derive(Clone, Copy, Debug, PartialEq, Eq, Structural)]
pub struct Dispatch {
    /// Leave the event loop.
    pub exit: bool,
    /// Tell the renderer that the window was resized.
    pub resized: bool,
    /// Ask the renderer for a frame.
    pub redraw: bool,
    /// Hand the event to the program's listener, if it has one.
    pub notify: bool,
}

/// The table of events and what they ask for.
pub open spec fn spec_window_event(event: ShellEvent) -> Dispatch {
    match event {
        ShellEvent::CloseRequested => Dispatch {
            exit: true,
            resized: false,
            redraw: false,
            notify: false,
        },
        ShellEvent::Resized => Dispatch { exit: false, resized: true, redraw: false, notify: true },
        ShellEvent::RedrawRequested => Dispatch {
            exit: false,
            resized: false,
            redraw: true,
            notify: false,
        },
        ShellEvent::CursorMoved
        | ShellEvent::MouseInput
        | ShellEvent::MouseWheel
        | ShellEvent::KeyboardInput => Dispatch {
            exit: false,
            resized: false,
            redraw: false,
            notify: true,
        },
        ShellEvent::Other => Dispatch { exit: false, resized: false, redraw: false, notify: false },
    }
}

/// Says what a window event asks for: a close request ends the event loop;
/// a resize invalidates the swapchain and goes to the listener; a redraw
/// request draws a frame; pointer and keyboard input goes to the listener;
/// anything else is dropped.
#[verifier::when_used_as_spec(spec_window_event)]
pub fn window_event(event: ShellEvent) -> (res: Dispatch)
    ensures
        res == spec_window_event(event),
{
    let none = Dispatch { exit: false, resized: false, redraw: false, notify: false };
    match event {
        ShellEvent::CloseRequested => Dispatch { exit: true, ..none },
        ShellEvent::Resized => Dispatch { resized: true, notify: true, ..none },
        ShellEvent::RedrawRequested => Dispatch { redraw: true, ..none },
        ShellEvent::CursorMoved => Dispatch { notify: true, ..none },
        ShellEvent::MouseInput => Dispatch { notify: true, ..none },
        ShellEvent::MouseWheel => Dispatch { notify: true, ..none },
        ShellEvent::KeyboardInput => Dispatch { notify: true, ..none },
        ShellEvent::Other => none,
    }
}

} // verus!
