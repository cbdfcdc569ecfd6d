//! The application's main loop: what it is made from, and what it does on
//! each event of the window system.

use vstd::prelude::*;
use vstd::string::*;
use crate::config::{AppConfig, WindowConfig};

verus! {

/// The application: its name, which is the window's title, and the window
/// options it was configured with.
#[derive(Debug)]
pub struct MainLoop {
    pub name: String,
    pub win_config: WindowConfig,
}

impl Default for MainLoop {
    fn default() -> (app: MainLoop)
        ensures
            app.name@ == Seq::<char>::empty(),
            app.win_config == (WindowConfig { width: 0, height: 0 }),
    {
        MainLoop { name: String::new(), win_config: WindowConfig { width: 0, height: 0 } }
    }
}

/// An event of the window system, as far as the loop reads it.
#[derive(Clone, Copy, Debug, PartialEq, Eq, Structural)]
pub enum LoopEvent {
    /// A key changed its state. `own_window` says whether the event is for
    /// the application's window, `synthetic` whether the window system made
    /// it up, `released` whether the key went up.
    KeyboardInput { own_window: bool, synthetic: bool, released: bool },
    /// The user asked to close a window.
    CloseRequested { own_window: bool },
    /// A window has to be drawn again.
    RedrawRequested { own_window: bool },
    /// All pending events have been handed out.
    AboutToWait,
    /// Any other event.
    Other,
}

/// What the loop does on an event.
#[derive(Clone, Copy, Debug, PartialEq, Eq, Structural)]
pub enum LoopAction {
    /// Tell the application that a key went down.
    KeyPressed,
    /// Tell the application that a key went up.
    KeyReleased,
    /// Shut the application down and leave the loop.
    Close,
    /// Update the application and render a frame.
    Frame,
    /// Ask the window system for a redraw.
    RequestRedraw,
    /// Nothing.
    Ignore,
}

/// What the loop does on `event`.
pub open spec fn action_for(event: LoopEvent) -> LoopAction {
    match event {
        LoopEvent::KeyboardInput { own_window, synthetic, released } => {
            if !own_window || synthetic {
                LoopAction::Ignore
            } else if released {
                LoopAction::KeyReleased
            } else {
                LoopAction::KeyPressed
            }
        },
        LoopEvent::CloseRequested { own_window } => {
            if own_window {
                LoopAction::Close
            } else {
                LoopAction::Ignore
            }
        },
        LoopEvent::RedrawRequested { own_window } => {
            if own_window {
                LoopAction::Frame
            } else {
                LoopAction::Ignore
            }
        },
        LoopEvent::AboutToWait => LoopAction::RequestRedraw,
        LoopEvent::Other => LoopAction::Ignore,
    }
}

impl MainLoop {
    /// Creates the application from its name and its configuration.
    pub fn new(name: &str, config: &AppConfig) -> (app: MainLoop)
        ensures
            app.name@ == name@,
            app.win_config == config.window,
    {
        MainLoop { name: String::from_str(name), win_config: config.window }
    }

    /// Decides what the loop does on an event.
    pub fn on_event(event: LoopEvent) -> (action: LoopAction)
        ensures
            action == action_for(event),
    {
        match event {
            LoopEvent::KeyboardInput { own_window, synthetic, released } => {
                if !own_window || synthetic {
                    LoopAction::Ignore
                } else if released {
                    LoopAction::KeyReleased
                } else {
                    LoopAction::KeyPressed
                }
            },
            LoopEvent::CloseRequested { own_window } => {
                if own_window {
                    LoopAction::Close
                } else {
                    LoopAction::Ignore
                }
            },
            LoopEvent::RedrawRequested { own_window } => {
                if own_window {
                    LoopAction::Frame
                } else {
                    LoopAction::Ignore
                }
            },
            LoopEvent::AboutToWait => LoopAction::RequestRedraw,
            LoopEvent::Other => LoopAction::Ignore,
        }
    }

    /// Whether the loop goes on after a frame. `rendered` is the outcome of
    /// rendering, which is attempted only after a successful update.
    pub fn continues_after_frame(updated: bool, rendered: bool) -> (goes_on: bool)
        ensures
            goes_on == (updated && rendered),
    {
        updated && rendered
    }

    /// The size handed to the application for a frame: each dimension of the
    /// window's inner size, cut to its low sixteen bits.
    pub fn frame_size(width: u32, height: u32) -> (size: (u16, u16))
        ensures
            size.0 == width % 0x1_0000,
            size.1 == height % 0x1_0000,
    {
        let w: u16 = (width % 0x1_0000) as u16;
        let h: u16 = (height % 0x1_0000) as u16;
        (w, h)
    }
}

} // verus!
