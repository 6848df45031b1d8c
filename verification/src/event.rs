//! Host events as the dispatcher reads them, and the actions it asks of the
//! host in return.

use vstd::prelude::*;

verus! {

/// `winit::keyboard::KeyCode`, the code of a physical key; the crate asks
/// only whether one is the code of Escape.
#[verifier::external_type_specification]
#[verifier::external_body]
pub struct ExKeyCode(winit::keyboard::KeyCode);

/// Whether a key code is the code of the Escape key, as the equality of
/// `winit::keyboard::KeyCode` with `KeyCode::Escape` reports it.
pub uninterp spec fn is_escape(code: winit::keyboard::KeyCode) -> bool;

/// Compares a key code with `winit::keyboard::KeyCode::Escape` through the
/// `PartialEq` of `KeyCode`. The answer depends on the code alone; the
/// contract gives it the name `is_escape` and claims nothing else.
#[verifier::external_body]
fn code_is_escape(code: &winit::keyboard::KeyCode) -> (escape: bool)
    ensures
        escape == is_escape(*code),
{
    *code == winit::keyboard::KeyCode::Escape
}

/// Compares two window identities through the `PartialEq` of
/// `winit::window::WindowId`, which holds of two identities exactly when
/// they are the same identity.
#[verifier::external_body]
pub(crate) fn same_window(a: &winit::window::WindowId, b: &winit::window::WindowId) -> (same: bool)
    ensures
        same == (*a == *b),
{
    a == b
}

/// The physical key of a keyboard event.
#[derive(Clone, Copy, Debug, PartialEq, Eq)]
pub enum Key {
    /// A key with a known code.
    Code(winit::keyboard::KeyCode),
    /// A key that the platform could not identify.
    Unidentified,
}

/// An event that belongs to one window.
#[derive(Clone, Copy, Debug, PartialEq, Eq)]
pub enum WindowEvent {
    /// The user asked to close the window.
    CloseRequested,
    /// A key went down (`pressed`) or up; a repeat counts as down.
    KeyboardInput { key: Key, pressed: bool },
    /// The window has a new size, in physical pixels.
    Resized { width: u32, height: u32 },
    /// The window asks to be drawn.
    RedrawRequested,
    /// Any other window event.
    Other,
}

/// An event of an input device, not bound to a window.
#[derive(Clone, Copy, Debug, PartialEq, Eq)]
pub enum DeviceEvent {
    /// Raw pointer motion. `dx` and `dy` are the IEEE 754 binary64 bit
    /// patterns of the two deltas.
    MouseMotion { dx: u64, dy: u64 },
    /// Any other device event.
    Other,
}

/// What the host has to do in answer to a signal.
#[derive(Clone, Copy, Debug, PartialEq, Eq)]
pub enum Action {
    /// Nothing.
    Idle,
    /// Leave the event loop.
    Exit,
    /// Hand the key and its state to the demo's keyboard hook.
    Keyboard { key: winit::keyboard::KeyCode, pressed: bool },
    /// Configure the surface with the display's stored configuration, which
    /// now has these dimensions.
    Reconfigure { width: u32, height: u32 },
    /// Ask for another redraw, then call the demo's render hook.
    Redraw,
    /// Hand the two deltas, as bit patterns, to the demo's mouse hook.
    Mouse { dx: u64, dy: u64 },
}

/// The action for a key with a known code: a press of Escape leaves the
/// loop, anything else goes to the demo.
pub open spec fn spec_key_action(code: winit::keyboard::KeyCode, pressed: bool, escape: bool) -> Action {
    if pressed && escape {
        Action::Exit
    } else {
        Action::Keyboard { key: code, pressed }
    }
}

/// The action for a key with a known code, given whether the code is that
/// of Escape.
#[verifier::when_used_as_spec(spec_key_action)]
pub fn key_action(code: winit::keyboard::KeyCode, pressed: bool, escape: bool) -> (action: Action)
    ensures
        action == spec_key_action(code, pressed, escape),
{
    if pressed && escape {
        Action::Exit
    } else {
        Action::Keyboard { key: code, pressed }
    }
}

/// The action for an event of the display's own window.
pub open spec fn spec_window_action(event: WindowEvent) -> Action {
    match event {
        WindowEvent::CloseRequested => Action::Exit,
        WindowEvent::KeyboardInput { key: Key::Code(code), pressed } => spec_key_action(
            code,
            pressed,
            is_escape(code),
        ),
        WindowEvent::KeyboardInput { key: Key::Unidentified, .. } => Action::Idle,
        WindowEvent::Resized { width, height } => Action::Reconfigure { width, height },
        WindowEvent::RedrawRequested => Action::Redraw,
        WindowEvent::Other => Action::Idle,
    }
}

/// The action for an event of the display's own window.
#[verifier::when_used_as_spec(spec_window_action)]
pub fn window_action(event: WindowEvent) -> (action: Action)
    ensures
        action == spec_window_action(event),
{
    match event {
        WindowEvent::CloseRequested => Action::Exit,
        WindowEvent::KeyboardInput { key: Key::Code(code), pressed } => {
            let escape = code_is_escape(&code);
            key_action(code, pressed, escape)
        },
        WindowEvent::KeyboardInput { key: Key::Unidentified, .. } => Action::Idle,
        WindowEvent::Resized { width, height } => Action::Reconfigure { width, height },
        WindowEvent::RedrawRequested => Action::Redraw,
        WindowEvent::Other => Action::Idle,
    }
}

/// The action for a device event once a demo runs: pointer motion goes to
/// the demo, nothing else does.
pub open spec fn spec_device_action(event: DeviceEvent) -> Action {
    match event {
        DeviceEvent::MouseMotion { dx, dy } => Action::Mouse { dx, dy },
        DeviceEvent::Other => Action::Idle,
    }
}

/// The action for a device event once a demo runs.
#[verifier::when_used_as_spec(spec_device_action)]
pub fn device_action(event: DeviceEvent) -> (action: Action)
    ensures
        action == spec_device_action(event),
{
    match event {
        DeviceEvent::MouseMotion { dx, dy } => Action::Mouse { dx, dy },
        DeviceEvent::Other => Action::Idle,
    }
}

} // verus!
