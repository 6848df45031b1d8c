//! The interface between the framework and the demo that it hosts.

use crate::surface::Display;
use vstd::prelude::*;

verus! {

/// A demo: what draws on the display and reacts to input.
///
/// Beside each hook that the framework calls stands the demo's own account
/// of it: a relation between what the hook is handed and what it leaves
/// behind. The framework states through these accounts which hook it calls
/// and with what. It asks nothing of what a hook does: a demo that gives no
/// account of a hook admits every outcome of it.
pub trait Demo<H>: 'static + Sized {
    /// Why a demo could not be set up.
    type Error;

    /// The account of `init`: whether the set-up on `display` may end in
    /// `outcome`.
    open spec fn set_up(display: Display<H>, outcome: Result<Self, Self::Error>) -> bool {
        true
    }

    /// Sets the demo up on a display that has just been created.
    fn init(display: &Display<H>) -> (outcome: Result<Self, Self::Error>)
        ensures
            Self::set_up(*display, outcome),
    ;

    /// The account of `process_mouse`: whether the motion `dx`, `dy` may
    /// turn the demo `before` into `after`.
    open spec fn moved(before: Self, dx: u64, dy: u64, after: Self) -> bool {
        true
    }

    /// Raw pointer motion; `dx` and `dy` are the IEEE 754 binary64 bit
    /// patterns of the two deltas.
    fn process_mouse(&mut self, dx: u64, dy: u64)
        ensures
            Self::moved(*old(self), dx, dy, *final(self)),
    ;

    /// The account of `process_keyboard`: whether the key `key`, going down
    /// (`pressed`) or up, may turn the demo `before` into `after`.
    open spec fn keyed(
        before: Self,
        key: winit::keyboard::KeyCode,
        pressed: bool,
        after: Self,
    ) -> bool {
        true
    }

    /// A key went down (`pressed`) or up.
    fn process_keyboard(&mut self, key: winit::keyboard::KeyCode, pressed: bool)
        ensures
            Self::keyed(*old(self), key, pressed, *final(self)),
    ;

    /// The display has a new size.
    fn resize(&mut self, display: &Display<H>);

    /// Time has passed since the last update.
    fn update(&mut self, display: &Display<H>, dt: core::time::Duration);

    /// The account of `render`: whether drawing a frame may turn the demo
    /// `before` and the display `display` into `after` and `shown`.
    open spec fn rendered(before: Self, display: Display<H>, after: Self, shown: Display<H>) -> bool {
        true
    }

    /// Draws one frame.
    fn render(&mut self, display: &mut Display<H>)
        ensures
            Self::rendered(*old(self), *old(display), *final(self), *final(display)),
    ;
}

} // verus!
