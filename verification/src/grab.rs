//! Grabs: strategies that intercept the input of one capability.
//!
//! While a grab is active, the seat hands every input event of the grab's
//! capability to the grab instead of to the focus tracker. The grab looks at
//! the tracker, decides, and answers with the requests that the seat is to
//! forward.
//!
//! What a grab answers is a function of the grab as it is when asked, of
//! the tracker's state and of the event. Each trait names this function,
//! `answer`, over the request that stands for the event, and the seat's
//! contracts speak of it. What becomes of the grab itself while it answers
//! is its own affair. `answer` is never run: an implementation that is not
//! verified gives it a body that cannot be reached.

use crate::request::{GrabAnswer, GrabResponse, Request, RequestView};
use crate::tracker::{FocusTracker, TrackerView};
use crate::types::{AxisOrientation, Fixed, KeyboardModifiers, Surface, TouchId};
use vstd::prelude::*;

verus! {

/// A grab of the pointer.
pub trait PointerGrab {
    /// What the grab answers, with the tracker in state `tracker`, to the
    /// pointer event that `event` stands for.
    spec fn answer(&self, tracker: TrackerView, event: RequestView) -> GrabAnswer;

    /// The pointer is to enter `surface`.
    fn enter(
        &mut self,
        tracker: &FocusTracker,
        surface: &Surface,
        sx: Fixed,
        sy: Fixed,
    ) -> (r: GrabResponse)
        ensures
            r@ == old(self).answer(
                tracker@,
                RequestView::PointerEnter { surface: *surface, sx, sy },
            ),
    ;

    /// The pointer moved.
    fn motion(&mut self, tracker: &FocusTracker, time: u32, sx: Fixed, sy: Fixed) -> (r: GrabResponse)
        ensures
            r@ == old(self).answer(tracker@, RequestView::PointerMotion { time, sx, sy }),
    ;

    /// A pointer button changed state.
    fn button(&mut self, tracker: &FocusTracker, time: u32, button: u32, state: u32) -> (r: GrabResponse)
        ensures
            r@ == old(self).answer(tracker@, RequestView::PointerButton { time, button, state }),
    ;

    /// A scroll axis moved.
    fn axis(
        &mut self,
        tracker: &FocusTracker,
        time: u32,
        orientation: AxisOrientation,
        value: Fixed,
    ) -> (r: GrabResponse)
        ensures
            r@ == old(self).answer(
                tracker@,
                RequestView::PointerAxis { time, orientation, value },
            ),
    ;
}

/// A grab of the keyboard.
pub trait KeyboardGrab {
    /// What the grab answers, with the tracker in state `tracker`, to the
    /// keyboard event that `event` stands for.
    spec fn answer(&self, tracker: TrackerView, event: RequestView) -> GrabAnswer;

    /// The keyboard is to enter `surface`, with `keycodes` down.
    fn enter(
        &mut self,
        tracker: &FocusTracker,
        surface: &Surface,
        keycodes: &[u32],
        modifiers: &KeyboardModifiers,
    ) -> (r: GrabResponse)
        ensures
            r@ == old(self).answer(
                tracker@,
                RequestView::KeyboardEnter {
                    surface: *surface,
                    keycodes: keycodes@,
                    modifiers: *modifiers,
                },
            ),
    ;

    /// A key changed state.
    fn key(&mut self, tracker: &FocusTracker, time: u32, key: u32, state: u32) -> (r: GrabResponse)
        ensures
            r@ == old(self).answer(tracker@, RequestView::KeyboardKey { time, key, state }),
    ;

    /// The modifier state changed.
    fn modifiers(&mut self, tracker: &FocusTracker, modifiers: &KeyboardModifiers) -> (r: GrabResponse)
        ensures
            r@ == old(self).answer(
                tracker@,
                RequestView::KeyboardModifierState { modifiers: *modifiers },
            ),
    ;
}

/// A grab of the touch device.
pub trait TouchGrab {
    /// What the grab answers, with the tracker in state `tracker`, to the
    /// touch event that `event` stands for.
    spec fn answer(&self, tracker: TrackerView, event: RequestView) -> GrabAnswer;

    /// A contact went down on `surface`.
    fn down(
        &mut self,
        tracker: &FocusTracker,
        surface: &Surface,
        time: u32,
        id: TouchId,
        sx: Fixed,
        sy: Fixed,
    ) -> (r: GrabResponse)
        ensures
            r@ == old(self).answer(
                tracker@,
                RequestView::TouchDown { surface: *surface, time, id, sx, sy },
            ),
    ;

    /// A contact was lifted.
    fn up(&mut self, tracker: &FocusTracker, time: u32, id: TouchId) -> (r: GrabResponse)
        ensures
            r@ == old(self).answer(tracker@, RequestView::TouchUp { time, id }),
    ;

    /// A contact moved. The grab is told of every motion, whether or not a
    /// live touch point has the identifier.
    fn motion(
        &mut self,
        tracker: &FocusTracker,
        time: u32,
        id: TouchId,
        sx: Fixed,
        sy: Fixed,
    ) -> (r: GrabResponse)
        ensures
            r@ == old(self).answer(tracker@, RequestView::TouchMotion { time, id, sx, sy }),
    ;
}

/// The grab that lets every event through unchanged and never ends by
/// itself: with it active, the seat routes as it does without a grab.
#[derive(Clone, Copy, Debug, PartialEq, Eq)]
pub struct PassThrough;

impl PointerGrab for PassThrough {
    open spec fn answer(&self, tracker: TrackerView, event: RequestView) -> GrabAnswer {
        GrabAnswer::forward(event)
    }

    #[allow(unused_variables)]
    fn enter(
        &mut self,
        tracker: &FocusTracker,
        surface: &Surface,
        sx: Fixed,
        sy: Fixed,
    ) -> (r: GrabResponse) {
        GrabResponse::forward(Request::PointerEnter { surface: *surface, sx, sy })
    }

    #[allow(unused_variables)]
    fn motion(&mut self, tracker: &FocusTracker, time: u32, sx: Fixed, sy: Fixed) -> (r: GrabResponse) {
        GrabResponse::forward(Request::PointerMotion { time, sx, sy })
    }

    #[allow(unused_variables)]
    fn button(&mut self, tracker: &FocusTracker, time: u32, button: u32, state: u32) -> (r: GrabResponse) {
        GrabResponse::forward(Request::PointerButton { time, button, state })
    }

    #[allow(unused_variables)]
    fn axis(
        &mut self,
        tracker: &FocusTracker,
        time: u32,
        orientation: AxisOrientation,
        value: Fixed,
    ) -> (r: GrabResponse) {
        GrabResponse::forward(Request::PointerAxis { time, orientation, value })
    }
}

impl KeyboardGrab for PassThrough {
    open spec fn answer(&self, tracker: TrackerView, event: RequestView) -> GrabAnswer {
        GrabAnswer::forward(event)
    }

    #[allow(unused_variables)]
    fn enter(
        &mut self,
        tracker: &FocusTracker,
        surface: &Surface,
        keycodes: &[u32],
        modifiers: &KeyboardModifiers,
    ) -> (r: GrabResponse) {
        GrabResponse::forward(
            Request::KeyboardEnter {
                surface: *surface,
                keycodes: vstd::slice::slice_to_vec(keycodes),
                modifiers: *modifiers,
            },
        )
    }

    #[allow(unused_variables)]
    fn key(&mut self, tracker: &FocusTracker, time: u32, key: u32, state: u32) -> (r: GrabResponse) {
        GrabResponse::forward(Request::KeyboardKey { time, key, state })
    }

    #[allow(unused_variables)]
    fn modifiers(&mut self, tracker: &FocusTracker, modifiers: &KeyboardModifiers) -> (r: GrabResponse) {
        GrabResponse::forward(Request::KeyboardModifierState { modifiers: *modifiers })
    }
}

impl TouchGrab for PassThrough {
    open spec fn answer(&self, tracker: TrackerView, event: RequestView) -> GrabAnswer {
        GrabAnswer::forward(event)
    }

    #[allow(unused_variables)]
    fn down(
        &mut self,
        tracker: &FocusTracker,
        surface: &Surface,
        time: u32,
        id: TouchId,
        sx: Fixed,
        sy: Fixed,
    ) -> (r: GrabResponse) {
        GrabResponse::forward(Request::TouchDown { surface: *surface, time, id, sx, sy })
    }

    #[allow(unused_variables)]
    fn up(&mut self, tracker: &FocusTracker, time: u32, id: TouchId) -> (r: GrabResponse) {
        GrabResponse::forward(Request::TouchUp { time, id })
    }

    #[allow(unused_variables)]
    fn motion(
        &mut self,
        tracker: &FocusTracker,
        time: u32,
        id: TouchId,
        sx: Fixed,
        sy: Fixed,
    ) -> (r: GrabResponse) {
        GrabResponse::forward(Request::TouchMotion { time, id, sx, sy })
    }
}

} // verus!
