//! Requests to the focus tracker as values, and what a grab answers with.

use crate::types::{AxisOrientation, Fixed, KeyboardModifiers, Surface, TouchId};
use vstd::prelude::*;

verus! {

/// One operation of the focus tracker, as a value. Each variant stands for
/// the tracker operation of the same name and carries its arguments.
#[derive(Clone, Debug, PartialEq, Eq)]
pub enum Request {
    PointerEnter { surface: Surface, sx: Fixed, sy: Fixed },
    PointerClearFocus,
    PointerMotion { time: u32, sx: Fixed, sy: Fixed },
    PointerButton { time: u32, button: u32, state: u32 },
    PointerAxis { time: u32, orientation: AxisOrientation, value: Fixed },
    KeyboardEnter { surface: Surface, keycodes: Vec<u32>, modifiers: KeyboardModifiers },
    KeyboardClearFocus,
    KeyboardKey { time: u32, key: u32, state: u32 },
    KeyboardModifierState { modifiers: KeyboardModifiers },
    TouchDown { surface: Surface, time: u32, id: TouchId, sx: Fixed, sy: Fixed },
    TouchUp { time: u32, id: TouchId },
    TouchMotion { time: u32, id: TouchId, sx: Fixed, sy: Fixed },
    TouchPointFocus { surface: Surface, time: u32, id: TouchId, sx: Fixed, sy: Fixed },
    TouchPointClearFocus { time: u32, id: TouchId },
}

/// The mathematical value of a [`Request`].
pub enum RequestView {
    PointerEnter { surface: Surface, sx: Fixed, sy: Fixed },
    PointerClearFocus,
    PointerMotion { time: u32, sx: Fixed, sy: Fixed },
    PointerButton { time: u32, button: u32, state: u32 },
    PointerAxis { time: u32, orientation: AxisOrientation, value: Fixed },
    KeyboardEnter { surface: Surface, keycodes: Seq<u32>, modifiers: KeyboardModifiers },
    KeyboardClearFocus,
    KeyboardKey { time: u32, key: u32, state: u32 },
    KeyboardModifierState { modifiers: KeyboardModifiers },
    TouchDown { surface: Surface, time: u32, id: TouchId, sx: Fixed, sy: Fixed },
    TouchUp { time: u32, id: TouchId },
    TouchMotion { time: u32, id: TouchId, sx: Fixed, sy: Fixed },
    TouchPointFocus { surface: Surface, time: u32, id: TouchId, sx: Fixed, sy: Fixed },
    TouchPointClearFocus { time: u32, id: TouchId },
}

impl View for Request {
    type V = RequestView;

    open spec fn view(&self) -> RequestView {
        match *self {
            Request::PointerEnter { surface, sx, sy } => RequestView::PointerEnter {
                surface,
                sx,
                sy,
            },
            Request::PointerClearFocus => RequestView::PointerClearFocus,
            Request::PointerMotion { time, sx, sy } => RequestView::PointerMotion { time, sx, sy },
            Request::PointerButton { time, button, state } => RequestView::PointerButton {
                time,
                button,
                state,
            },
            Request::PointerAxis { time, orientation, value } => RequestView::PointerAxis {
                time,
                orientation,
                value,
            },
            Request::KeyboardEnter { surface, keycodes, modifiers } => RequestView::KeyboardEnter {
                surface,
                keycodes: keycodes@,
                modifiers,
            },
            Request::KeyboardClearFocus => RequestView::KeyboardClearFocus,
            Request::KeyboardKey { time, key, state } => RequestView::KeyboardKey {
                time,
                key,
                state,
            },
            Request::KeyboardModifierState { modifiers } => RequestView::KeyboardModifierState {
                modifiers,
            },
            Request::TouchDown { surface, time, id, sx, sy } => RequestView::TouchDown {
                surface,
                time,
                id,
                sx,
                sy,
            },
            Request::TouchUp { time, id } => RequestView::TouchUp { time, id },
            Request::TouchMotion { time, id, sx, sy } => RequestView::TouchMotion {
                time,
                id,
                sx,
                sy,
            },
            Request::TouchPointFocus { surface, time, id, sx, sy } => RequestView::TouchPointFocus {
                surface,
                time,
                id,
                sx,
                sy,
            },
            Request::TouchPointClearFocus { time, id } => RequestView::TouchPointClearFocus {
                time,
                id,
            },
        }
    }
}

/// The mathematical value of a list of requests: the values of its members,
/// in order.
pub open spec fn requests_view(requests: Seq<Request>) -> Seq<RequestView> {
    requests.map_values(|r: Request| r@)
}

/// What a grab answers when the seat hands it an input event: the requests
/// to forward to the focus tracker, in order, and whether the grab is over.
#[derive(Clone, Debug, PartialEq, Eq)]
pub struct GrabResponse {
    pub requests: Vec<Request>,
    pub end: bool,
}

/// The mathematical value of a [`GrabResponse`].
pub struct GrabAnswer {
    pub requests: Seq<RequestView>,
    pub end: bool,
}

impl View for GrabResponse {
    type V = GrabAnswer;

    open spec fn view(&self) -> GrabAnswer {
        GrabAnswer { requests: requests_view(self.requests@), end: self.end }
    }
}

impl GrabAnswer {
    /// The answer that lets an event through as `request` and keeps the
    /// grab.
    pub open spec fn forward(request: RequestView) -> GrabAnswer {
        GrabAnswer { requests: seq![request], end: false }
    }
}

impl GrabResponse {
    /// The answer of a grab that lets the event through as `request` and
    /// stays.
    pub fn forward(request: Request) -> (r: GrabResponse)
        ensures
            requests_view(r.requests@) == seq![request@],
            !r.end,
    {
        let mut requests: Vec<Request> = Vec::new();
        requests.push(request);
        assert(requests_view(requests@) =~= seq![request@]);
        GrabResponse { requests, end: false }
    }

    /// The answer of a grab that swallows the event and stays.
    pub fn consume() -> (r: GrabResponse)
        ensures
            requests_view(r.requests@) == Seq::<RequestView>::empty(),
            !r.end,
    {
        let requests: Vec<Request> = Vec::new();
        assert(requests_view(requests@) =~= Seq::<RequestView>::empty());
        GrabResponse { requests, end: false }
    }
}

} // verus!
