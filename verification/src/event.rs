//! What a seat emits: events for clients and lifecycle signals for its owner.

use crate::capability::Capability;
use crate::types::{AxisOrientation, Fixed, KeyboardModifiers, TouchId};
use vstd::prelude::*;

verus! {

/// One message from the seat to clients. Where a message goes to one
/// surface, `surface` is that surface's identity.
#[derive(Clone, Debug, PartialEq, Eq)]
pub enum ClientEvent {
    /// The seat's capability set changed; goes to every client of the seat.
    Capabilities { capabilities: Capability },
    /// The seat's name changed; goes to every client of the seat.
    Name { name: String },
    PointerEnter { surface: u64, sx: Fixed, sy: Fixed },
    PointerLeave { surface: u64 },
    PointerMotion { surface: u64, time: u32, sx: Fixed, sy: Fixed },
    PointerButton { surface: u64, serial: u32, time: u32, button: u32, state: u32 },
    PointerAxis { surface: u64, time: u32, orientation: AxisOrientation, value: Fixed },
    /// The keyboard entered the surface, with every key that is down.
    KeyboardEnter { surface: u64, keycodes: Vec<u32>, modifiers: KeyboardModifiers },
    KeyboardLeave { surface: u64 },
    KeyboardKey { surface: u64, time: u32, key: u32, state: u32 },
    KeyboardModifierState { surface: u64, modifiers: KeyboardModifiers },
    TouchDown { surface: u64, serial: u32, time: u32, id: TouchId, sx: Fixed, sy: Fixed },
    TouchUp { surface: u64, time: u32, id: TouchId },
    TouchMotion { surface: u64, time: u32, id: TouchId, sx: Fixed, sy: Fixed },
}

/// The mathematical value of a [`ClientEvent`].
pub enum ClientEventView {
    Capabilities { capabilities: Capability },
    Name { name: Seq<char> },
    PointerEnter { surface: u64, sx: Fixed, sy: Fixed },
    PointerLeave { surface: u64 },
    PointerMotion { surface: u64, time: u32, sx: Fixed, sy: Fixed },
    PointerButton { surface: u64, serial: u32, time: u32, button: u32, state: u32 },
    PointerAxis { surface: u64, time: u32, orientation: AxisOrientation, value: Fixed },
    KeyboardEnter { surface: u64, keycodes: Seq<u32>, modifiers: KeyboardModifiers },
    KeyboardLeave { surface: u64 },
    KeyboardKey { surface: u64, time: u32, key: u32, state: u32 },
    KeyboardModifierState { surface: u64, modifiers: KeyboardModifiers },
    TouchDown { surface: u64, serial: u32, time: u32, id: TouchId, sx: Fixed, sy: Fixed },
    TouchUp { surface: u64, time: u32, id: TouchId },
    TouchMotion { surface: u64, time: u32, id: TouchId, sx: Fixed, sy: Fixed },
}

impl View for ClientEvent {
    type V = ClientEventView;

    open spec fn view(&self) -> ClientEventView {
        match *self {
            ClientEvent::Capabilities { capabilities } => ClientEventView::Capabilities {
                capabilities,
            },
            ClientEvent::Name { name } => ClientEventView::Name { name: name@ },
            ClientEvent::PointerEnter { surface, sx, sy } => ClientEventView::PointerEnter {
                surface,
                sx,
                sy,
            },
            ClientEvent::PointerLeave { surface } => ClientEventView::PointerLeave { surface },
            ClientEvent::PointerMotion { surface, time, sx, sy } => ClientEventView::PointerMotion {
                surface,
                time,
                sx,
                sy,
            },
            ClientEvent::PointerButton {
                surface,
                serial,
                time,
                button,
                state,
            } => ClientEventView::PointerButton { surface, serial, time, button, state },
            ClientEvent::PointerAxis {
                surface,
                time,
                orientation,
                value,
            } => ClientEventView::PointerAxis { surface, time, orientation, value },
            ClientEvent::KeyboardEnter {
                surface,
                keycodes,
                modifiers,
            } => ClientEventView::KeyboardEnter { surface, keycodes: keycodes@, modifiers },
            ClientEvent::KeyboardLeave { surface } => ClientEventView::KeyboardLeave { surface },
            ClientEvent::KeyboardKey { surface, time, key, state } => ClientEventView::KeyboardKey {
                surface,
                time,
                key,
                state,
            },
            ClientEvent::KeyboardModifierState {
                surface,
                modifiers,
            } => ClientEventView::KeyboardModifierState { surface, modifiers },
            ClientEvent::TouchDown {
                surface,
                serial,
                time,
                id,
                sx,
                sy,
            } => ClientEventView::TouchDown { surface, serial, time, id, sx, sy },
            ClientEvent::TouchUp { surface, time, id } => ClientEventView::TouchUp {
                surface,
                time,
                id,
            },
            ClientEvent::TouchMotion { surface, time, id, sx, sy } => ClientEventView::TouchMotion {
                surface,
                time,
                id,
                sx,
                sy,
            },
        }
    }
}

/// The mathematical value of a list of events: the values of its members,
/// in order.
pub open spec fn events_view(events: Seq<ClientEvent>) -> Seq<ClientEventView> {
    events.map_values(|e: ClientEvent| e@)
}

/// A lifecycle signal that a seat raises for its owner.
#[derive(Clone, Copy, Debug, PartialEq, Eq)]
pub enum SeatSignal {
    PointerGrabBegin,
    PointerGrabEnd,
    KeyboardGrabBegin,
    KeyboardGrabEnd,
    TouchGrabBegin,
    TouchGrabEnd,
    /// A client asked for another cursor image.
    RequestSetCursor,
    /// A client offered a selection.
    Selection,
    /// A client offered a primary selection.
    PrimarySelection,
    /// The seat is being destroyed.
    Destroy,
}

} // verus!
