//! The focus tracker: which surface each capability has entered, the live
//! touch points, the serial counter, and the events sent to clients.

use crate::event::{events_view, ClientEvent, ClientEventView};
use crate::request::{requests_view, Request, RequestView};
use crate::touch::{TouchPoint, TouchRegistry};
use crate::types::{AxisOrientation, Fixed, KeyboardModifiers, Surface, TouchId};
use vstd::prelude::*;

verus! {

/// The surface that the pointer has entered, and the pointer's last known
/// position on it.
#[derive(Clone, Copy, Debug, PartialEq, Eq)]
pub struct PointerFocus {
    pub surface: Surface,
    pub sx: Fixed,
    pub sy: Fixed,
}

/// The mathematical state of a [`FocusTracker`].
pub struct TrackerView {
    /// The surface that the pointer has entered, if any.
    pub pointer_focus: Option<PointerFocus>,
    /// The surface that the keyboard has entered, if any.
    pub keyboard_focus: Option<Surface>,
    /// The live touch points, by the number of their identifier.
    pub touch_points: Map<i32, TouchPoint>,
    /// The last serial handed out; 0 before the first.
    pub last_serial: u32,
    /// Every event sent to clients and not yet taken, oldest first.
    pub events: Seq<ClientEventView>,
}

impl TrackerView {
    /// The state of a tracker that has done nothing yet.
    pub open spec fn initial() -> TrackerView {
        TrackerView {
            pointer_focus: None,
            keyboard_focus: None,
            touch_points: Map::empty(),
            last_serial: 0,
            events: Seq::empty(),
        }
    }

    /// The state after sending `event`.
    pub open spec fn emit(self, event: ClientEventView) -> TrackerView {
        TrackerView { events: self.events.push(event), ..self }
    }

    /// Whether another serial can be handed out.
    pub open spec fn serial_free(self) -> bool {
        self.last_serial < u32::MAX
    }

    /// The serial that is handed out next, where one is free.
    pub open spec fn next_serial(self) -> u32 {
        (self.last_serial + 1) as u32
    }

    /// Whether `surface` holds the pointer focus.
    pub open spec fn pointer_on(self, surface: Surface) -> bool {
        self.pointer_focus matches Some(f) && f.surface.id == surface.id
    }

    /// Whether `surface` holds the keyboard focus.
    pub open spec fn keyboard_on(self, surface: Surface) -> bool {
        self.keyboard_focus matches Some(f) && f.id == surface.id
    }

    /// The state after the pointer focus is cleared: the focused surface, if
    /// there is one, gets a leave.
    pub open spec fn pointer_focus_cleared(self) -> TrackerView {
        match self.pointer_focus {
            Some(f) => TrackerView {
                pointer_focus: None,
                ..self.emit(ClientEventView::PointerLeave { surface: f.surface.id })
            },
            None => self,
        }
    }

    /// The state after the pointer enters `surface`: nothing changes where
    /// `surface` holds the focus already; otherwise the focused surface
    /// gets a leave, then `surface` gets an enter and holds the focus.
    pub open spec fn pointer_entered(self, surface: Surface, sx: Fixed, sy: Fixed) -> TrackerView {
        if self.pointer_on(surface) {
            self
        } else {
            TrackerView {
                pointer_focus: Some(PointerFocus { surface, sx, sy }),
                ..self.pointer_focus_cleared().emit(
                    ClientEventView::PointerEnter { surface: surface.id, sx, sy },
                )
            }
        }
    }

    /// The state after a pointer motion: the focused surface, if there is
    /// one, gets the motion and the position is kept.
    pub open spec fn motion_sent(self, time: u32, sx: Fixed, sy: Fixed) -> TrackerView {
        match self.pointer_focus {
            Some(f) => TrackerView {
                pointer_focus: Some(PointerFocus { surface: f.surface, sx, sy }),
                ..self.emit(
                    ClientEventView::PointerMotion { surface: f.surface.id, time, sx, sy },
                )
            },
            None => self,
        }
    }

    /// The serial of a button event sent now: the next serial where a
    /// surface holds the pointer focus and a serial is free, else 0.
    pub open spec fn button_serial(self) -> u32 {
        if self.pointer_focus is Some && self.serial_free() {
            self.next_serial()
        } else {
            0
        }
    }

    /// The state after a button event: where it has a serial, the focused
    /// surface gets the event with it.
    pub open spec fn button_sent(self, time: u32, button: u32, state: u32) -> TrackerView {
        match self.pointer_focus {
            Some(f) if self.serial_free() => TrackerView {
                last_serial: self.next_serial(),
                ..self.emit(
                    ClientEventView::PointerButton {
                        surface: f.surface.id,
                        serial: self.next_serial(),
                        time,
                        button,
                        state,
                    },
                )
            },
            _ => self,
        }
    }

    /// The state after an axis event: the focused surface, if there is one,
    /// gets it.
    pub open spec fn axis_sent(
        self,
        time: u32,
        orientation: AxisOrientation,
        value: Fixed,
    ) -> TrackerView {
        match self.pointer_focus {
            Some(f) => self.emit(
                ClientEventView::PointerAxis { surface: f.surface.id, time, orientation, value },
            ),
            None => self,
        }
    }

    /// The state after the keyboard focus is cleared: the focused surface,
    /// if there is one, gets a leave.
    pub open spec fn keyboard_focus_cleared(self) -> TrackerView {
        match self.keyboard_focus {
            Some(f) => TrackerView {
                keyboard_focus: None,
                ..self.emit(ClientEventView::KeyboardLeave { surface: f.id })
            },
            None => self,
        }
    }

    /// The state after the keyboard enters `surface`: nothing changes where
    /// `surface` holds the focus already; otherwise the focused surface
    /// gets a leave, then `surface` gets an enter with the keys that are
    /// down and the modifier state, and holds the focus.
    pub open spec fn keyboard_entered(
        self,
        surface: Surface,
        keycodes: Seq<u32>,
        modifiers: KeyboardModifiers,
    ) -> TrackerView {
        if self.keyboard_on(surface) {
            self
        } else {
            TrackerView {
                keyboard_focus: Some(surface),
                ..self.keyboard_focus_cleared().emit(
                    ClientEventView::KeyboardEnter { surface: surface.id, keycodes, modifiers },
                )
            }
        }
    }

    /// The state after a key event: the focused surface, if there is one,
    /// gets it.
    pub open spec fn key_sent(self, time: u32, key: u32, state: u32) -> TrackerView {
        match self.keyboard_focus {
            Some(f) => self.emit(
                ClientEventView::KeyboardKey { surface: f.id, time, key, state },
            ),
            None => self,
        }
    }

    /// The state after a change of modifiers: the focused surface, if there
    /// is one, gets the new state.
    pub open spec fn modifiers_sent(self, modifiers: KeyboardModifiers) -> TrackerView {
        match self.keyboard_focus {
            Some(f) => self.emit(
                ClientEventView::KeyboardModifierState { surface: f.id, modifiers },
            ),
            None => self,
        }
    }

    /// Whether a touch down on `surface` with identifier `id` is taken: the
    /// surface's client takes touch input, no live point has the
    /// identifier, and a serial is free.
    pub open spec fn touch_down_taken(self, surface: Surface, id: TouchId) -> bool {
        surface.accepts_touch && !self.touch_points.contains_key(id.0) && self.serial_free()
    }

    /// The serial of a touch down sent now: the next serial where the down
    /// is taken, else 0.
    pub open spec fn touch_down_serial(self, surface: Surface, id: TouchId) -> u32 {
        if self.touch_down_taken(surface, id) {
            self.next_serial()
        } else {
            0
        }
    }

    /// The state after a touch down: where it is taken, a point is made
    /// that belongs to `surface` and is over it, and `surface` gets the
    /// down with its serial; where it is refused, nothing changes.
    pub open spec fn touch_down_sent(
        self,
        surface: Surface,
        time: u32,
        id: TouchId,
        sx: Fixed,
        sy: Fixed,
    ) -> TrackerView {
        if self.touch_down_taken(surface, id) {
            TrackerView {
                touch_points: self.touch_points.insert(
                    id.0,
                    TouchPoint { id, surface, focus: Some(surface), sx, sy, time },
                ),
                last_serial: self.next_serial(),
                ..self.emit(
                    ClientEventView::TouchDown {
                        surface: surface.id,
                        serial: self.next_serial(),
                        time,
                        id,
                        sx,
                        sy,
                    },
                )
            }
        } else {
            self
        }
    }

    /// The state after a touch up: a live point with the identifier is
    /// removed and its surface gets the release; without such a point
    /// nothing changes.
    pub open spec fn touch_up_sent(self, time: u32, id: TouchId) -> TrackerView {
        if self.touch_points.contains_key(id.0) {
            TrackerView {
                touch_points: self.touch_points.remove(id.0),
                ..self.emit(
                    ClientEventView::TouchUp {
                        surface: self.touch_points[id.0].surface.id,
                        time,
                        id,
                    },
                )
            }
        } else {
            self
        }
    }

    /// The state after a touch motion: a live point with the identifier
    /// keeps the new position and its surface gets the motion; without such
    /// a point nothing changes.
    pub open spec fn touch_motion_sent(
        self,
        time: u32,
        id: TouchId,
        sx: Fixed,
        sy: Fixed,
    ) -> TrackerView {
        if self.touch_points.contains_key(id.0) {
            let point = self.touch_points[id.0];
            TrackerView {
                touch_points: self.touch_points.insert(id.0, TouchPoint { sx, sy, ..point }),
                ..self.emit(
                    ClientEventView::TouchMotion { surface: point.surface.id, time, id, sx, sy },
                )
            }
        } else {
            self
        }
    }

    /// The state after a live point is told that it is over `surface` at
    /// the given position; without such a point nothing changes. Clients
    /// get nothing.
    pub open spec fn touch_point_focused(
        self,
        surface: Surface,
        id: TouchId,
        sx: Fixed,
        sy: Fixed,
    ) -> TrackerView {
        if self.touch_points.contains_key(id.0) {
            let point = self.touch_points[id.0];
            TrackerView {
                touch_points: self.touch_points.insert(
                    id.0,
                    TouchPoint { focus: Some(surface), sx, sy, ..point },
                ),
                ..self
            }
        } else {
            self
        }
    }

    /// The state after a live point is told that it is over no surface;
    /// without such a point nothing changes. Clients get nothing.
    pub open spec fn touch_point_focus_cleared(self, id: TouchId) -> TrackerView {
        if self.touch_points.contains_key(id.0) {
            let point = self.touch_points[id.0];
            TrackerView {
                touch_points: self.touch_points.insert(id.0, TouchPoint { focus: None, ..point }),
                ..self
            }
        } else {
            self
        }
    }

    /// The state after `request` is carried out.
    pub open spec fn after(self, request: RequestView) -> TrackerView {
        match request {
            RequestView::PointerEnter { surface, sx, sy } => self.pointer_entered(surface, sx, sy),
            RequestView::PointerClearFocus => self.pointer_focus_cleared(),
            RequestView::PointerMotion { time, sx, sy } => self.motion_sent(time, sx, sy),
            RequestView::PointerButton { time, button, state } => self.button_sent(
                time,
                button,
                state,
            ),
            RequestView::PointerAxis { time, orientation, value } => self.axis_sent(
                time,
                orientation,
                value,
            ),
            RequestView::KeyboardEnter { surface, keycodes, modifiers } => self.keyboard_entered(
                surface,
                keycodes,
                modifiers,
            ),
            RequestView::KeyboardClearFocus => self.keyboard_focus_cleared(),
            RequestView::KeyboardKey { time, key, state } => self.key_sent(time, key, state),
            RequestView::KeyboardModifierState { modifiers } => self.modifiers_sent(modifiers),
            RequestView::TouchDown { surface, time, id, sx, sy } => self.touch_down_sent(
                surface,
                time,
                id,
                sx,
                sy,
            ),
            RequestView::TouchUp { time, id } => self.touch_up_sent(time, id),
            RequestView::TouchMotion { time, id, sx, sy } => self.touch_motion_sent(
                time,
                id,
                sx,
                sy,
            ),
            RequestView::TouchPointFocus { surface, time, id, sx, sy } => self.touch_point_focused(
                surface,
                id,
                sx,
                sy,
            ),
            RequestView::TouchPointClearFocus { time, id } => self.touch_point_focus_cleared(id),
        }
    }

    /// The serial that carrying out `request` gives: that of the button
    /// event or touch down it sends, and 0 where it sends neither.
    pub open spec fn reply(self, request: RequestView) -> u32 {
        match request {
            RequestView::PointerButton { .. } => self.button_serial(),
            RequestView::TouchDown { surface, id, .. } => self.touch_down_serial(surface, id),
            _ => 0,
        }
    }

    /// The state after `requests` are carried out in order.
    pub open spec fn run(self, requests: Seq<RequestView>) -> TrackerView
        decreases requests.len(),
    {
        if requests.len() == 0 {
            self
        } else {
            self.run(requests.drop_last()).after(requests.last())
        }
    }

    /// The last serial that carrying out `requests` in order gives, and 0
    /// where none of them gives one.
    pub open spec fn run_reply(self, requests: Seq<RequestView>) -> u32
        decreases requests.len(),
    {
        if requests.len() == 0 {
            0
        } else {
            let last = self.run(requests.drop_last()).reply(requests.last());
            if last != 0 {
                last
            } else {
                self.run_reply(requests.drop_last())
            }
        }
    }
}

/// Tracks the focus of pointer and keyboard and the live touch points, and
/// sends input to the surfaces that hold them. It knows nothing of grabs.
pub struct FocusTracker {
    pointer_focus: Option<PointerFocus>,
    keyboard_focus: Option<Surface>,
    touch: TouchRegistry,
    last_serial: u32,
    events: Vec<ClientEvent>,
}

impl View for FocusTracker {
    type V = TrackerView;

    closed spec fn view(&self) -> TrackerView {
        TrackerView {
            pointer_focus: self.pointer_focus,
            keyboard_focus: self.keyboard_focus,
            touch_points: self.touch@,
            last_serial: self.last_serial,
            events: events_view(self.events@),
        }
    }
}

impl FocusTracker {
    /// A tracker without focus, touch points or events, that has handed
    /// out no serial.
    pub fn new() -> (t: FocusTracker)
        ensures
            t@ == TrackerView::initial(),
    {
        let t = FocusTracker {
            pointer_focus: None,
            keyboard_focus: None,
            touch: TouchRegistry::new(),
            last_serial: 0,
            events: Vec::new(),
        };
        assert(events_view(t.events@) =~= Seq::<ClientEventView>::empty());
        t
    }

    /// Sends `event`.
    pub(crate) fn emit(&mut self, event: ClientEvent)
        ensures
            final(self)@ == old(self)@.emit(event@),
    {
        self.events.push(event);
        assert(events_view(self.events@) =~= events_view(old(self).events@).push(event@));
    }

    /// The surface that the pointer has entered and the pointer's position
    /// on it, if any.
    pub fn pointer_focus(&self) -> (r: Option<PointerFocus>)
        ensures
            r == self@.pointer_focus,
    {
        self.pointer_focus
    }

    /// The surface that the keyboard has entered, if any.
    pub fn keyboard_focus(&self) -> (r: Option<Surface>)
        ensures
            r == self@.keyboard_focus,
    {
        self.keyboard_focus
    }

    /// The last serial handed out; 0 before the first.
    pub fn last_serial(&self) -> (r: u32)
        ensures
            r == self@.last_serial,
    {
        self.last_serial
    }

    /// Whether `surface` holds the pointer focus.
    pub fn pointer_surface_has_focus(&self, surface: &Surface) -> (b: bool)
        ensures
            b == self@.pointer_on(*surface),
    {
        match self.pointer_focus {
            Some(f) => f.surface.id == surface.id,
            None => false,
        }
    }

    /// The live touch point with this identifier, if there is one.
    pub fn get_touch_point(&self, id: TouchId) -> (r: Option<TouchPoint>)
        ensures
            r == (if self@.touch_points.contains_key(id.0) {
                Some(self@.touch_points[id.0])
            } else {
                None
            }),
            r matches Some(p) ==> p.id == id,
    {
        self.touch.get(id)
    }

    /// The number of live touch points.
    pub fn touch_num_points(&self) -> (n: usize)
        ensures
            self@.touch_points.dom().finite(),
            n == self@.touch_points.len(),
    {
        self.touch.len()
    }

    /// Takes the events sent since they were last taken, oldest first.
    pub fn take_events(&mut self) -> (events: Vec<ClientEvent>)
        ensures
            events_view(events@) == old(self)@.events,
            final(self)@ == (TrackerView { events: Seq::empty(), ..old(self)@ }),
    {
        let mut events: Vec<ClientEvent> = Vec::new();
        std::mem::swap(&mut self.events, &mut events);
        assert(events_view(self.events@) =~= Seq::<ClientEventView>::empty());
        events
    }

    /// Clears the pointer focus; the focused surface, if there is one,
    /// gets a leave.
    pub fn pointer_clear_focus(&mut self)
        ensures
            final(self)@ == old(self)@.pointer_focus_cleared(),
    {
        match self.pointer_focus {
            Some(f) => {
                self.emit(ClientEvent::PointerLeave { surface: f.surface.id });
                self.pointer_focus = None;
            },
            None => {},
        }
    }

    /// Makes `surface` the surface that the pointer has entered. The
    /// surface that held the focus gets a leave before `surface` gets its
    /// enter; where `surface` holds the focus already, nothing is sent.
    pub fn pointer_enter(&mut self, surface: &Surface, sx: Fixed, sy: Fixed)
        ensures
            final(self)@ == old(self)@.pointer_entered(*surface, sx, sy),
    {
        if !self.pointer_surface_has_focus(surface) {
            self.pointer_clear_focus();
            self.emit(ClientEvent::PointerEnter { surface: surface.id, sx, sy });
            self.pointer_focus = Some(PointerFocus { surface: *surface, sx, sy });
        }
    }

    /// Sends a pointer motion to the surface that holds the pointer focus.
    pub fn send_motion(&mut self, time: u32, sx: Fixed, sy: Fixed)
        ensures
            final(self)@ == old(self)@.motion_sent(time, sx, sy),
    {
        match self.pointer_focus {
            Some(f) => {
                self.emit(ClientEvent::PointerMotion { surface: f.surface.id, time, sx, sy });
                self.pointer_focus = Some(PointerFocus { surface: f.surface, sx, sy });
            },
            None => {},
        }
    }

    /// Sends a button event to the surface that holds the pointer focus and
    /// returns its serial. Returns 0, and sends nothing, where no surface
    /// holds the focus or every serial has been handed out.
    pub fn send_button(&mut self, time: u32, button: u32, state: u32) -> (serial: u32)
        ensures
            serial == old(self)@.button_serial(),
            final(self)@ == old(self)@.button_sent(time, button, state),
    {
        match self.pointer_focus {
            Some(f) => {
                if self.last_serial < u32::MAX {
                    let serial: u32 = self.last_serial + 1;
                    self.emit(
                        ClientEvent::PointerButton {
                            surface: f.surface.id,
                            serial,
                            time,
                            button,
                            state,
                        },
                    );
                    self.last_serial = serial;
                    serial
                } else {
                    0
                }
            },
            None => 0,
        }
    }

    /// Sends an axis event to the surface that holds the pointer focus.
    pub fn send_axis(&mut self, time: u32, orientation: AxisOrientation, value: Fixed)
        ensures
            final(self)@ == old(self)@.axis_sent(time, orientation, value),
    {
        match self.pointer_focus {
            Some(f) => {
                self.emit(
                    ClientEvent::PointerAxis { surface: f.surface.id, time, orientation, value },
                );
            },
            None => {},
        }
    }

    /// Clears the keyboard focus; the focused surface, if there is one,
    /// gets a leave.
    pub fn keyboard_clear_focus(&mut self)
        ensures
            final(self)@ == old(self)@.keyboard_focus_cleared(),
    {
        match self.keyboard_focus {
            Some(f) => {
                self.emit(ClientEvent::KeyboardLeave { surface: f.id });
                self.keyboard_focus = None;
            },
            None => {},
        }
    }

    /// Makes `surface` the surface that the keyboard has entered, telling
    /// it every key that is down and the modifier state. The surface that
    /// held the focus gets a leave first; where `surface` holds the focus
    /// already, nothing is sent.
    pub fn keyboard_enter(
        &mut self,
        surface: &Surface,
        keycodes: &[u32],
        modifiers: &KeyboardModifiers,
    )
        ensures
            final(self)@ == old(self)@.keyboard_entered(*surface, keycodes@, *modifiers),
    {
        let focused = match self.keyboard_focus {
            Some(f) => f.id == surface.id,
            None => false,
        };
        if !focused {
            self.keyboard_clear_focus();
            self.emit(
                ClientEvent::KeyboardEnter {
                    surface: surface.id,
                    keycodes: vstd::slice::slice_to_vec(keycodes),
                    modifiers: *modifiers,
                },
            );
            self.keyboard_focus = Some(*surface);
        }
    }

    /// Sends a key event to the surface that holds the keyboard focus.
    pub fn keyboard_send_key(&mut self, time: u32, key: u32, state: u32)
        ensures
            final(self)@ == old(self)@.key_sent(time, key, state),
    {
        match self.keyboard_focus {
            Some(f) => {
                self.emit(ClientEvent::KeyboardKey { surface: f.id, time, key, state });
            },
            None => {},
        }
    }

    /// Sends the modifier state to the surface that holds the keyboard
    /// focus.
    pub fn keyboard_send_modifiers(&mut self, modifiers: &KeyboardModifiers)
        ensures
            final(self)@ == old(self)@.modifiers_sent(*modifiers),
    {
        match self.keyboard_focus {
            Some(f) => {
                self.emit(
                    ClientEvent::KeyboardModifierState { surface: f.id, modifiers: *modifiers },
                );
            },
            None => {},
        }
    }

    /// Sends a touch down to `surface` and returns its serial; the new
    /// touch point belongs to `surface`, which gets its motion and its
    /// release. Returns 0, and changes nothing, where the surface's client
    /// takes no touch input, a live point has the identifier already, or
    /// every serial has been handed out.
    pub fn touch_send_down(
        &mut self,
        surface: &Surface,
        time: u32,
        id: TouchId,
        sx: Fixed,
        sy: Fixed,
    ) -> (serial: u32)
        ensures
            serial == old(self)@.touch_down_serial(*surface, id),
            final(self)@ == old(self)@.touch_down_sent(*surface, time, id, sx, sy),
    {
        if surface.accepts_touch && !self.touch.contains(id) && self.last_serial < u32::MAX {
            let serial: u32 = self.last_serial + 1;
            self.touch.insert(
                TouchPoint { id, surface: *surface, focus: Some(*surface), sx, sy, time },
            );
            self.emit(ClientEvent::TouchDown { surface: surface.id, serial, time, id, sx, sy });
            self.last_serial = serial;
            serial
        } else {
            0
        }
    }

    /// Sends a touch up to the surface that the point belongs to and
    /// removes the point. Does nothing where no live point has the
    /// identifier.
    pub fn touch_send_up(&mut self, time: u32, id: TouchId)
        ensures
            final(self)@ == old(self)@.touch_up_sent(time, id),
    {
        match self.touch.remove(id) {
            Some(point) => {
                self.emit(ClientEvent::TouchUp { surface: point.surface.id, time, id });
            },
            None => {
                assert(self.touch@ =~= old(self).touch@);
            },
        }
    }

    /// Sends a touch motion to the surface that the point belongs to and
    /// keeps the new position. Does nothing where no live point has the
    /// identifier.
    pub fn touch_send_motion(&mut self, time: u32, id: TouchId, sx: Fixed, sy: Fixed)
        ensures
            final(self)@ == old(self)@.touch_motion_sent(time, id, sx, sy),
    {
        match self.touch.get(id) {
            Some(point) => {
                self.touch.insert(TouchPoint { sx, sy, ..point });
                self.emit(
                    ClientEvent::TouchMotion { surface: point.surface.id, time, id, sx, sy },
                );
            },
            None => {},
        }
    }

    /// Tells a live touch point that it is over `surface` at the given
    /// position. Does nothing where no live point has the identifier.
    #[allow(unused_variables)]
    pub fn touch_point_focus(
        &mut self,
        surface: &Surface,
        time: u32,
        id: TouchId,
        sx: Fixed,
        sy: Fixed,
    )
        ensures
            final(self)@ == old(self)@.touch_point_focused(*surface, id, sx, sy),
    {
        match self.touch.get(id) {
            Some(point) => {
                self.touch.insert(TouchPoint { focus: Some(*surface), sx, sy, ..point });
            },
            None => {},
        }
    }

    /// Tells a live touch point that it is over no surface. Does nothing
    /// where no live point has the identifier.
    #[allow(unused_variables)]
    pub fn touch_point_clear_focus(&mut self, time: u32, id: TouchId)
        ensures
            final(self)@ == old(self)@.touch_point_focus_cleared(id),
    {
        match self.touch.get(id) {
            Some(point) => {
                self.touch.insert(TouchPoint { focus: None, ..point });
            },
            None => {},
        }
    }

    /// Carries out `request` and returns the serial that it gives.
    pub fn forward(&mut self, request: &Request) -> (serial: u32)
        ensures
            serial == old(self)@.reply(request@),
            final(self)@ == old(self)@.after(request@),
    {
        match request {
            Request::PointerEnter { surface, sx, sy } => {
                self.pointer_enter(surface, *sx, *sy);
                0
            },
            Request::PointerClearFocus => {
                self.pointer_clear_focus();
                0
            },
            Request::PointerMotion { time, sx, sy } => {
                self.send_motion(*time, *sx, *sy);
                0
            },
            Request::PointerButton { time, button, state } => self.send_button(
                *time,
                *button,
                *state,
            ),
            Request::PointerAxis { time, orientation, value } => {
                self.send_axis(*time, *orientation, *value);
                0
            },
            Request::KeyboardEnter { surface, keycodes, modifiers } => {
                self.keyboard_enter(surface, keycodes.as_slice(), modifiers);
                0
            },
            Request::KeyboardClearFocus => {
                self.keyboard_clear_focus();
                0
            },
            Request::KeyboardKey { time, key, state } => {
                self.keyboard_send_key(*time, *key, *state);
                0
            },
            Request::KeyboardModifierState { modifiers } => {
                self.keyboard_send_modifiers(modifiers);
                0
            },
            Request::TouchDown { surface, time, id, sx, sy } => self.touch_send_down(
                surface,
                *time,
                *id,
                *sx,
                *sy,
            ),
            Request::TouchUp { time, id } => {
                self.touch_send_up(*time, *id);
                0
            },
            Request::TouchMotion { time, id, sx, sy } => {
                self.touch_send_motion(*time, *id, *sx, *sy);
                0
            },
            Request::TouchPointFocus { surface, time, id, sx, sy } => {
                self.touch_point_focus(surface, *time, *id, *sx, *sy);
                0
            },
            Request::TouchPointClearFocus { time, id } => {
                self.touch_point_clear_focus(*time, *id);
                0
            },
        }
    }

    /// Carries out `requests` in order and returns the last serial that
    /// one of them gives, or 0 where none gives one.
    pub fn forward_all(&mut self, requests: &Vec<Request>) -> (serial: u32)
        ensures
            serial == old(self)@.run_reply(requests_view(requests@)),
            final(self)@ == old(self)@.run(requests_view(requests@)),
    {
        let ghost all = requests_view(requests@);
        let mut serial: u32 = 0;
        let mut i: usize = 0;
        while i < requests.len()
            invariant
                i <= requests.len(),
                all == requests_view(requests@),
                self@ == old(self)@.run(all.take(i as int)),
                serial == old(self)@.run_reply(all.take(i as int)),
            decreases requests.len() - i,
        {
            proof {
                assert(all.take(i + 1).drop_last() =~= all.take(i as int));
                assert(all.take(i + 1).last() == requests@[i as int]@);
            }
            let given = self.forward(&requests[i]);
            if given != 0 {
                serial = given;
            }
            i = i + 1;
        }
        proof {
            assert(all.take(i as int) =~= all);
        }
        serial
    }
}

} // verus!
