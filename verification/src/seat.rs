//! The seat: one user's pointer, keyboard and touch input, routed to client
//! surfaces, with at most one grab per capability.

use crate::capability::Capability;
use crate::compositor::Compositor;
use crate::event::{ClientEvent, ClientEventView, SeatSignal};
use crate::grab::{KeyboardGrab, PointerGrab, TouchGrab};
use crate::request::{requests_view, GrabResponse, RequestView};
use crate::touch::TouchPoint;
use crate::tracker::{FocusTracker, TrackerView};
use crate::types::{AxisOrientation, Fixed, InputDevice, KeyboardModifiers, Surface, TouchId};
use vstd::prelude::*;

verus! {

/// The capability that a grab intercepts.
#[derive(Clone, Copy, Debug, PartialEq, Eq)]
pub enum GrabKind {
    Pointer,
    Keyboard,
    Touch,
}

impl GrabKind {
    /// The signal that tells of the start of a grab of this kind.
    pub open spec fn begin_signal(self) -> SeatSignal {
        match self {
            GrabKind::Pointer => SeatSignal::PointerGrabBegin,
            GrabKind::Keyboard => SeatSignal::KeyboardGrabBegin,
            GrabKind::Touch => SeatSignal::TouchGrabBegin,
        }
    }

    /// The signal that tells of the end of a grab of this kind.
    pub open spec fn end_signal(self) -> SeatSignal {
        match self {
            GrabKind::Pointer => SeatSignal::PointerGrabEnd,
            GrabKind::Keyboard => SeatSignal::KeyboardGrabEnd,
            GrabKind::Touch => SeatSignal::TouchGrabEnd,
        }
    }
}

/// The mathematical state of a [`Seat`].
pub struct SeatView {
    /// The name that the seat advertises.
    pub name: Seq<char>,
    /// The capabilities that the seat advertises.
    pub capabilities: Capability,
    /// The keyboard that is active on the seat, if any.
    pub keyboard: Option<InputDevice>,
    /// The state of the seat's focus tracker.
    pub tracker: TrackerView,
    /// The lifecycle signals raised and not yet taken, oldest first.
    pub signals: Seq<SeatSignal>,
    /// Whether a pointer grab is active.
    pub pointer_grab: bool,
    /// Whether a keyboard grab is active.
    pub keyboard_grab: bool,
    /// Whether a touch grab is active.
    pub touch_grab: bool,
    /// Whether the seat holds its handler; it does but while the handler
    /// runs.
    pub handler: bool,
}

impl SeatView {
    /// The state of a seat that was just made.
    pub open spec fn initial(name: Seq<char>) -> SeatView {
        SeatView {
            name,
            capabilities: Capability { pointer: false, keyboard: false, touch: false },
            keyboard: None,
            tracker: TrackerView::initial(),
            signals: Seq::empty(),
            pointer_grab: false,
            keyboard_grab: false,
            touch_grab: false,
            handler: true,
        }
    }

    /// The same seat with its tracker in state `tracker`.
    pub open spec fn with_tracker(self, tracker: TrackerView) -> SeatView {
        SeatView { tracker, ..self }
    }

    /// The state after `signal` is raised.
    pub open spec fn raise(self, signal: SeatSignal) -> SeatView {
        SeatView { signals: self.signals.push(signal), ..self }
    }

    /// Whether a grab of this kind is active.
    pub open spec fn has_grab(self, kind: GrabKind) -> bool {
        match kind {
            GrabKind::Pointer => self.pointer_grab,
            GrabKind::Keyboard => self.keyboard_grab,
            GrabKind::Touch => self.touch_grab,
        }
    }

    /// The same seat with a grab of this kind active or not.
    pub open spec fn with_grab(self, kind: GrabKind, active: bool) -> SeatView {
        match kind {
            GrabKind::Pointer => SeatView { pointer_grab: active, ..self },
            GrabKind::Keyboard => SeatView { keyboard_grab: active, ..self },
            GrabKind::Touch => SeatView { touch_grab: active, ..self },
        }
    }

    /// The state after the grab of this kind is ended: an active grab is
    /// gone and its end is signalled; without one nothing changes.
    pub open spec fn grab_ended(self, kind: GrabKind) -> SeatView {
        if self.has_grab(kind) {
            self.with_grab(kind, false).raise(kind.end_signal())
        } else {
            self
        }
    }

    /// The state after a grab of this kind is started: an active grab of
    /// the kind is ended first, then the new one is active and its start is
    /// signalled.
    pub open spec fn grab_started(self, kind: GrabKind) -> SeatView {
        self.grab_ended(kind).with_grab(kind, true).raise(kind.begin_signal())
    }

    /// The state after the grab of this kind answered an event: its
    /// requests are carried out in order, then the grab is ended where it
    /// said so.
    pub open spec fn grab_answered(
        self,
        kind: GrabKind,
        requests: Seq<RequestView>,
        end: bool,
    ) -> SeatView {
        let forwarded = self.with_tracker(self.tracker.run(requests));
        if end {
            forwarded.grab_ended(kind)
        } else {
            forwarded
        }
    }

    /// Whether the seat holds no grab, and no surface holds its pointer or
    /// keyboard focus.
    pub open spec fn is_released(self) -> bool {
        &&& !self.pointer_grab
        &&& !self.keyboard_grab
        &&& !self.touch_grab
        &&& self.tracker.pointer_focus is None
        &&& self.tracker.keyboard_focus is None
    }

    /// The state after a callback for `signal` is over: the seat holds its
    /// handler again, and it has let go of everything where the signal was
    /// its destruction.
    pub open spec fn concluded(self, signal: SeatSignal) -> SeatView {
        let held = SeatView { handler: true, ..self };
        if signal == SeatSignal::Destroy {
            held.released()
        } else {
            held
        }
    }

    /// The state after the seat let go of everything: each active grab is
    /// ended, pointer first, then keyboard, then touch, and then the
    /// pointer focus and the keyboard focus are cleared.
    pub open spec fn released(self) -> SeatView {
        let ended = self.grab_ended(GrabKind::Pointer).grab_ended(GrabKind::Keyboard).grab_ended(
            GrabKind::Touch,
        );
        ended.with_tracker(ended.tracker.pointer_focus_cleared().keyboard_focus_cleared())
    }
}

/// A seat. `H` is the type of the handler that the seat holds for its
/// lifecycle callbacks.
pub struct Seat<H> {
    name: String,
    capabilities: Capability,
    keyboard: Option<InputDevice>,
    tracker: FocusTracker,
    signals: Vec<SeatSignal>,
    pointer_grab: Option<Box<dyn PointerGrab>>,
    keyboard_grab: Option<Box<dyn KeyboardGrab>>,
    touch_grab: Option<Box<dyn TouchGrab>>,
    handler: Option<H>,
}

impl<H> View for Seat<H> {
    type V = SeatView;

    closed spec fn view(&self) -> SeatView {
        SeatView {
            name: self.name@,
            capabilities: self.capabilities,
            keyboard: self.keyboard,
            tracker: self.tracker@,
            signals: self.signals@,
            pointer_grab: self.pointer_grab.is_some(),
            keyboard_grab: self.keyboard_grab.is_some(),
            touch_grab: self.touch_grab.is_some(),
            handler: self.handler.is_some(),
        }
    }
}

impl<H> Seat<H> {
    /// The pointer grab that the seat holds, if one is active.
    pub closed spec fn spec_pointer_grab(&self) -> Option<Box<dyn PointerGrab>> {
        self.pointer_grab
    }

    /// The keyboard grab that the seat holds, if one is active.
    pub closed spec fn spec_keyboard_grab(&self) -> Option<Box<dyn KeyboardGrab>> {
        self.keyboard_grab
    }

    /// The touch grab that the seat holds, if one is active.
    pub closed spec fn spec_touch_grab(&self) -> Option<Box<dyn TouchGrab>> {
        self.touch_grab
    }

    /// The handler that the seat holds; none while the handler runs.
    pub closed spec fn spec_handler(&self) -> Option<H> {
        self.handler
    }

    /// Whether the seat holds the very grabs and handler that `before`
    /// holds.
    pub open spec fn holds_as(&self, before: &Seat<H>) -> bool {
        &&& self.spec_pointer_grab() == before.spec_pointer_grab()
        &&& self.spec_keyboard_grab() == before.spec_keyboard_grab()
        &&& self.spec_touch_grab() == before.spec_touch_grab()
        &&& self.spec_handler() == before.spec_handler()
    }

    /// The seat's state says that a grab is active exactly where the seat
    /// holds one, and that it holds its handler exactly where it does.
    pub proof fn law_state_of_holdings(&self)
        ensures
            self@.pointer_grab == self.spec_pointer_grab().is_some(),
            self@.keyboard_grab == self.spec_keyboard_grab().is_some(),
            self@.touch_grab == self.spec_touch_grab().is_some(),
            self@.handler == self.spec_handler().is_some(),
    {
    }

    /// A seat named `name` that holds `handler`, with no capability, focus,
    /// touch point or grab.
    pub fn new(name: String, handler: H) -> (seat: Seat<H>)
        ensures
            seat.spec_pointer_grab() is None,
            seat.spec_keyboard_grab() is None,
            seat.spec_touch_grab() is None,
            seat.spec_handler() == Some(handler),
            seat@ == SeatView::initial(name@),
    {
        Seat {
            name,
            capabilities: Capability::empty(),
            keyboard: None,
            tracker: FocusTracker::new(),
            signals: Vec::new(),
            pointer_grab: None,
            keyboard_grab: None,
            touch_grab: None,
            handler: Some(handler),
        }
    }

    /// Makes a seat named `name` that holds `handler` and registers it with
    /// `compositor`. Returns whether it was registered: where a seat is
    /// held under the name already, nothing changes and the new seat is
    /// dropped.
    pub fn create(compositor: &mut Compositor<H>, name: String, handler: H) -> (created: bool)
        ensures
            created == !old(compositor)@.contains_key(name@),
            final(compositor)@ == (if created {
                old(compositor)@.insert(name@, SeatView::initial(name@))
            } else {
                old(compositor)@
            }),
            created ==> final(compositor).spec_seat(name@).spec_handler() == Some(handler),
            !created ==> final(compositor).spec_seat(name@) == old(compositor).spec_seat(name@),
            final(compositor).keeps_seats_but(old(compositor), name@),
            final(compositor).spec_is_shutting_down() == old(compositor).spec_is_shutting_down(),
    {
        compositor.add_seat(Seat::new(name, handler))
    }

    /// The name that the seat advertises.
    pub fn name(&self) -> (r: Option<String>)
        ensures
            r matches Some(n) && n@ == self@.name,
    {
        Some(self.name.clone())
    }

    /// Gives the seat another name and tells every client.
    ///
    /// A registry that holds seats by name does not learn of this: take the
    /// seat out of it, rename it, and put it back.
    pub fn set_name(&mut self, name: String)
        ensures
            final(self).holds_as(old(self)),
            final(self)@ == (SeatView {
                name: name@,
                ..old(self)@.with_tracker(
                    old(self)@.tracker.emit(ClientEventView::Name { name: name@ }),
                )
            }),
    {
        self.tracker.emit(ClientEvent::Name { name: name.clone() });
        self.name = name;
    }

    /// The capabilities that the seat advertises.
    pub fn capabilities(&self) -> (r: Capability)
        ensures
            r == self@.capabilities,
    {
        self.capabilities
    }

    /// Sets the capabilities that the seat advertises and tells every
    /// client.
    pub fn set_capabilities(&mut self, capabilities: Capability)
        ensures
            final(self).holds_as(old(self)),
            final(self)@ == (SeatView {
                capabilities,
                ..old(self)@.with_tracker(
                    old(self)@.tracker.emit(ClientEventView::Capabilities { capabilities }),
                )
            }),
    {
        self.tracker.emit(ClientEvent::Capabilities { capabilities });
        self.capabilities = capabilities;
    }

    /// The keyboard that is active on the seat, if any.
    pub fn keyboard(&self) -> (r: Option<InputDevice>)
        ensures
            r == self@.keyboard,
    {
        self.keyboard
    }

    /// Makes `device` the active keyboard of the seat.
    pub fn set_keyboard(&mut self, device: InputDevice)
        ensures
            final(self).holds_as(old(self)),
            final(self)@ == (SeatView { keyboard: Some(device), ..old(self)@ }),
    {
        self.keyboard = Some(device);
    }

    /// The seat's focus tracker, to read.
    pub fn tracker(&self) -> (t: &FocusTracker)
        ensures
            t@ == self@.tracker,
    {
        &self.tracker
    }

    /// Takes the events sent to clients since they were last taken, oldest
    /// first.
    pub fn take_events(&mut self) -> (events: Vec<ClientEvent>)
        ensures
            final(self).holds_as(old(self)),
            crate::event::events_view(events@) == old(self)@.tracker.events,
            final(self)@ == old(self)@.with_tracker(
                TrackerView { events: Seq::empty(), ..old(self)@.tracker },
            ),
    {
        self.tracker.take_events()
    }

    /// Takes the lifecycle signals raised since they were last taken,
    /// oldest first.
    pub fn take_signals(&mut self) -> (signals: Vec<SeatSignal>)
        ensures
            final(self).holds_as(old(self)),
            signals@ == old(self)@.signals,
            final(self)@ == (SeatView { signals: Seq::empty(), ..old(self)@ }),
    {
        let mut signals: Vec<SeatSignal> = Vec::new();
        std::mem::swap(&mut self.signals, &mut signals);
        signals
    }

    /// The name that the seat advertises, to read.
    pub(crate) fn name_ref(&self) -> (name: &String)
        ensures
            name@ == self@.name,
    {
        &self.name
    }

    /// Whether the seat advertises `name`.
    pub(crate) fn is_named(&self, name: &String) -> (b: bool)
        ensures
            b == (self@.name == name@),
    {
        self.name == *name
    }

    /// Takes the handler out of the seat, for the time that it runs.
    pub(crate) fn take_handler(&mut self) -> (handler: Option<H>)
        ensures
            handler == old(self).spec_handler(),
            handler.is_some() == old(self)@.handler,
            handler is None ==> *final(self) == *old(self),
            final(self).spec_handler() is None,
            final(self).spec_pointer_grab() == old(self).spec_pointer_grab(),
            final(self).spec_keyboard_grab() == old(self).spec_keyboard_grab(),
            final(self).spec_touch_grab() == old(self).spec_touch_grab(),
            final(self)@ == (SeatView { handler: false, ..old(self)@ }),
    {
        self.handler.take()
    }

    /// Gives the seat its handler back. A seat that holds a handler keeps
    /// the one it holds.
    pub(crate) fn restore_handler(&mut self, handler: H)
        ensures
            final(self).spec_handler() == (if old(self).spec_handler() is Some {
                old(self).spec_handler()
            } else {
                Some(handler)
            }),
            final(self).spec_pointer_grab() == old(self).spec_pointer_grab(),
            final(self).spec_keyboard_grab() == old(self).spec_keyboard_grab(),
            final(self).spec_touch_grab() == old(self).spec_touch_grab(),
            final(self)@ == (SeatView { handler: true, ..old(self)@ }),
    {
        if self.handler.is_none() {
            self.handler = Some(handler);
        }
    }

    /// Lets go of everything, as a seat does when it is destroyed: ends
    /// each active grab and clears the pointer and keyboard focus.
    pub fn release(&mut self)
        ensures
            final(self).spec_pointer_grab() is None,
            final(self).spec_keyboard_grab() is None,
            final(self).spec_touch_grab() is None,
            final(self).spec_handler() == old(self).spec_handler(),
            final(self)@ == old(self)@.released(),
            final(self)@.is_released(),
    {
        self.pointer_end_grab();
        self.keyboard_end_grab();
        self.touch_end_grab();
        self.tracker.pointer_clear_focus();
        self.tracker.keyboard_clear_focus();
    }

    /// Whether `surface` holds the pointer focus.
    pub fn pointer_surface_has_focus(&self, surface: &Surface) -> (b: bool)
        ensures
            b == self@.tracker.pointer_on(*surface),
    {
        self.tracker.pointer_surface_has_focus(surface)
    }

    /// Makes `surface` the surface that the pointer has entered, whatever
    /// grab is active. The surface that held the focus gets a leave before
    /// `surface` gets its enter; where `surface` holds the focus already,
    /// nothing is sent.
    pub fn pointer_enter(&mut self, surface: &Surface, sx: Fixed, sy: Fixed)
        ensures
            final(self).holds_as(old(self)),
            final(self)@ == old(self)@.with_tracker(
                old(self)@.tracker.pointer_entered(*surface, sx, sy),
            ),
    {
        self.tracker.pointer_enter(surface, sx, sy);
    }

    /// Clears the pointer focus; the focused surface, if there is one,
    /// gets a leave.
    pub fn clear_focus(&mut self)
        ensures
            final(self).holds_as(old(self)),
            final(self)@ == old(self)@.with_tracker(old(self)@.tracker.pointer_focus_cleared()),
    {
        self.tracker.pointer_clear_focus();
    }

    /// Clears the pointer focus; the focused surface, if there is one,
    /// gets a leave.
    pub fn pointer_clear_focus(&mut self)
        ensures
            final(self).holds_as(old(self)),
            final(self)@ == old(self)@.with_tracker(old(self)@.tracker.pointer_focus_cleared()),
    {
        self.tracker.pointer_clear_focus();
    }

    /// Sends a pointer motion to the surface that holds the pointer focus,
    /// whatever grab is active.
    pub fn send_motion(&mut self, time: u32, sx: Fixed, sy: Fixed)
        ensures
            final(self).holds_as(old(self)),
            final(self)@ == old(self)@.with_tracker(old(self)@.tracker.motion_sent(time, sx, sy)),
    {
        self.tracker.send_motion(time, sx, sy);
    }

    /// Sends a button event to the surface that holds the pointer focus,
    /// whatever grab is active, and returns its serial. Returns 0, and
    /// sends nothing, where no surface holds the focus or every serial has
    /// been handed out.
    pub fn send_button(&mut self, time: u32, button: u32, state: u32) -> (serial: u32)
        ensures
            final(self).holds_as(old(self)),
            serial == old(self)@.tracker.button_serial(),
            final(self)@ == old(self)@.with_tracker(
                old(self)@.tracker.button_sent(time, button, state),
            ),
    {
        self.tracker.send_button(time, button, state)
    }

    /// Sends an axis event to the surface that holds the pointer focus,
    /// whatever grab is active.
    pub fn send_axis(&mut self, time: u32, orientation: AxisOrientation, value: Fixed)
        ensures
            final(self).holds_as(old(self)),
            final(self)@ == old(self)@.with_tracker(
                old(self)@.tracker.axis_sent(time, orientation, value),
            ),
    {
        self.tracker.send_axis(time, orientation, value);
    }

    /// Starts a grab of the pointer: from now on `grab` is handed every
    /// pointer event that the seat is notified of. A pointer grab that was
    /// active is ended first, which is signalled before the start of the
    /// new one, and is returned.
    pub fn pointer_start_grab(&mut self, grab: Box<dyn PointerGrab>) -> (previous: Option<
        Box<dyn PointerGrab>,
    >)
        ensures
            previous == old(self).spec_pointer_grab(),
            final(self).spec_pointer_grab() == Some(grab),
            final(self).spec_keyboard_grab() == old(self).spec_keyboard_grab(),
            final(self).spec_touch_grab() == old(self).spec_touch_grab(),
            final(self).spec_handler() == old(self).spec_handler(),
            final(self)@ == old(self)@.grab_started(GrabKind::Pointer),
    {
        let previous = self.pointer_end_grab();
        let started = Some(grab);
        self.pointer_grab = started;
        self.signals.push(SeatSignal::PointerGrabBegin);
        previous
    }

    /// Ends the grab of the pointer and returns it; the pointer events
    /// that the seat is notified of go to the focus tracker again. Does
    /// nothing where no pointer grab is active.
    pub fn pointer_end_grab(&mut self) -> (ended: Option<Box<dyn PointerGrab>>)
        ensures
            ended == old(self).spec_pointer_grab(),
            final(self).spec_pointer_grab() is None,
            final(self).spec_keyboard_grab() == old(self).spec_keyboard_grab(),
            final(self).spec_touch_grab() == old(self).spec_touch_grab(),
            final(self).spec_handler() == old(self).spec_handler(),
            final(self)@ == old(self)@.grab_ended(GrabKind::Pointer),
    {
        let ended = self.pointer_grab.take();
        if ended.is_some() {
            self.signals.push(SeatSignal::PointerGrabEnd);
        }
        ended
    }

    /// Whether a pointer grab is active.
    pub fn pointer_has_grab(&self) -> (b: bool)
        ensures
            b == self@.pointer_grab,
    {
        self.pointer_grab.is_some()
    }

    /// Carries out what the pointer grab answered to an event: forwards
    /// its requests in order, ends the grab where it said so, and returns
    /// the last serial that a request gave, or 0 where none gave one.
    pub fn pointer_grab_answered(&mut self, response: &GrabResponse) -> (serial: u32)
        ensures
            final(self).spec_pointer_grab() == (if response.end {
                None
            } else {
                old(self).spec_pointer_grab()
            }),
            final(self).spec_keyboard_grab() == old(self).spec_keyboard_grab(),
            final(self).spec_touch_grab() == old(self).spec_touch_grab(),
            final(self).spec_handler() == old(self).spec_handler(),
            serial == old(self)@.tracker.run_reply(requests_view(response.requests@)),
            final(self)@ == old(self)@.grab_answered(
                GrabKind::Pointer,
                requests_view(response.requests@),
                response.end,
            ),
    {
        let serial = self.tracker.forward_all(&response.requests);
        if response.end {
            self.pointer_end_grab();
        }
        serial
    }

    /// Notifies the seat that the pointer is to enter `surface`. Without a
    /// pointer grab this is [`Seat::pointer_enter`]; with one, the grab is
    /// asked and its answer carried out.
    pub fn pointer_notify_enter(&mut self, surface: &Surface, sx: Fixed, sy: Fixed)
        ensures
            final(self).spec_keyboard_grab() == old(self).spec_keyboard_grab(),
            final(self).spec_touch_grab() == old(self).spec_touch_grab(),
            final(self).spec_handler() == old(self).spec_handler(),
            !old(self)@.pointer_grab ==> final(self).spec_pointer_grab() is None,
            !old(self)@.pointer_grab ==> final(self)@ == old(self)@.with_tracker(
                old(self)@.tracker.pointer_entered(*surface, sx, sy),
            ),
            old(self)@.pointer_grab ==> ({
                let answer = old(self).spec_pointer_grab().unwrap().answer(
                    old(self)@.tracker,
                    RequestView::PointerEnter { surface: *surface, sx, sy },
                );
                final(self)@ == old(self)@.grab_answered(
                    GrabKind::Pointer,
                    answer.requests,
                    answer.end,
                )
            }),
    {
        match &mut self.pointer_grab {
            Some(grab) => {
                let response = grab.enter(&self.tracker, surface, sx, sy);
                self.pointer_grab_answered(&response);
            },
            None => {
                self.tracker.pointer_enter(surface, sx, sy);
            },
        }
    }

    /// Notifies the seat of a pointer motion. Without a pointer grab this
    /// is [`Seat::send_motion`]; with one, the grab is asked and its answer
    /// carried out.
    pub fn pointer_notify_motion(&mut self, time: u32, sx: Fixed, sy: Fixed)
        ensures
            final(self).spec_keyboard_grab() == old(self).spec_keyboard_grab(),
            final(self).spec_touch_grab() == old(self).spec_touch_grab(),
            final(self).spec_handler() == old(self).spec_handler(),
            !old(self)@.pointer_grab ==> final(self).spec_pointer_grab() is None,
            !old(self)@.pointer_grab ==> final(self)@ == old(self)@.with_tracker(
                old(self)@.tracker.motion_sent(time, sx, sy),
            ),
            old(self)@.pointer_grab ==> ({
                let answer = old(self).spec_pointer_grab().unwrap().answer(
                    old(self)@.tracker,
                    RequestView::PointerMotion { time, sx, sy },
                );
                final(self)@ == old(self)@.grab_answered(
                    GrabKind::Pointer,
                    answer.requests,
                    answer.end,
                )
            }),
    {
        match &mut self.pointer_grab {
            Some(grab) => {
                let response = grab.motion(&self.tracker, time, sx, sy);
                self.pointer_grab_answered(&response);
            },
            None => {
                self.tracker.send_motion(time, sx, sy);
            },
        }
    }

    /// Notifies the seat of a button event and returns the serial of the
    /// button event that was sent, or 0 where none was. Without a pointer
    /// grab this is [`Seat::send_button`]; with one, the grab is asked and
    /// its answer carried out.
    pub fn pointer_notify_button(&mut self, time: u32, button: u32, state: u32) -> (serial: u32)
        ensures
            final(self).spec_keyboard_grab() == old(self).spec_keyboard_grab(),
            final(self).spec_touch_grab() == old(self).spec_touch_grab(),
            final(self).spec_handler() == old(self).spec_handler(),
            !old(self)@.pointer_grab ==> final(self).spec_pointer_grab() is None,
            !old(self)@.pointer_grab ==> serial == old(self)@.tracker.button_serial()
                && final(self)@ == old(self)@.with_tracker(
                old(self)@.tracker.button_sent(time, button, state),
            ),
            old(self)@.pointer_grab ==> ({
                let answer = old(self).spec_pointer_grab().unwrap().answer(
                    old(self)@.tracker,
                    RequestView::PointerButton { time, button, state },
                );
                final(self)@ == old(self)@.grab_answered(
                    GrabKind::Pointer,
                    answer.requests,
                    answer.end,
                ) && serial == old(self)@.tracker.run_reply(answer.requests)
            }),
    {
        match &mut self.pointer_grab {
            Some(grab) => {
                let response = grab.button(&self.tracker, time, button, state);
                self.pointer_grab_answered(&response)
            },
            None => self.tracker.send_button(time, button, state),
        }
    }

    /// Notifies the seat of an axis event. Without a pointer grab this is
    /// [`Seat::send_axis`]; with one, the grab is asked and its answer
    /// carried out.
    pub fn pointer_notify_axis(&mut self, time: u32, orientation: AxisOrientation, value: Fixed)
        ensures
            final(self).spec_keyboard_grab() == old(self).spec_keyboard_grab(),
            final(self).spec_touch_grab() == old(self).spec_touch_grab(),
            final(self).spec_handler() == old(self).spec_handler(),
            !old(self)@.pointer_grab ==> final(self).spec_pointer_grab() is None,
            !old(self)@.pointer_grab ==> final(self)@ == old(self)@.with_tracker(
                old(self)@.tracker.axis_sent(time, orientation, value),
            ),
            old(self)@.pointer_grab ==> ({
                let answer = old(self).spec_pointer_grab().unwrap().answer(
                    old(self)@.tracker,
                    RequestView::PointerAxis { time, orientation, value },
                );
                final(self)@ == old(self)@.grab_answered(
                    GrabKind::Pointer,
                    answer.requests,
                    answer.end,
                )
            }),
    {
        match &mut self.pointer_grab {
            Some(grab) => {
                let response = grab.axis(&self.tracker, time, orientation, value);
                self.pointer_grab_answered(&response);
            },
            None => {
                self.tracker.send_axis(time, orientation, value);
            },
        }
    }

    /// Sends a key event to the surface that holds the keyboard focus,
    /// whatever grab is active.
    pub fn keyboard_send_key(&mut self, time: u32, key: u32, state: u32)
        ensures
            final(self).holds_as(old(self)),
            final(self)@ == old(self)@.with_tracker(old(self)@.tracker.key_sent(time, key, state)),
    {
        self.tracker.keyboard_send_key(time, key, state);
    }

    /// Sends the modifier state to the surface that holds the keyboard
    /// focus, whatever grab is active.
    pub fn keyboard_send_modifiers(&mut self, modifiers: &KeyboardModifiers)
        ensures
            final(self).holds_as(old(self)),
            final(self)@ == old(self)@.with_tracker(old(self)@.tracker.modifiers_sent(*modifiers)),
    {
        self.tracker.keyboard_send_modifiers(modifiers);
    }

    /// Makes `surface` the surface that the keyboard has entered, whatever
    /// grab is active, telling it every key that is down and the modifier
    /// state. The surface that held the focus gets a leave first; where
    /// `surface` holds the focus already, nothing is sent.
    pub fn keyboard_enter(
        &mut self,
        surface: &Surface,
        keycodes: &[u32],
        modifiers: &KeyboardModifiers,
    )
        ensures
            final(self).holds_as(old(self)),
            final(self)@ == old(self)@.with_tracker(
                old(self)@.tracker.keyboard_entered(*surface, keycodes@, *modifiers),
            ),
    {
        self.tracker.keyboard_enter(surface, keycodes, modifiers);
    }

    /// Starts a grab of the keyboard: from now on `grab` is handed every
    /// keyboard event that the seat is notified of. A keyboard grab that
    /// was active is ended first, which is signalled before the start of
    /// the new one, and is returned.
    pub fn keyboard_start_grab(&mut self, grab: Box<dyn KeyboardGrab>) -> (previous: Option<
        Box<dyn KeyboardGrab>,
    >)
        ensures
            previous == old(self).spec_keyboard_grab(),
            final(self).spec_keyboard_grab() == Some(grab),
            final(self).spec_pointer_grab() == old(self).spec_pointer_grab(),
            final(self).spec_touch_grab() == old(self).spec_touch_grab(),
            final(self).spec_handler() == old(self).spec_handler(),
            final(self)@ == old(self)@.grab_started(GrabKind::Keyboard),
    {
        let previous = self.keyboard_end_grab();
        let started = Some(grab);
        self.keyboard_grab = started;
        self.signals.push(SeatSignal::KeyboardGrabBegin);
        previous
    }

    /// Ends the grab of the keyboard and returns it; the keyboard events
    /// that the seat is notified of go to the focus tracker again. Does
    /// nothing where no keyboard grab is active.
    pub fn keyboard_end_grab(&mut self) -> (ended: Option<Box<dyn KeyboardGrab>>)
        ensures
            ended == old(self).spec_keyboard_grab(),
            final(self).spec_keyboard_grab() is None,
            final(self).spec_pointer_grab() == old(self).spec_pointer_grab(),
            final(self).spec_touch_grab() == old(self).spec_touch_grab(),
            final(self).spec_handler() == old(self).spec_handler(),
            final(self)@ == old(self)@.grab_ended(GrabKind::Keyboard),
    {
        let ended = self.keyboard_grab.take();
        if ended.is_some() {
            self.signals.push(SeatSignal::KeyboardGrabEnd);
        }
        ended
    }

    /// Whether a keyboard grab is active.
    pub fn keyboard_has_grab(&self) -> (b: bool)
        ensures
            b == self@.keyboard_grab,
    {
        self.keyboard_grab.is_some()
    }

    /// Clears the keyboard focus; the focused surface, if there is one,
    /// gets a leave.
    pub fn keyboard_clear_focus(&mut self)
        ensures
            final(self).holds_as(old(self)),
            final(self)@ == old(self)@.with_tracker(old(self)@.tracker.keyboard_focus_cleared()),
    {
        self.tracker.keyboard_clear_focus();
    }

    /// Carries out what the keyboard grab answered to an event: forwards
    /// its requests in order and ends the grab where it said so.
    pub fn keyboard_grab_answered(&mut self, response: &GrabResponse)
        ensures
            final(self).spec_keyboard_grab() == (if response.end {
                None
            } else {
                old(self).spec_keyboard_grab()
            }),
            final(self).spec_pointer_grab() == old(self).spec_pointer_grab(),
            final(self).spec_touch_grab() == old(self).spec_touch_grab(),
            final(self).spec_handler() == old(self).spec_handler(),
            final(self)@ == old(self)@.grab_answered(
                GrabKind::Keyboard,
                requests_view(response.requests@),
                response.end,
            ),
    {
        self.tracker.forward_all(&response.requests);
        if response.end {
            self.keyboard_end_grab();
        }
    }

    /// Notifies the seat that the modifiers of the keyboard changed.
    /// Without a keyboard grab this is [`Seat::keyboard_send_modifiers`];
    /// with one, the grab is asked and its answer carried out.
    pub fn keyboard_notify_modifiers(&mut self, modifiers: &KeyboardModifiers)
        ensures
            final(self).spec_pointer_grab() == old(self).spec_pointer_grab(),
            final(self).spec_touch_grab() == old(self).spec_touch_grab(),
            final(self).spec_handler() == old(self).spec_handler(),
            !old(self)@.keyboard_grab ==> final(self).spec_keyboard_grab() is None,
            !old(self)@.keyboard_grab ==> final(self)@ == old(self)@.with_tracker(
                old(self)@.tracker.modifiers_sent(*modifiers),
            ),
            old(self)@.keyboard_grab ==> ({
                let answer = old(self).spec_keyboard_grab().unwrap().answer(
                    old(self)@.tracker,
                    RequestView::KeyboardModifierState { modifiers: *modifiers },
                );
                final(self)@ == old(self)@.grab_answered(
                    GrabKind::Keyboard,
                    answer.requests,
                    answer.end,
                )
            }),
    {
        match &mut self.keyboard_grab {
            Some(grab) => {
                let response = grab.modifiers(&self.tracker, modifiers);
                self.keyboard_grab_answered(&response);
            },
            None => {
                self.tracker.keyboard_send_modifiers(modifiers);
            },
        }
    }

    /// Notifies the seat that the keyboard is to enter `surface`. Without
    /// a keyboard grab this is [`Seat::keyboard_enter`]; with one, the grab
    /// is asked and its answer carried out.
    pub fn keyboard_notify_enter(
        &mut self,
        surface: &Surface,
        keycodes: &[u32],
        modifiers: &KeyboardModifiers,
    )
        ensures
            final(self).spec_pointer_grab() == old(self).spec_pointer_grab(),
            final(self).spec_touch_grab() == old(self).spec_touch_grab(),
            final(self).spec_handler() == old(self).spec_handler(),
            !old(self)@.keyboard_grab ==> final(self).spec_keyboard_grab() is None,
            !old(self)@.keyboard_grab ==> final(self)@ == old(self)@.with_tracker(
                old(self)@.tracker.keyboard_entered(*surface, keycodes@, *modifiers),
            ),
            old(self)@.keyboard_grab ==> ({
                let answer = old(self).spec_keyboard_grab().unwrap().answer(
                    old(self)@.tracker,
                    RequestView::KeyboardEnter {
                        surface: *surface,
                        keycodes: keycodes@,
                        modifiers: *modifiers,
                    },
                );
                final(self)@ == old(self)@.grab_answered(
                    GrabKind::Keyboard,
                    answer.requests,
                    answer.end,
                )
            }),
    {
        match &mut self.keyboard_grab {
            Some(grab) => {
                let response = grab.enter(&self.tracker, surface, keycodes, modifiers);
                self.keyboard_grab_answered(&response);
            },
            None => {
                self.tracker.keyboard_enter(surface, keycodes, modifiers);
            },
        }
    }

    /// Notifies the seat of a key event. Without a keyboard grab this is
    /// [`Seat::keyboard_send_key`]; with one, the grab is asked and its
    /// answer carried out.
    pub fn keyboard_notify_key(&mut self, time: u32, key: u32, state: u32)
        ensures
            final(self).spec_pointer_grab() == old(self).spec_pointer_grab(),
            final(self).spec_touch_grab() == old(self).spec_touch_grab(),
            final(self).spec_handler() == old(self).spec_handler(),
            !old(self)@.keyboard_grab ==> final(self).spec_keyboard_grab() is None,
            !old(self)@.keyboard_grab ==> final(self)@ == old(self)@.with_tracker(
                old(self)@.tracker.key_sent(time, key, state),
            ),
            old(self)@.keyboard_grab ==> ({
                let answer = old(self).spec_keyboard_grab().unwrap().answer(
                    old(self)@.tracker,
                    RequestView::KeyboardKey { time, key, state },
                );
                final(self)@ == old(self)@.grab_answered(
                    GrabKind::Keyboard,
                    answer.requests,
                    answer.end,
                )
            }),
    {
        match &mut self.keyboard_grab {
            Some(grab) => {
                let response = grab.key(&self.tracker, time, key, state);
                self.keyboard_grab_answered(&response);
            },
            None => {
                self.tracker.keyboard_send_key(time, key, state);
            },
        }
    }

    /// The number of touch points that are down.
    pub fn touch_num_points(&self) -> (n: usize)
        ensures
            self@.tracker.touch_points.dom().finite(),
            n == self@.tracker.touch_points.len(),
    {
        self.tracker.touch_num_points()
    }

    /// Starts a grab of the touch device: from now on `grab` is handed
    /// every touch event that the seat is notified of. A touch grab that
    /// was active is ended first, which is signalled before the start of
    /// the new one, and is returned.
    pub fn touch_start_grab(&mut self, grab: Box<dyn TouchGrab>) -> (previous: Option<
        Box<dyn TouchGrab>,
    >)
        ensures
            previous == old(self).spec_touch_grab(),
            final(self).spec_touch_grab() == Some(grab),
            final(self).spec_pointer_grab() == old(self).spec_pointer_grab(),
            final(self).spec_keyboard_grab() == old(self).spec_keyboard_grab(),
            final(self).spec_handler() == old(self).spec_handler(),
            final(self)@ == old(self)@.grab_started(GrabKind::Touch),
    {
        let previous = self.touch_end_grab();
        let started = Some(grab);
        self.touch_grab = started;
        self.signals.push(SeatSignal::TouchGrabBegin);
        previous
    }

    /// Ends the grab of the touch device and returns it; the touch events
    /// that the seat is notified of go to the focus tracker again. Does
    /// nothing where no touch grab is active.
    pub fn touch_end_grab(&mut self) -> (ended: Option<Box<dyn TouchGrab>>)
        ensures
            ended == old(self).spec_touch_grab(),
            final(self).spec_touch_grab() is None,
            final(self).spec_pointer_grab() == old(self).spec_pointer_grab(),
            final(self).spec_keyboard_grab() == old(self).spec_keyboard_grab(),
            final(self).spec_handler() == old(self).spec_handler(),
            final(self)@ == old(self)@.grab_ended(GrabKind::Touch),
    {
        let ended = self.touch_grab.take();
        if ended.is_some() {
            self.signals.push(SeatSignal::TouchGrabEnd);
        }
        ended
    }

    /// Whether a touch grab is active.
    pub fn touch_has_grab(&self) -> (b: bool)
        ensures
            b == self@.touch_grab,
    {
        self.touch_grab.is_some()
    }

    /// The touch point with this identifier that is down, if there is one.
    pub fn get_touch_point(&self, touch_id: TouchId) -> (r: Option<TouchPoint>)
        ensures
            r == (if self@.tracker.touch_points.contains_key(touch_id.0) {
                Some(self@.tracker.touch_points[touch_id.0])
            } else {
                None
            }),
            r matches Some(p) ==> p.id == touch_id,
    {
        self.tracker.get_touch_point(touch_id)
    }

    /// Tells a live touch point that it is over `surface` at the given
    /// position. Does nothing where no live point has the identifier.
    pub fn touch_point_focus(
        &mut self,
        surface: &Surface,
        time: u32,
        touch_id: TouchId,
        sx: Fixed,
        sy: Fixed,
    )
        ensures
            final(self).holds_as(old(self)),
            final(self)@ == old(self)@.with_tracker(
                old(self)@.tracker.touch_point_focused(*surface, touch_id, sx, sy),
            ),
    {
        self.tracker.touch_point_focus(surface, time, touch_id, sx, sy);
    }

    /// Tells a live touch point that it is over no surface. Does nothing
    /// where no live point has the identifier.
    pub fn touch_point_clear_focus(&mut self, time: u32, touch_id: TouchId)
        ensures
            final(self).holds_as(old(self)),
            final(self)@ == old(self)@.with_tracker(
                old(self)@.tracker.touch_point_focus_cleared(touch_id),
            ),
    {
        self.tracker.touch_point_clear_focus(time, touch_id);
    }

    /// Sends a touch down to `surface`, whatever grab is active, and
    /// returns its serial; the new touch point belongs to `surface`, which
    /// gets its motion and its release. Returns 0, and changes nothing,
    /// where the surface's client takes no touch input, a live point has
    /// the identifier already, or every serial has been handed out.
    pub fn touch_send_down(
        &mut self,
        surface: &Surface,
        time: u32,
        touch_id: TouchId,
        sx: Fixed,
        sy: Fixed,
    ) -> (serial: u32)
        ensures
            final(self).holds_as(old(self)),
            serial == old(self)@.tracker.touch_down_serial(*surface, touch_id),
            final(self)@ == old(self)@.with_tracker(
                old(self)@.tracker.touch_down_sent(*surface, time, touch_id, sx, sy),
            ),
    {
        self.tracker.touch_send_down(surface, time, touch_id, sx, sy)
    }

    /// Sends a touch up to the surface that the point belongs to, whatever
    /// grab is active, and removes the point. Does nothing where no live
    /// point has the identifier.
    pub fn touch_send_up(&mut self, time: u32, touch_id: TouchId)
        ensures
            final(self).holds_as(old(self)),
            final(self)@ == old(self)@.with_tracker(
                old(self)@.tracker.touch_up_sent(time, touch_id),
            ),
    {
        self.tracker.touch_send_up(time, touch_id);
    }

    /// Sends a touch motion to the surface that the point belongs to,
    /// whatever grab is active, and keeps the new position. Does nothing
    /// where no live point has the identifier.
    pub fn touch_send_motion(&mut self, time: u32, touch_id: TouchId, sx: Fixed, sy: Fixed)
        ensures
            final(self).holds_as(old(self)),
            final(self)@ == old(self)@.with_tracker(
                old(self)@.tracker.touch_motion_sent(time, touch_id, sx, sy),
            ),
    {
        self.tracker.touch_send_motion(time, touch_id, sx, sy);
    }

    /// Carries out what the touch grab answered to an event: forwards its
    /// requests in order, ends the grab where it said so, and returns the
    /// last serial that a request gave, or 0 where none gave one.
    pub fn touch_grab_answered(&mut self, response: &GrabResponse) -> (serial: u32)
        ensures
            final(self).spec_touch_grab() == (if response.end {
                None
            } else {
                old(self).spec_touch_grab()
            }),
            final(self).spec_pointer_grab() == old(self).spec_pointer_grab(),
            final(self).spec_keyboard_grab() == old(self).spec_keyboard_grab(),
            final(self).spec_handler() == old(self).spec_handler(),
            serial == old(self)@.tracker.run_reply(requests_view(response.requests@)),
            final(self)@ == old(self)@.grab_answered(
                GrabKind::Touch,
                requests_view(response.requests@),
                response.end,
            ),
    {
        let serial = self.tracker.forward_all(&response.requests);
        if response.end {
            self.touch_end_grab();
        }
        serial
    }

    /// Notifies the seat of a touch down on `surface` and returns the
    /// serial of the touch down that was sent, or 0 where none was.
    /// Without a touch grab this is [`Seat::touch_send_down`]; with one,
    /// the grab is asked and its answer carried out.
    pub fn touch_notify_down(
        &mut self,
        surface: &Surface,
        time: u32,
        touch_id: TouchId,
        sx: Fixed,
        sy: Fixed,
    ) -> (serial: u32)
        ensures
            final(self).spec_pointer_grab() == old(self).spec_pointer_grab(),
            final(self).spec_keyboard_grab() == old(self).spec_keyboard_grab(),
            final(self).spec_handler() == old(self).spec_handler(),
            !old(self)@.touch_grab ==> final(self).spec_touch_grab() is None,
            !old(self)@.touch_grab ==> serial == old(self)@.tracker.touch_down_serial(
                *surface,
                touch_id,
            ) && final(self)@ == old(self)@.with_tracker(
                old(self)@.tracker.touch_down_sent(*surface, time, touch_id, sx, sy),
            ),
            old(self)@.touch_grab ==> ({
                let answer = old(self).spec_touch_grab().unwrap().answer(
                    old(self)@.tracker,
                    RequestView::TouchDown { surface: *surface, time, id: touch_id, sx, sy },
                );
                final(self)@ == old(self)@.grab_answered(
                    GrabKind::Touch,
                    answer.requests,
                    answer.end,
                ) && serial == old(self)@.tracker.run_reply(answer.requests)
            }),
    {
        match &mut self.touch_grab {
            Some(grab) => {
                let response = grab.down(&self.tracker, surface, time, touch_id, sx, sy);
                self.touch_grab_answered(&response)
            },
            None => self.tracker.touch_send_down(surface, time, touch_id, sx, sy),
        }
    }

    /// Notifies the seat that a contact was lifted. Without a touch grab
    /// this is [`Seat::touch_send_up`]; with one, the grab is asked and its
    /// answer carried out.
    pub fn touch_notify_up(&mut self, time: u32, touch_id: TouchId)
        ensures
            final(self).spec_pointer_grab() == old(self).spec_pointer_grab(),
            final(self).spec_keyboard_grab() == old(self).spec_keyboard_grab(),
            final(self).spec_handler() == old(self).spec_handler(),
            !old(self)@.touch_grab ==> final(self).spec_touch_grab() is None,
            !old(self)@.touch_grab ==> final(self)@ == old(self)@.with_tracker(
                old(self)@.tracker.touch_up_sent(time, touch_id),
            ),
            old(self)@.touch_grab ==> ({
                let answer = old(self).spec_touch_grab().unwrap().answer(
                    old(self)@.tracker,
                    RequestView::TouchUp { time, id: touch_id },
                );
                final(self)@ == old(self)@.grab_answered(
                    GrabKind::Touch,
                    answer.requests,
                    answer.end,
                )
            }),
    {
        match &mut self.touch_grab {
            Some(grab) => {
                let response = grab.up(&self.tracker, time, touch_id);
                self.touch_grab_answered(&response);
            },
            None => {
                self.tracker.touch_send_up(time, touch_id);
            },
        }
    }

    /// Notifies the seat that a contact moved. Without a touch grab this is
    /// [`Seat::touch_send_motion`]; with one, the grab is asked, whether or
    /// not a live point has the identifier, and its answer carried out.
    pub fn touch_notify_motion(&mut self, time: u32, touch_id: TouchId, sx: Fixed, sy: Fixed)
        ensures
            final(self).spec_pointer_grab() == old(self).spec_pointer_grab(),
            final(self).spec_keyboard_grab() == old(self).spec_keyboard_grab(),
            final(self).spec_handler() == old(self).spec_handler(),
            !old(self)@.touch_grab ==> final(self).spec_touch_grab() is None,
            !old(self)@.touch_grab ==> final(self)@ == old(self)@.with_tracker(
                old(self)@.tracker.touch_motion_sent(time, touch_id, sx, sy),
            ),
            old(self)@.touch_grab ==> ({
                let answer = old(self).spec_touch_grab().unwrap().answer(
                    old(self)@.tracker,
                    RequestView::TouchMotion { time, id: touch_id, sx, sy },
                );
                final(self)@ == old(self)@.grab_answered(
                    GrabKind::Touch,
                    answer.requests,
                    answer.end,
                )
            }),
    {
        match &mut self.touch_grab {
            Some(grab) => {
                let response = grab.motion(&self.tracker, time, touch_id, sx, sy);
                self.touch_grab_answered(&response);
            },
            None => {
                self.tracker.touch_send_motion(time, touch_id, sx, sy);
            },
        }
    }
}

} // verus!
