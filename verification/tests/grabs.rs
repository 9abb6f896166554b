use seat_core::event::{ClientEvent, SeatSignal};
use seat_core::grab::{KeyboardGrab, PassThrough, PointerGrab, TouchGrab};
use seat_core::handler::SeatHandler;
use seat_core::request::{GrabAnswer, GrabResponse, Request, RequestView};
use seat_core::seat::Seat;
use seat_core::tracker::{FocusTracker, TrackerView};
use seat_core::types::{AxisOrientation, Fixed, KeyboardModifiers, Surface, TouchId};
use std::cell::RefCell;
use std::rc::Rc;

struct Quiet;

impl SeatHandler for Quiet {}

fn seat() -> Seat<Quiet> {
    Seat::new(String::from("default"), Quiet)
}

fn fixed(value: f64) -> Fixed {
    Fixed { raw: (value * 256.0).round() as i32 }
}

fn surface(id: u64) -> Surface {
    Surface { id, accepts_touch: true }
}

fn modifiers(depressed: u32) -> KeyboardModifiers {
    KeyboardModifiers { depressed, latched: 0, locked: 0, group: 0 }
}

type Log = Rc<RefCell<Vec<String>>>;

/// A grab that writes down every call and swallows the event.
struct Recorder {
    log: Log,
}

impl PointerGrab for Recorder {
    fn answer(&self, _: TrackerView, _: RequestView) -> GrabAnswer {
        unreachable!()
    }

    fn enter(&mut self, _: &FocusTracker, surface: &Surface, sx: Fixed, sy: Fixed) -> GrabResponse {
        self.log.borrow_mut().push(format!("enter {} {} {}", surface.id, sx.raw, sy.raw));
        GrabResponse::consume()
    }

    fn motion(&mut self, _: &FocusTracker, time: u32, sx: Fixed, sy: Fixed) -> GrabResponse {
        self.log.borrow_mut().push(format!("motion {} {} {}", time, sx.raw, sy.raw));
        GrabResponse::consume()
    }

    fn button(&mut self, _: &FocusTracker, time: u32, button: u32, state: u32) -> GrabResponse {
        self.log.borrow_mut().push(format!("button {} {} {}", time, button, state));
        GrabResponse::consume()
    }

    fn axis(
        &mut self,
        _: &FocusTracker,
        time: u32,
        orientation: AxisOrientation,
        value: Fixed,
    ) -> GrabResponse {
        self.log.borrow_mut().push(format!("axis {} {:?} {}", time, orientation, value.raw));
        GrabResponse::consume()
    }
}

impl KeyboardGrab for Recorder {
    fn answer(&self, _: TrackerView, _: RequestView) -> GrabAnswer {
        unreachable!()
    }

    fn enter(
        &mut self,
        _: &FocusTracker,
        surface: &Surface,
        keycodes: &[u32],
        modifiers: &KeyboardModifiers,
    ) -> GrabResponse {
        self.log
            .borrow_mut()
            .push(format!("enter {} {:?} {}", surface.id, keycodes, modifiers.depressed));
        GrabResponse::consume()
    }

    fn key(&mut self, _: &FocusTracker, time: u32, key: u32, state: u32) -> GrabResponse {
        self.log.borrow_mut().push(format!("key {} {} {}", time, key, state));
        GrabResponse::consume()
    }

    fn modifiers(&mut self, _: &FocusTracker, modifiers: &KeyboardModifiers) -> GrabResponse {
        self.log.borrow_mut().push(format!("modifiers {}", modifiers.depressed));
        GrabResponse::consume()
    }
}

impl TouchGrab for Recorder {
    fn answer(&self, _: TrackerView, _: RequestView) -> GrabAnswer {
        unreachable!()
    }

    fn down(
        &mut self,
        _: &FocusTracker,
        surface: &Surface,
        time: u32,
        id: TouchId,
        sx: Fixed,
        sy: Fixed,
    ) -> GrabResponse {
        self.log
            .borrow_mut()
            .push(format!("down {} {} {} {} {}", surface.id, time, id.0, sx.raw, sy.raw));
        GrabResponse::consume()
    }

    fn up(&mut self, _: &FocusTracker, time: u32, id: TouchId) -> GrabResponse {
        self.log.borrow_mut().push(format!("up {} {}", time, id.0));
        GrabResponse::consume()
    }

    fn motion(
        &mut self,
        _: &FocusTracker,
        time: u32,
        id: TouchId,
        sx: Fixed,
        sy: Fixed,
    ) -> GrabResponse {
        self.log.borrow_mut().push(format!("motion {} {} {} {}", time, id.0, sx.raw, sy.raw));
        GrabResponse::consume()
    }
}

/// A pointer grab that sends every button to another surface and ends when
/// a button is released.
struct Redirect {
    target: Surface,
}

impl PointerGrab for Redirect {
    fn answer(&self, _: TrackerView, _: RequestView) -> GrabAnswer {
        unreachable!()
    }

    fn enter(&mut self, _: &FocusTracker, surface: &Surface, sx: Fixed, sy: Fixed) -> GrabResponse {
        GrabResponse::forward(Request::PointerEnter { surface: *surface, sx, sy })
    }

    fn motion(&mut self, _: &FocusTracker, time: u32, sx: Fixed, sy: Fixed) -> GrabResponse {
        GrabResponse::forward(Request::PointerMotion { time, sx, sy })
    }

    fn axis(
        &mut self,
        _: &FocusTracker,
        time: u32,
        orientation: AxisOrientation,
        value: Fixed,
    ) -> GrabResponse {
        GrabResponse::forward(Request::PointerAxis { time, orientation, value })
    }

    fn button(&mut self, tracker: &FocusTracker, time: u32, button: u32, state: u32) -> GrabResponse {
        let back = tracker.pointer_focus();
        let mut requests = vec![
            Request::PointerEnter { surface: self.target, sx: fixed(0.0), sy: fixed(0.0) },
            Request::PointerButton { time, button, state },
        ];
        if let Some(focus) = back {
            requests.push(Request::PointerEnter { surface: focus.surface, sx: focus.sx, sy: focus.sy });
        }
        GrabResponse { requests, end: state == 0 }
    }
}

#[test]
fn pointer_notify_goes_to_the_active_grab() {
    let mut seat = seat();
    let log: Log = Rc::new(RefCell::new(Vec::new()));
    seat.pointer_enter(&surface(1), fixed(0.0), fixed(0.0));
    seat.take_events();
    assert!(seat.pointer_start_grab(Box::new(Recorder { log: log.clone() })).is_none());
    assert!(seat.pointer_has_grab());
    seat.pointer_notify_enter(&surface(2), fixed(1.0), fixed(2.0));
    seat.pointer_notify_motion(3, fixed(4.0), fixed(5.0));
    assert_eq!(seat.pointer_notify_button(6, 272, 1), 0);
    seat.pointer_notify_axis(7, AxisOrientation::Vertical, fixed(8.0));
    assert_eq!(
        *log.borrow(),
        vec!["enter 2 256 512", "motion 3 1024 1280", "button 6 272 1", "axis 7 Vertical 2048"]
    );
    assert_eq!(seat.take_events(), vec![]);
    assert!(seat.pointer_surface_has_focus(&surface(1)));
    assert!(seat.pointer_has_grab());
}

#[test]
fn send_ignores_the_active_grab() {
    let mut seat = seat();
    let log: Log = Rc::new(RefCell::new(Vec::new()));
    seat.pointer_start_grab(Box::new(Recorder { log: log.clone() }));
    seat.keyboard_start_grab(Box::new(Recorder { log: log.clone() }));
    seat.touch_start_grab(Box::new(Recorder { log: log.clone() }));
    seat.pointer_enter(&surface(1), fixed(0.0), fixed(0.0));
    seat.send_motion(1, fixed(1.0), fixed(1.0));
    assert_eq!(seat.send_button(2, 272, 1), 1);
    seat.keyboard_enter(&surface(1), &[], &modifiers(0));
    seat.keyboard_send_key(3, 30, 1);
    assert_eq!(seat.touch_send_down(&surface(1), 4, TouchId(1), fixed(0.0), fixed(0.0)), 2);
    assert!(log.borrow().is_empty());
    assert_eq!(seat.take_events().len(), 6);
}

#[test]
fn keyboard_notify_goes_to_the_active_grab() {
    let mut seat = seat();
    let log: Log = Rc::new(RefCell::new(Vec::new()));
    seat.keyboard_start_grab(Box::new(Recorder { log: log.clone() }));
    seat.keyboard_notify_enter(&surface(2), &[30, 31], &modifiers(1));
    seat.keyboard_notify_key(3, 32, 1);
    seat.keyboard_notify_modifiers(&modifiers(4));
    assert_eq!(*log.borrow(), vec!["enter 2 [30, 31] 1", "key 3 32 1", "modifiers 4"]);
    assert_eq!(seat.take_events(), vec![]);
    assert_eq!(seat.tracker().keyboard_focus(), None);
    seat.pointer_notify_motion(1, fixed(0.0), fixed(0.0));
    assert_eq!(log.borrow().len(), 3);
}

#[test]
fn touch_notify_goes_to_the_active_grab() {
    let mut seat = seat();
    let log: Log = Rc::new(RefCell::new(Vec::new()));
    seat.touch_start_grab(Box::new(Recorder { log: log.clone() }));
    assert_eq!(seat.touch_notify_down(&surface(2), 1, TouchId(7), fixed(1.0), fixed(2.0)), 0);
    seat.touch_notify_up(3, TouchId(7));
    assert_eq!(*log.borrow(), vec!["down 2 1 7 256 512", "up 3 7"]);
    assert_eq!(seat.touch_num_points(), 0);
    assert_eq!(seat.take_events(), vec![]);
}

#[test]
fn touch_motion_reaches_the_grab_without_a_live_point() {
    let mut seat = seat();
    let log: Log = Rc::new(RefCell::new(Vec::new()));
    seat.touch_start_grab(Box::new(Recorder { log: log.clone() }));
    seat.touch_notify_motion(5, TouchId(9), fixed(1.0), fixed(1.0));
    assert_eq!(seat.touch_send_down(&surface(1), 6, TouchId(1), fixed(0.0), fixed(0.0)), 1);
    seat.touch_notify_motion(7, TouchId(1), fixed(2.0), fixed(2.0));
    assert_eq!(*log.borrow(), vec!["motion 5 9 256 256", "motion 7 1 512 512"]);
    assert_eq!(seat.get_touch_point(TouchId(1)).map(|p| p.sx), Some(fixed(0.0)));
}

#[test]
fn the_pass_through_grab_lets_everything_through() {
    let mut grabbed = seat();
    let mut plain = seat();
    grabbed.pointer_start_grab(Box::new(PassThrough));
    grabbed.keyboard_start_grab(Box::new(PassThrough));
    grabbed.touch_start_grab(Box::new(PassThrough));
    let a = surface(1);
    grabbed.pointer_notify_enter(&a, fixed(1.0), fixed(1.0));
    plain.pointer_enter(&a, fixed(1.0), fixed(1.0));
    grabbed.pointer_notify_motion(1, fixed(2.0), fixed(2.0));
    plain.send_motion(1, fixed(2.0), fixed(2.0));
    assert_eq!(grabbed.pointer_notify_button(2, 272, 1), 1);
    assert_eq!(plain.send_button(2, 272, 1), 1);
    grabbed.pointer_notify_axis(3, AxisOrientation::Horizontal, fixed(1.0));
    plain.send_axis(3, AxisOrientation::Horizontal, fixed(1.0));
    grabbed.keyboard_notify_enter(&a, &[30], &modifiers(1));
    plain.keyboard_enter(&a, &[30], &modifiers(1));
    grabbed.keyboard_notify_key(4, 30, 0);
    plain.keyboard_send_key(4, 30, 0);
    grabbed.keyboard_notify_modifiers(&modifiers(0));
    plain.keyboard_send_modifiers(&modifiers(0));
    assert_eq!(grabbed.touch_notify_down(&a, 5, TouchId(1), fixed(0.0), fixed(0.0)), 2);
    assert_eq!(plain.touch_send_down(&a, 5, TouchId(1), fixed(0.0), fixed(0.0)), 2);
    grabbed.touch_notify_motion(6, TouchId(1), fixed(1.0), fixed(1.0));
    plain.touch_send_motion(6, TouchId(1), fixed(1.0), fixed(1.0));
    grabbed.touch_notify_up(7, TouchId(1));
    plain.touch_send_up(7, TouchId(1));
    let events = grabbed.take_events();
    assert_eq!(events.len(), 10);
    assert_eq!(events, plain.take_events());
    assert!(grabbed.pointer_has_grab() && grabbed.keyboard_has_grab() && grabbed.touch_has_grab());
}

#[test]
fn a_grab_decides_what_is_forwarded_and_when_it_ends() {
    let mut seat = seat();
    let a = surface(1);
    let b = surface(2);
    seat.pointer_enter(&a, fixed(1.0), fixed(1.0));
    seat.take_events();
    seat.pointer_start_grab(Box::new(Redirect { target: b }));
    seat.take_signals();
    assert_eq!(seat.pointer_notify_button(5, 272, 1), 1);
    assert_eq!(
        seat.take_events(),
        vec![
            ClientEvent::PointerLeave { surface: 1 },
            ClientEvent::PointerEnter { surface: 2, sx: fixed(0.0), sy: fixed(0.0) },
            ClientEvent::PointerButton { surface: 2, serial: 1, time: 5, button: 272, state: 1 },
            ClientEvent::PointerLeave { surface: 2 },
            ClientEvent::PointerEnter { surface: 1, sx: fixed(1.0), sy: fixed(1.0) },
        ]
    );
    assert!(seat.pointer_has_grab());
    assert_eq!(seat.take_signals(), vec![]);
    assert_eq!(seat.pointer_notify_button(6, 272, 0), 2);
    assert!(!seat.pointer_has_grab());
    assert_eq!(seat.take_signals(), vec![SeatSignal::PointerGrabEnd]);
    seat.take_events();
    assert_eq!(seat.pointer_notify_button(7, 272, 1), 3);
    assert_eq!(
        seat.take_events(),
        vec![ClientEvent::PointerButton { surface: 1, serial: 3, time: 7, button: 272, state: 1 }]
    );
}

#[test]
fn starting_a_grab_over_another_ends_the_old_one_first() {
    let mut seat = seat();
    let first: Log = Rc::new(RefCell::new(Vec::new()));
    let second: Log = Rc::new(RefCell::new(Vec::new()));
    assert!(seat.pointer_start_grab(Box::new(Recorder { log: first.clone() })).is_none());
    assert_eq!(seat.take_signals(), vec![SeatSignal::PointerGrabBegin]);
    let previous = seat.pointer_start_grab(Box::new(Recorder { log: second.clone() }));
    assert!(previous.is_some());
    assert_eq!(
        seat.take_signals(),
        vec![SeatSignal::PointerGrabEnd, SeatSignal::PointerGrabBegin]
    );
    assert!(seat.pointer_has_grab());
    seat.pointer_notify_motion(1, fixed(0.0), fixed(0.0));
    assert!(first.borrow().is_empty());
    assert_eq!(*second.borrow(), vec!["motion 1 0 0"]);
}

#[test]
fn starting_keyboard_and_touch_grabs_over_others_signals_end_then_begin() {
    let mut seat = seat();
    seat.keyboard_start_grab(Box::new(PassThrough));
    seat.touch_start_grab(Box::new(PassThrough));
    assert_eq!(
        seat.take_signals(),
        vec![SeatSignal::KeyboardGrabBegin, SeatSignal::TouchGrabBegin]
    );
    assert!(seat.keyboard_start_grab(Box::new(PassThrough)).is_some());
    assert!(seat.touch_start_grab(Box::new(PassThrough)).is_some());
    assert_eq!(
        seat.take_signals(),
        vec![
            SeatSignal::KeyboardGrabEnd,
            SeatSignal::KeyboardGrabBegin,
            SeatSignal::TouchGrabEnd,
            SeatSignal::TouchGrabBegin,
        ]
    );
}

#[test]
fn ending_a_grab_returns_to_the_tracker() {
    let mut seat = seat();
    let log: Log = Rc::new(RefCell::new(Vec::new()));
    seat.pointer_enter(&surface(1), fixed(0.0), fixed(0.0));
    seat.take_events();
    seat.pointer_start_grab(Box::new(Recorder { log: log.clone() }));
    assert!(seat.pointer_end_grab().is_some());
    assert!(!seat.pointer_has_grab());
    assert_eq!(
        seat.take_signals(),
        vec![SeatSignal::PointerGrabBegin, SeatSignal::PointerGrabEnd]
    );
    seat.pointer_notify_motion(1, fixed(1.0), fixed(1.0));
    assert!(log.borrow().is_empty());
    assert_eq!(seat.take_events().len(), 1);
}

#[test]
fn ending_without_a_grab_does_nothing() {
    let mut seat = seat();
    assert!(seat.pointer_end_grab().is_none());
    assert!(seat.keyboard_end_grab().is_none());
    assert!(seat.touch_end_grab().is_none());
    assert_eq!(seat.take_signals(), vec![]);
}

#[test]
fn grabs_of_different_capabilities_do_not_disturb_each_other() {
    let mut seat = seat();
    seat.pointer_start_grab(Box::new(PassThrough));
    assert!(!seat.keyboard_has_grab());
    assert!(!seat.touch_has_grab());
    seat.touch_start_grab(Box::new(PassThrough));
    seat.pointer_end_grab();
    assert!(seat.touch_has_grab());
    assert!(!seat.pointer_has_grab());
}

#[test]
fn grab_answer_is_carried_out_in_order() {
    let mut seat = seat();
    let a = surface(1);
    let response = GrabResponse {
        requests: vec![
            Request::PointerButton { time: 0, button: 1, state: 1 },
            Request::PointerEnter { surface: a, sx: fixed(0.0), sy: fixed(0.0) },
            Request::PointerButton { time: 1, button: 1, state: 1 },
            Request::TouchDown { surface: a, time: 2, id: TouchId(1), sx: fixed(0.0), sy: fixed(0.0) },
            Request::PointerMotion { time: 3, sx: fixed(1.0), sy: fixed(1.0) },
        ],
        end: true,
    };
    assert_eq!(seat.pointer_grab_answered(&response), 2);
    assert_eq!(seat.touch_num_points(), 1);
    assert_eq!(seat.take_events().len(), 4);
    assert_eq!(seat.take_signals(), vec![]);
    assert_eq!(seat.touch_grab_answered(&GrabResponse::consume()), 0);
    seat.touch_start_grab(Box::new(PassThrough));
    seat.take_signals();
    let up = GrabResponse { requests: vec![Request::TouchUp { time: 4, id: TouchId(1) }], end: true };
    assert_eq!(seat.touch_grab_answered(&up), 0);
    assert_eq!(seat.touch_num_points(), 0);
    assert_eq!(seat.take_signals(), vec![SeatSignal::TouchGrabEnd]);
    seat.keyboard_start_grab(Box::new(PassThrough));
    seat.keyboard_grab_answered(&GrabResponse::forward(Request::KeyboardEnter {
        surface: a,
        keycodes: vec![1],
        modifiers: modifiers(0),
    }));
    assert_eq!(seat.tracker().keyboard_focus(), Some(a));
    assert!(seat.keyboard_has_grab());
}

#[test]
fn tracker_forwards_requests_as_the_operations_they_name() {
    let mut by_request = FocusTracker::new();
    let mut by_call = FocusTracker::new();
    let a = surface(1);
    let b = surface(2);
    let requests = vec![
        Request::PointerEnter { surface: a, sx: fixed(1.0), sy: fixed(1.0) },
        Request::PointerMotion { time: 1, sx: fixed(2.0), sy: fixed(2.0) },
        Request::PointerButton { time: 2, button: 272, state: 1 },
        Request::PointerAxis { time: 3, orientation: AxisOrientation::Vertical, value: fixed(1.0) },
        Request::PointerClearFocus,
        Request::KeyboardEnter { surface: a, keycodes: vec![30], modifiers: modifiers(1) },
        Request::KeyboardKey { time: 4, key: 30, state: 0 },
        Request::KeyboardModifierState { modifiers: modifiers(0) },
        Request::KeyboardClearFocus,
        Request::TouchDown { surface: a, time: 5, id: TouchId(1), sx: fixed(0.0), sy: fixed(0.0) },
        Request::TouchMotion { time: 6, id: TouchId(1), sx: fixed(1.0), sy: fixed(1.0) },
        Request::TouchPointFocus { surface: b, time: 7, id: TouchId(1), sx: fixed(2.0), sy: fixed(2.0) },
        Request::TouchPointClearFocus { time: 8, id: TouchId(1) },
        Request::TouchUp { time: 9, id: TouchId(1) },
    ];
    assert_eq!(by_request.forward_all(&requests), 2);
    by_call.pointer_enter(&a, fixed(1.0), fixed(1.0));
    by_call.send_motion(1, fixed(2.0), fixed(2.0));
    assert_eq!(by_call.send_button(2, 272, 1), 1);
    by_call.send_axis(3, AxisOrientation::Vertical, fixed(1.0));
    by_call.pointer_clear_focus();
    by_call.keyboard_enter(&a, &[30], &modifiers(1));
    by_call.keyboard_send_key(4, 30, 0);
    by_call.keyboard_send_modifiers(&modifiers(0));
    by_call.keyboard_clear_focus();
    assert_eq!(by_call.touch_send_down(&a, 5, TouchId(1), fixed(0.0), fixed(0.0)), 2);
    by_call.touch_send_motion(6, TouchId(1), fixed(1.0), fixed(1.0));
    by_call.touch_point_focus(&b, 7, TouchId(1), fixed(2.0), fixed(2.0));
    by_call.touch_point_clear_focus(8, TouchId(1));
    by_call.touch_send_up(9, TouchId(1));
    let events = by_request.take_events();
    assert_eq!(events.len(), 12);
    assert_eq!(events, by_call.take_events());
    assert_eq!(by_request.last_serial(), 2);
    assert_eq!(by_request.touch_num_points(), 0);
    assert_eq!(by_request.forward(&Request::PointerButton { time: 0, button: 1, state: 1 }), 0);
    assert_eq!(by_request.forward_all(&vec![]), 0);
}

#[test]
fn grab_response_constructors() {
    let request = Request::PointerMotion { time: 1, sx: fixed(1.0), sy: fixed(1.0) };
    assert_eq!(
        GrabResponse::forward(request.clone()),
        GrabResponse { requests: vec![request], end: false }
    );
    assert_eq!(GrabResponse::consume(), GrabResponse { requests: vec![], end: false });
}

#[test]
fn touch_point_focus_asks_no_grab() {
    let mut seat = seat();
    let log: Log = Rc::new(RefCell::new(Vec::new()));
    assert_eq!(seat.touch_send_down(&surface(1), 0, TouchId(1), fixed(0.0), fixed(0.0)), 1);
    seat.touch_start_grab(Box::new(Recorder { log: log.clone() }));
    seat.pointer_start_grab(Box::new(Recorder { log: log.clone() }));
    seat.touch_point_focus(&surface(2), 1, TouchId(1), fixed(3.0), fixed(4.0));
    assert_eq!(seat.touch_num_points(), 1);
    let point = seat.get_touch_point(TouchId(1)).unwrap();
    assert_eq!((point.focus, point.sx, point.sy), (Some(surface(2)), fixed(3.0), fixed(4.0)));
    seat.touch_point_clear_focus(2, TouchId(1));
    seat.touch_notify_motion(3, TouchId(1), fixed(5.0), fixed(5.0));
    seat.keyboard_notify_key(4, 30, 1);
    assert_eq!(*log.borrow(), vec!["motion 3 1 1280 1280"]);
    assert!(seat.touch_has_grab() && seat.pointer_has_grab());
}
