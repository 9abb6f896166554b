use seat_core::event::ClientEvent;
use seat_core::handler::SeatHandler;
use seat_core::seat::Seat;
use seat_core::tracker::PointerFocus;
use seat_core::types::{AxisOrientation, Fixed, Surface};

struct Quiet;

impl SeatHandler for Quiet {}

fn seat() -> Seat<Quiet> {
    Seat::new(String::from("default"), Quiet)
}

fn fixed(value: f64) -> Fixed {
    Fixed { raw: (value * 256.0).round() as i32 }
}

fn surface(id: u64) -> Surface {
    Surface { id, accepts_touch: true }
}

#[test]
fn pointer_enter_sends_leave_before_enter_and_clear_focus_only_leave() {
    let mut seat = seat();
    let a = surface(1);
    let b = surface(2);
    seat.pointer_enter(&a, fixed(1.0), fixed(1.0));
    seat.pointer_enter(&b, fixed(2.0), fixed(2.0));
    assert_eq!(
        seat.take_events(),
        vec![
            ClientEvent::PointerEnter { surface: 1, sx: fixed(1.0), sy: fixed(1.0) },
            ClientEvent::PointerLeave { surface: 1 },
            ClientEvent::PointerEnter { surface: 2, sx: fixed(2.0), sy: fixed(2.0) },
        ]
    );
    assert!(seat.pointer_surface_has_focus(&b));
    assert!(!seat.pointer_surface_has_focus(&a));
    seat.clear_focus();
    assert_eq!(seat.take_events(), vec![ClientEvent::PointerLeave { surface: 2 }]);
    assert!(!seat.pointer_surface_has_focus(&b));
    assert_eq!(seat.tracker().pointer_focus(), None);
}

#[test]
fn pointer_enter_of_the_focused_surface_sends_nothing() {
    let mut seat = seat();
    let a = surface(1);
    seat.pointer_enter(&a, fixed(1.0), fixed(1.0));
    seat.take_events();
    seat.pointer_enter(&a, fixed(3.0), fixed(4.0));
    assert_eq!(seat.take_events(), vec![]);
    assert_eq!(
        seat.tracker().pointer_focus(),
        Some(PointerFocus { surface: a, sx: fixed(1.0), sy: fixed(1.0) })
    );
}

#[test]
fn pointer_clear_focus_without_focus_sends_nothing() {
    let mut seat = seat();
    seat.clear_focus();
    seat.pointer_clear_focus();
    assert_eq!(seat.take_events(), vec![]);
}

#[test]
fn pointer_clear_focus_is_clear_focus() {
    let mut seat = seat();
    seat.pointer_enter(&surface(7), fixed(0.0), fixed(0.0));
    seat.take_events();
    seat.pointer_clear_focus();
    assert_eq!(seat.take_events(), vec![ClientEvent::PointerLeave { surface: 7 }]);
}

#[test]
fn send_motion_goes_to_the_focused_surface_and_keeps_the_position() {
    let mut seat = seat();
    let a = surface(1);
    seat.send_motion(5, fixed(1.0), fixed(1.0));
    assert_eq!(seat.take_events(), vec![]);
    seat.pointer_enter(&a, fixed(0.0), fixed(0.0));
    seat.take_events();
    seat.send_motion(6, fixed(1.5), fixed(2.5));
    assert_eq!(
        seat.take_events(),
        vec![ClientEvent::PointerMotion { surface: 1, time: 6, sx: fixed(1.5), sy: fixed(2.5) }]
    );
    assert_eq!(
        seat.tracker().pointer_focus(),
        Some(PointerFocus { surface: a, sx: fixed(1.5), sy: fixed(2.5) })
    );
}

#[test]
fn send_button_without_focus_returns_zero() {
    let mut seat = seat();
    assert_eq!(seat.send_button(1, 272, 1), 0);
    assert_eq!(seat.take_events(), vec![]);
    assert_eq!(seat.tracker().last_serial(), 0);
}

#[test]
fn send_button_returns_increasing_serials() {
    let mut seat = seat();
    seat.pointer_enter(&surface(1), fixed(0.0), fixed(0.0));
    seat.take_events();
    let first = seat.send_button(10, 272, 1);
    let second = seat.send_button(11, 272, 0);
    let third = seat.send_button(12, 273, 1);
    assert_eq!((first, second, third), (1, 2, 3));
    assert_eq!(
        seat.take_events(),
        vec![
            ClientEvent::PointerButton { surface: 1, serial: 1, time: 10, button: 272, state: 1 },
            ClientEvent::PointerButton { surface: 1, serial: 2, time: 11, button: 272, state: 0 },
            ClientEvent::PointerButton { surface: 1, serial: 3, time: 12, button: 273, state: 1 },
        ]
    );
    assert_eq!(seat.tracker().last_serial(), 3);
}

#[test]
fn send_axis_goes_to_the_focused_surface() {
    let mut seat = seat();
    seat.send_axis(1, AxisOrientation::Vertical, fixed(10.0));
    assert_eq!(seat.take_events(), vec![]);
    seat.pointer_enter(&surface(4), fixed(0.0), fixed(0.0));
    seat.take_events();
    seat.send_axis(2, AxisOrientation::Horizontal, fixed(-15.0));
    assert_eq!(
        seat.take_events(),
        vec![ClientEvent::PointerAxis {
            surface: 4,
            time: 2,
            orientation: AxisOrientation::Horizontal,
            value: fixed(-15.0),
        }]
    );
}

#[test]
fn pointer_notify_without_grab_is_send() {
    let mut notified = seat();
    let mut sent = seat();
    let a = surface(1);
    notified.pointer_notify_enter(&a, fixed(1.0), fixed(2.0));
    sent.pointer_enter(&a, fixed(1.0), fixed(2.0));
    notified.pointer_notify_motion(3, fixed(4.0), fixed(5.0));
    sent.send_motion(3, fixed(4.0), fixed(5.0));
    assert_eq!(notified.pointer_notify_button(6, 272, 1), sent.send_button(6, 272, 1));
    notified.pointer_notify_axis(7, AxisOrientation::Vertical, fixed(1.0));
    sent.send_axis(7, AxisOrientation::Vertical, fixed(1.0));
    let events = notified.take_events();
    assert_eq!(events.len(), 4);
    assert_eq!(events, sent.take_events());
}
