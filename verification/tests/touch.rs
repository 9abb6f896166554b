use seat_core::capability::Capability;
use seat_core::event::ClientEvent;
use seat_core::handler::SeatHandler;
use seat_core::seat::Seat;
use seat_core::touch::{TouchPoint, TouchRegistry};
use seat_core::types::{Fixed, Surface, TouchId};

struct Quiet;

impl SeatHandler for Quiet {}

fn seat() -> Seat<Quiet> {
    Seat::new(String::from("default"), Quiet)
}

fn fixed(value: f64) -> Fixed {
    Fixed { raw: (value * 256.0).round() as i32 }
}

fn surface(id: u64) -> Surface {
    Surface { id, accepts_touch: true }
}

#[test]
fn touch_down_then_up_end_to_end() {
    let mut seat = seat();
    seat.set_capabilities(Capability { pointer: true, keyboard: false, touch: true });
    let a = surface(1);
    let serial = seat.touch_send_down(&a, 0, TouchId(1), fixed(5.0), fixed(5.0));
    assert!(serial > 0);
    assert_eq!(seat.touch_num_points(), 1);
    seat.touch_send_up(10, TouchId(1));
    assert_eq!(seat.touch_num_points(), 0);
    assert_eq!(seat.get_touch_point(TouchId(1)), None);
}

#[test]
fn touch_down_makes_a_point_and_sends_the_down() {
    let mut seat = seat();
    let a = surface(1);
    let serial = seat.touch_send_down(&a, 7, TouchId(3), fixed(5.0), fixed(6.0));
    assert_eq!(serial, 1);
    assert_eq!(
        seat.get_touch_point(TouchId(3)),
        Some(TouchPoint {
            id: TouchId(3),
            surface: a,
            focus: Some(a),
            sx: Fixed { raw: 1280 },
            sy: Fixed { raw: 1536 },
            time: 7,
        })
    );
    assert_eq!(
        seat.take_events(),
        vec![ClientEvent::TouchDown {
            surface: 1,
            serial: 1,
            time: 7,
            id: TouchId(3),
            sx: fixed(5.0),
            sy: fixed(6.0),
        }]
    );
}

#[test]
fn refused_touch_down_returns_zero_and_makes_no_point() {
    let mut seat = seat();
    let deaf = Surface { id: 1, accepts_touch: false };
    assert_eq!(seat.touch_send_down(&deaf, 0, TouchId(1), fixed(5.0), fixed(5.0)), 0);
    assert_eq!(seat.touch_num_points(), 0);
    assert_eq!(seat.get_touch_point(TouchId(1)), None);
    assert_eq!(seat.take_events(), vec![]);
    assert_eq!(seat.tracker().last_serial(), 0);
}

#[test]
fn touch_down_for_a_live_identifier_is_refused() {
    let mut seat = seat();
    let a = surface(1);
    let b = surface(2);
    assert_eq!(seat.touch_send_down(&a, 0, TouchId(1), fixed(1.0), fixed(1.0)), 1);
    seat.take_events();
    assert_eq!(seat.touch_send_down(&b, 1, TouchId(1), fixed(2.0), fixed(2.0)), 0);
    assert_eq!(seat.touch_num_points(), 1);
    assert_eq!(seat.get_touch_point(TouchId(1)).map(|p| p.surface), Some(a));
    assert_eq!(seat.take_events(), vec![]);
    seat.touch_send_up(2, TouchId(1));
    assert_eq!(seat.touch_send_down(&b, 3, TouchId(1), fixed(2.0), fixed(2.0)), 2);
    assert_eq!(seat.get_touch_point(TouchId(1)).map(|p| p.surface), Some(b));
}

#[test]
fn touch_up_for_an_unknown_identifier_does_nothing() {
    let mut seat = seat();
    seat.touch_send_down(&surface(1), 0, TouchId(1), fixed(0.0), fixed(0.0));
    seat.take_events();
    seat.touch_send_up(1, TouchId(2));
    assert_eq!(seat.touch_num_points(), 1);
    assert_eq!(seat.take_events(), vec![]);
}

#[test]
fn touch_up_goes_to_the_surface_of_the_down() {
    let mut seat = seat();
    seat.touch_send_down(&surface(8), 0, TouchId(-4), fixed(0.0), fixed(0.0));
    seat.take_events();
    seat.touch_send_up(20, TouchId(-4));
    assert_eq!(seat.take_events(), vec![ClientEvent::TouchUp { surface: 8, time: 20, id: TouchId(-4) }]);
    seat.touch_send_up(21, TouchId(-4));
    assert_eq!(seat.take_events(), vec![]);
}

#[test]
fn touch_motion_keeps_the_position() {
    let mut seat = seat();
    let a = surface(1);
    seat.touch_send_down(&a, 0, TouchId(1), fixed(1.0), fixed(1.0));
    seat.take_events();
    seat.touch_send_motion(5, TouchId(1), fixed(2.0), fixed(3.0));
    assert_eq!(
        seat.take_events(),
        vec![ClientEvent::TouchMotion {
            surface: 1,
            time: 5,
            id: TouchId(1),
            sx: fixed(2.0),
            sy: fixed(3.0),
        }]
    );
    let point = seat.get_touch_point(TouchId(1)).unwrap();
    assert_eq!((point.sx, point.sy, point.time), (fixed(2.0), fixed(3.0), 0));
}

#[test]
fn touch_motion_for_an_unknown_identifier_does_nothing() {
    let mut seat = seat();
    seat.touch_send_motion(5, TouchId(1), fixed(2.0), fixed(3.0));
    assert_eq!(seat.take_events(), vec![]);
    assert_eq!(seat.touch_num_points(), 0);
}

#[test]
fn touch_point_focus_retargets_and_clears() {
    let mut seat = seat();
    let a = surface(1);
    let b = surface(2);
    seat.touch_send_down(&a, 0, TouchId(1), fixed(1.0), fixed(1.0));
    seat.take_events();
    seat.touch_point_focus(&b, 1, TouchId(1), fixed(4.0), fixed(5.0));
    let point = seat.get_touch_point(TouchId(1)).unwrap();
    assert_eq!(point.focus, Some(b));
    assert_eq!(point.surface, a);
    assert_eq!((point.sx, point.sy), (fixed(4.0), fixed(5.0)));
    seat.touch_point_clear_focus(2, TouchId(1));
    let point = seat.get_touch_point(TouchId(1)).unwrap();
    assert_eq!(point.focus, None);
    assert_eq!(point.surface, a);
    assert_eq!(seat.take_events(), vec![]);
    seat.touch_send_up(3, TouchId(1));
    assert_eq!(seat.take_events(), vec![ClientEvent::TouchUp { surface: 1, time: 3, id: TouchId(1) }]);
}

#[test]
fn touch_point_focus_for_an_unknown_identifier_does_nothing() {
    let mut seat = seat();
    seat.touch_point_focus(&surface(1), 0, TouchId(1), fixed(0.0), fixed(0.0));
    seat.touch_point_clear_focus(0, TouchId(1));
    assert_eq!(seat.touch_num_points(), 0);
    assert_eq!(seat.get_touch_point(TouchId(1)), None);
}

#[test]
fn several_contacts_are_live_at_once() {
    let mut seat = seat();
    let a = surface(1);
    assert_eq!(seat.touch_send_down(&a, 0, TouchId(1), fixed(0.0), fixed(0.0)), 1);
    assert_eq!(seat.touch_send_down(&a, 0, TouchId(2), fixed(0.0), fixed(0.0)), 2);
    assert_eq!(seat.touch_send_down(&a, 0, TouchId(3), fixed(0.0), fixed(0.0)), 3);
    assert_eq!(seat.touch_num_points(), 3);
    seat.touch_send_up(1, TouchId(2));
    assert_eq!(seat.touch_num_points(), 2);
    assert!(seat.get_touch_point(TouchId(1)).is_some());
    assert!(seat.get_touch_point(TouchId(2)).is_none());
    assert!(seat.get_touch_point(TouchId(3)).is_some());
}

#[test]
fn point_is_live_exactly_between_down_and_up() {
    let mut seat = seat();
    let a = surface(1);
    let id = TouchId(5);
    assert!(seat.get_touch_point(id).is_none());
    seat.touch_send_motion(0, id, fixed(0.0), fixed(0.0));
    assert!(seat.get_touch_point(id).is_none());
    seat.touch_send_down(&a, 1, id, fixed(0.0), fixed(0.0));
    assert!(seat.get_touch_point(id).is_some());
    seat.touch_send_down(&a, 2, TouchId(6), fixed(0.0), fixed(0.0));
    seat.touch_send_up(3, TouchId(6));
    seat.touch_send_motion(4, id, fixed(1.0), fixed(1.0));
    assert!(seat.get_touch_point(id).is_some());
    seat.touch_send_up(5, id);
    assert!(seat.get_touch_point(id).is_none());
    seat.touch_send_down(&a, 6, id, fixed(0.0), fixed(0.0));
    assert!(seat.get_touch_point(id).is_some());
}

#[test]
fn button_and_touch_down_share_increasing_serials() {
    let mut seat = seat();
    let a = surface(1);
    let deaf = Surface { id: 2, accepts_touch: false };
    seat.pointer_enter(&a, fixed(0.0), fixed(0.0));
    let mut serials = Vec::new();
    serials.push(seat.send_button(0, 272, 1));
    serials.push(seat.touch_send_down(&a, 1, TouchId(1), fixed(0.0), fixed(0.0)));
    assert_eq!(seat.touch_send_down(&deaf, 2, TouchId(2), fixed(0.0), fixed(0.0)), 0);
    serials.push(seat.send_button(3, 272, 0));
    serials.push(seat.touch_send_down(&a, 4, TouchId(3), fixed(0.0), fixed(0.0)));
    assert_eq!(serials, vec![1, 2, 3, 4]);
}

#[test]
fn touch_notify_without_grab_is_send() {
    let mut notified = seat();
    let mut sent = seat();
    let a = surface(1);
    assert_eq!(
        notified.touch_notify_down(&a, 0, TouchId(1), fixed(1.0), fixed(1.0)),
        sent.touch_send_down(&a, 0, TouchId(1), fixed(1.0), fixed(1.0))
    );
    notified.touch_notify_motion(1, TouchId(1), fixed(2.0), fixed(2.0));
    sent.touch_send_motion(1, TouchId(1), fixed(2.0), fixed(2.0));
    assert_eq!(notified.get_touch_point(TouchId(1)), sent.get_touch_point(TouchId(1)));
    notified.touch_notify_up(2, TouchId(1));
    sent.touch_send_up(2, TouchId(1));
    let events = notified.take_events();
    assert_eq!(events.len(), 3);
    assert_eq!(events, sent.take_events());
    assert_eq!(notified.touch_num_points(), 0);
}

#[test]
fn registry_holds_points_by_identifier() {
    let mut registry = TouchRegistry::new();
    assert_eq!(registry.len(), 0);
    let a = surface(1);
    let point = TouchPoint {
        id: TouchId(4),
        surface: a,
        focus: None,
        sx: fixed(1.0),
        sy: fixed(2.0),
        time: 3,
    };
    registry.insert(point);
    assert!(registry.contains(TouchId(4)));
    assert!(!registry.contains(TouchId(5)));
    assert_eq!(registry.get(TouchId(4)), Some(point));
    assert_eq!(registry.get(TouchId(5)), None);
    let moved = TouchPoint { sx: fixed(9.0), ..point };
    registry.insert(moved);
    assert_eq!(registry.len(), 1);
    assert_eq!(registry.get(TouchId(4)), Some(moved));
    assert_eq!(registry.remove(TouchId(5)), None);
    assert_eq!(registry.remove(TouchId(4)), Some(moved));
    assert_eq!(registry.len(), 0);
}
