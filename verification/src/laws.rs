//! What holds of every focus tracker and every seat, whatever they are
//! asked to do.

use crate::event::{ClientEventView, SeatSignal};
use crate::request::RequestView;
use crate::seat::{GrabKind, SeatView};
use crate::tracker::TrackerView;
use crate::types::{Fixed, KeyboardModifiers, Surface, TouchId};
use vstd::prelude::*;

verus! {

/// When the pointer enters one surface and then another, the second call
/// sends exactly a leave to the first surface followed by an enter to the
/// second, and the second surface holds the focus.
pub proof fn law_pointer_leave_before_enter(
    t: TrackerView,
    first: Surface,
    fx: Fixed,
    fy: Fixed,
    second: Surface,
    sx: Fixed,
    sy: Fixed,
)
    requires
        first.id != second.id,
    ensures
        ({
            let mid = t.pointer_entered(first, fx, fy);
            let end = mid.pointer_entered(second, sx, sy);
            &&& end.events == mid.events + seq![
                ClientEventView::PointerLeave { surface: first.id },
                ClientEventView::PointerEnter { surface: second.id, sx, sy },
            ]
            &&& end.pointer_on(second)
        }),
{
    let mid = t.pointer_entered(first, fx, fy);
    let end = mid.pointer_entered(second, sx, sy);
    assert(end.events =~= mid.events + seq![
        ClientEventView::PointerLeave { surface: first.id },
        ClientEventView::PointerEnter { surface: second.id, sx, sy },
    ]);
}

/// When the keyboard enters one surface and then another, the second call
/// sends exactly a leave to the first surface followed by an enter to the
/// second, and the second surface holds the focus.
pub proof fn law_keyboard_leave_before_enter(
    t: TrackerView,
    first: Surface,
    first_keys: Seq<u32>,
    first_modifiers: KeyboardModifiers,
    second: Surface,
    keycodes: Seq<u32>,
    modifiers: KeyboardModifiers,
)
    requires
        first.id != second.id,
    ensures
        ({
            let mid = t.keyboard_entered(first, first_keys, first_modifiers);
            let end = mid.keyboard_entered(second, keycodes, modifiers);
            &&& end.events == mid.events + seq![
                ClientEventView::KeyboardLeave { surface: first.id },
                ClientEventView::KeyboardEnter { surface: second.id, keycodes, modifiers },
            ]
            &&& end.keyboard_on(second)
        }),
{
    let mid = t.keyboard_entered(first, first_keys, first_modifiers);
    let end = mid.keyboard_entered(second, keycodes, modifiers);
    assert(end.events =~= mid.events + seq![
        ClientEventView::KeyboardLeave { surface: first.id },
        ClientEventView::KeyboardEnter { surface: second.id, keycodes, modifiers },
    ]);
}

/// A request takes back nothing that was sent: the events before it are the
/// beginning of the events after it.
pub proof fn lemma_request_keeps_events(t: TrackerView, request: RequestView)
    ensures
        t.events.is_prefix_of(t.after(request).events),
{
    let after = t.after(request).events;
    assert(t.events =~= after.subrange(0, t.events.len() as int));
}

/// Whatever requests are carried out, the events sent before them stay, in
/// their order, at the beginning of the events sent.
pub proof fn law_events_only_grow(t: TrackerView, requests: Seq<RequestView>)
    ensures
        t.events.is_prefix_of(t.run(requests).events),
    decreases requests.len(),
{
    if requests.len() > 0 {
        let before = t.run(requests.drop_last());
        law_events_only_grow(t, requests.drop_last());
        lemma_request_keeps_events(before, requests.last());
        let after = before.after(requests.last()).events;
        assert(t.events =~= after.subrange(0, t.events.len() as int));
    } else {
        assert(t.events =~= t.events.subrange(0, t.events.len() as int));
    }
}

/// The serial that the request at position `i` of `requests` gives, when
/// the requests are carried out in order from state `t`.
pub open spec fn serial_at(t: TrackerView, requests: Seq<RequestView>, i: int) -> u32 {
    t.run(requests.take(i)).reply(requests[i])
}

/// Carrying out one more request of a list is one step from the state
/// after those before it.
pub proof fn lemma_run_step(t: TrackerView, requests: Seq<RequestView>, i: int)
    requires
        0 <= i < requests.len(),
    ensures
        t.run(requests.take(i + 1)) == t.run(requests.take(i)).after(requests[i]),
{
    assert(requests.take(i + 1).drop_last() =~= requests.take(i));
}

/// A request never lowers the serial counter, and a serial that it gives is
/// one above the counter before and is the counter after.
pub proof fn lemma_request_serial(t: TrackerView, request: RequestView)
    ensures
        t.last_serial <= t.after(request).last_serial,
        t.reply(request) != 0 ==> t.reply(request) == t.last_serial + 1 && t.after(
            request,
        ).last_serial == t.reply(request),
{
}

/// The serial counter never goes down while requests are carried out.
pub proof fn lemma_counter_monotone(t: TrackerView, requests: Seq<RequestView>, i: int, j: int)
    requires
        0 <= i <= j <= requests.len(),
    ensures
        t.run(requests.take(i)).last_serial <= t.run(requests.take(j)).last_serial,
    decreases j - i,
{
    if i < j {
        lemma_counter_monotone(t, requests, i, j - 1);
        lemma_run_step(t, requests, j - 1);
        lemma_request_serial(t.run(requests.take(j - 1)), requests[j - 1]);
    }
}

/// Of any two requests of one list that give a serial, the later gives the
/// greater one, and neither serial is 0: button events and touch downs get
/// strictly increasing serials for as long as the tracker lives.
pub proof fn law_serials_increase(t: TrackerView, requests: Seq<RequestView>, i: int, j: int)
    requires
        0 <= i < j < requests.len(),
        serial_at(t, requests, i) != 0,
        serial_at(t, requests, j) != 0,
    ensures
        0 < serial_at(t, requests, i) < serial_at(t, requests, j),
{
    lemma_request_serial(t.run(requests.take(i)), requests[i]);
    lemma_request_serial(t.run(requests.take(j)), requests[j]);
    lemma_run_step(t, requests, i);
    lemma_counter_monotone(t, requests, i + 1, j);
}

/// A touch down that is refused gives serial 0 and leaves the tracker as it
/// was: no touch point is made and nothing is sent.
pub proof fn law_refused_touch_down(
    t: TrackerView,
    surface: Surface,
    time: u32,
    id: TouchId,
    sx: Fixed,
    sy: Fixed,
)
    ensures
        t.touch_down_serial(surface, id) == 0 <==> !t.touch_down_taken(surface, id),
        !t.touch_down_taken(surface, id) ==> t.touch_down_sent(surface, time, id, sx, sy) == t,
        t.touch_down_taken(surface, id) ==> t.touch_down_sent(
            surface,
            time,
            id,
            sx,
            sy,
        ).touch_points.contains_key(id.0),
{
}

/// Whether `request`, carried out in state `t`, is a touch down for `id`
/// that is taken.
pub open spec fn is_taken_down(t: TrackerView, request: RequestView, id: TouchId) -> bool {
    request matches RequestView::TouchDown { surface, id: down, .. } && down == id
        && t.touch_down_taken(surface, id)
}

/// Whether `request` is a touch up for `id`.
pub open spec fn is_up(request: RequestView, id: TouchId) -> bool {
    request matches RequestView::TouchUp { id: up, .. } && up == id
}

/// Whether no request of `requests` from position `from` on is a touch up
/// for `id`.
pub open spec fn no_up_from(requests: Seq<RequestView>, id: TouchId, from: int) -> bool {
    forall|j: int| from <= j < requests.len() ==> !is_up(#[trigger] requests[j], id)
}

/// Whether the request at position `i` is a touch down for `id` that is
/// taken when the requests are carried out in order from `t`, and no later
/// request is a touch up for `id`.
pub open spec fn down_at(t: TrackerView, requests: Seq<RequestView>, id: TouchId, i: int) -> bool {
    &&& 0 <= i < requests.len()
    &&& is_taken_down(t.run(requests.take(i)), requests[i], id)
    &&& no_up_from(requests, id, i + 1)
}

/// Whether a touch down for `id` was taken and no touch up for `id` came
/// after it.
pub open spec fn down_and_not_up_since(
    t: TrackerView,
    requests: Seq<RequestView>,
    id: TouchId,
) -> bool {
    exists|i: int| #[trigger] down_at(t, requests, id, i)
}

/// One request changes whether a point with identifier `id` is live only
/// where it is a touch up for `id`, after which none is, or a touch down
/// for `id` that is taken, after which one is.
pub proof fn lemma_request_liveness(t: TrackerView, request: RequestView, id: TouchId)
    ensures
        t.after(request).touch_points.contains_key(id.0) <==> !is_up(request, id) && (
        is_taken_down(t, request, id) || t.touch_points.contains_key(id.0)),
{
    match request {
        RequestView::TouchDown { id: other, .. } => {
            assert(other.0 == id.0 ==> other == id);
        },
        RequestView::TouchUp { id: other, .. } => {
            assert(other.0 == id.0 ==> other == id);
        },
        _ => {},
    }
}

/// After any requests, a point with identifier `id` is live exactly where
/// one was live at the start and no touch up for `id` came, or a touch down
/// for `id` was taken and no touch up for `id` came after it.
pub proof fn lemma_liveness_after(t: TrackerView, requests: Seq<RequestView>, id: TouchId)
    ensures
        t.run(requests).touch_points.contains_key(id.0) <==> (t.touch_points.contains_key(id.0)
            && no_up_from(requests, id, 0)) || down_and_not_up_since(t, requests, id),
    decreases requests.len(),
{
    if requests.len() > 0 {
        let n = requests.len() - 1;
        let before = requests.drop_last();
        let last = requests.last();
        let s = t.run(before);
        lemma_liveness_after(t, before, id);
        lemma_request_liveness(s, last, id);
        assert(requests.take(n) =~= before);
        assert forall|i: int| 0 <= i < n implies requests.take(i) == before.take(i) by {
            assert(requests.take(i) =~= before.take(i));
        }
        assert forall|k: int| 0 <= k <= n && !is_up(last, id) implies (no_up_from(before, id, k)
            <==> no_up_from(requests, id, k)) by {
            if no_up_from(before, id, k) {
                assert forall|j: int| k <= j < requests.len() implies !is_up(
                    #[trigger] requests[j],
                    id,
                ) by {
                    if j < n {
                        assert(requests[j] == before[j]);
                    }
                }
            }
            if no_up_from(requests, id, k) {
                assert forall|j: int| k <= j < before.len() implies !is_up(
                    #[trigger] before[j],
                    id,
                ) by {
                    assert(before[j] == requests[j]);
                }
            }
        }
        if is_up(last, id) {
            assert(is_up(requests[n], id));
            assert(!no_up_from(requests, id, 0));
            assert forall|i: int| !down_at(t, requests, id, i) by {
                if 0 <= i < n {
                    assert(is_up(requests[n], id));
                }
            }
        } else {
            if down_and_not_up_since(t, before, id) {
                let i = choose|i: int| down_at(t, before, id, i);
                assert(requests[i] == before[i]);
                assert(down_at(t, requests, id, i));
            }
            if is_taken_down(s, last, id) {
                assert(down_at(t, requests, id, n));
            }
            if down_and_not_up_since(t, requests, id) {
                let i = choose|i: int| down_at(t, requests, id, i);
                if i < n {
                    assert(requests[i] == before[i]);
                    assert(down_at(t, before, id, i));
                }
            }
        }
    } else {
        assert forall|i: int| !down_at(t, requests, id, i) by {}
    }
}

/// A tracker that started without touch points has a live point with
/// identifier `id` exactly where a touch down for `id` was taken and no
/// touch up for `id` came after it.
pub proof fn law_touch_point_lifetime(requests: Seq<RequestView>, id: TouchId)
    ensures
        TrackerView::initial().run(requests).touch_points.contains_key(id.0)
            <==> down_and_not_up_since(TrackerView::initial(), requests, id),
{
    lemma_liveness_after(TrackerView::initial(), requests, id);
}

/// Starting a grab while a grab of the same kind is active signals the end
/// of the old grab and then the start of the new one; without an active
/// grab only the start is signalled. Either way a grab of the kind is active
/// after, and nothing else of the seat changes.
pub proof fn law_grab_replaced(s: SeatView, kind: GrabKind)
    ensures
        s.grab_started(kind).has_grab(kind),
        s.has_grab(kind) ==> s.grab_started(kind).signals == s.signals + seq![
            kind.end_signal(),
            kind.begin_signal(),
        ],
        !s.has_grab(kind) ==> s.grab_started(kind).signals == s.signals + seq![
            kind.begin_signal(),
        ],
        s.grab_started(kind) == (SeatView {
            signals: s.grab_started(kind).signals,
            ..s.with_grab(kind, true)
        }),
{
    let signals: Seq<SeatSignal> = s.grab_started(kind).signals;
    if s.has_grab(kind) {
        assert(signals =~= s.signals + seq![kind.end_signal(), kind.begin_signal()]);
    } else {
        assert(signals =~= s.signals + seq![kind.begin_signal()]);
    }
}

/// A grab that lets an event through as the one request that stands for it,
/// and stays, as the pass-through grab answers every event, leaves the seat
/// exactly as the focus tracker would without a grab, and the same serial
/// comes back.
pub proof fn law_pass_through(s: SeatView, kind: GrabKind, request: RequestView)
    ensures
        s.grab_answered(kind, seq![request], false) == s.with_tracker(s.tracker.after(request)),
        s.tracker.run_reply(seq![request]) == s.tracker.reply(request),
{
    let one = seq![request];
    assert(one.drop_last() =~= Seq::<RequestView>::empty());
    assert(one.last() == request);
    assert(s.tracker.run(one.drop_last()) == s.tracker);
    assert(s.tracker.run(one) == s.tracker.after(request));
    assert(s.tracker.run_reply(one.drop_last()) == 0);
}

} // verus!
