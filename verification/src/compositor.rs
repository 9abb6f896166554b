//! The registry that owns the seats by name, and the delivery of lifecycle
//! signals to their handlers.

use crate::event::SeatSignal;
use crate::handler::SeatHandler;
use crate::seat::{Seat, SeatView};
use vstd::prelude::*;

verus! {

/// Whether no two seats of the list advertise the same name.
spec fn distinct_names<H>(seats: Seq<Seat<H>>) -> bool {
    forall|i: int, j: int|
        0 <= i < j < seats.len() ==> (#[trigger] seats[i])@.name != (#[trigger] seats[j])@.name
}

/// Whether a seat of the list advertises `name`.
spec fn has_name<H>(seats: Seq<Seat<H>>, name: Seq<char>) -> bool {
    exists|i: int| 0 <= i < seats.len() && (#[trigger] seats[i])@.name == name
}

/// The position of a seat of the list that advertises `name`.
spec fn position_of<H>(seats: Seq<Seat<H>>, name: Seq<char>) -> int {
    choose|i: int| 0 <= i < seats.len() && (#[trigger] seats[i])@.name == name
}

/// The seat of the list that advertises `name`, where one does.
spec fn held<H>(seats: Seq<Seat<H>>, name: Seq<char>) -> Seat<H> {
    seats[position_of(seats, name)]
}

/// The seats of the list by the name that each advertises.
spec fn by_name<H>(seats: Seq<Seat<H>>) -> Map<Seq<char>, SeatView> {
    Map::new(|name: Seq<char>| has_name(seats, name), |name: Seq<char>| held(seats, name)@)
}

/// In a list of seats with distinct names, each seat is found under its
/// name.
proof fn lemma_found_by_name<H>(seats: Seq<Seat<H>>, i: int)
    requires
        distinct_names(seats),
        0 <= i < seats.len(),
    ensures
        by_name(seats).contains_key(seats[i]@.name),
        by_name(seats)[seats[i]@.name] == seats[i]@,
        position_of(seats, seats[i]@.name) == i,
{
    let name = seats[i]@.name;
    assert(has_name(seats, name));
    let p = position_of(seats, name);
    if p < i {
        assert(seats[p]@.name != seats[i]@.name);
    } else if i < p {
        assert(seats[i]@.name != seats[p]@.name);
    }
}

/// Adding a seat under a name that no seat of the list advertises keeps
/// the names distinct and adds the seat under its name.
proof fn lemma_pushed<H>(seats: Seq<Seat<H>>, seat: Seat<H>)
    requires
        distinct_names(seats),
        !has_name(seats, seat@.name),
    ensures
        distinct_names(seats.push(seat)),
        by_name(seats.push(seat)) == by_name(seats).insert(seat@.name, seat@),
        held(seats.push(seat), seat@.name) == seat,
        forall|name: Seq<char>|
            has_name(seats, name) ==> #[trigger] held(seats.push(seat), name) == held(seats, name),
{
    let after = seats.push(seat);
    assert forall|i: int, j: int| 0 <= i < j < after.len() implies (#[trigger] after[i])@.name != (
    #[trigger] after[j])@.name by {
        if j == seats.len() {
            assert(after[i] == seats[i]);
            assert(seats[i]@.name != seat@.name);
        } else {
            assert(after[i] == seats[i]);
            assert(after[j] == seats[j]);
        }
    }
    let wanted = by_name(seats).insert(seat@.name, seat@);
    assert forall|name: Seq<char>| by_name(after).contains_key(name) <==> wanted.contains_key(
        name,
    ) by {
        if has_name(after, name) {
            let p = position_of(after, name);
            if p < seats.len() {
                assert(after[p] == seats[p]);
                assert(seats[p]@.name == name);
            }
        }
        if has_name(seats, name) {
            let p = position_of(seats, name);
            assert(after[p] == seats[p]);
            assert(after[p]@.name == name);
        }
        if name == seat@.name {
            assert(after[seats.len() as int] == seat);
        }
    }
    assert forall|name: Seq<char>| by_name(after).contains_key(name) implies by_name(after)[name]
        == wanted[name] by {
        let p = position_of(after, name);
        lemma_found_by_name(after, p);
        if p < seats.len() {
            assert(after[p] == seats[p]);
            lemma_found_by_name(seats, p);
        }
    }
    assert(by_name(after) =~= wanted);
    lemma_found_by_name(after, seats.len() as int);
    assert(after[seats.len() as int] == seat);
    assert forall|name: Seq<char>| has_name(seats, name) implies #[trigger] held(after, name)
        == held(seats, name) by {
        let p = position_of(seats, name);
        assert(after[p] == seats[p]);
        lemma_found_by_name(after, p);
    }
}

/// Removing a seat from a list with distinct names keeps the names
/// distinct and removes the seat's name.
proof fn lemma_removed<H>(seats: Seq<Seat<H>>, i: int)
    requires
        distinct_names(seats),
        0 <= i < seats.len(),
    ensures
        distinct_names(seats.remove(i)),
        by_name(seats.remove(i)) == by_name(seats).remove(seats[i]@.name),
        forall|name: Seq<char>|
            has_name(seats.remove(i), name) ==> #[trigger] held(seats.remove(i), name) == held(
                seats,
                name,
            ),
{
    let after = seats.remove(i);
    let gone = seats[i]@.name;
    assert forall|a: int| 0 <= a < after.len() implies #[trigger] after[a] == seats[if a < i {
        a
    } else {
        a + 1
    }] by {}
    assert forall|a: int, b: int| 0 <= a < b < after.len() implies (#[trigger] after[a])@.name != (
    #[trigger] after[b])@.name by {
        let sa = if a < i {
            a
        } else {
            a + 1
        };
        let sb = if b < i {
            b
        } else {
            b + 1
        };
        assert(after[a] == seats[sa]);
        assert(after[b] == seats[sb]);
        assert(seats[sa]@.name != seats[sb]@.name);
    }
    let wanted = by_name(seats).remove(gone);
    assert forall|name: Seq<char>| by_name(after).contains_key(name) <==> wanted.contains_key(
        name,
    ) by {
        if has_name(after, name) {
            let p = position_of(after, name);
            let sp = if p < i {
                p
            } else {
                p + 1
            };
            assert(after[p] == seats[sp]);
            assert(seats[sp]@.name == name);
            if sp < i {
                assert(seats[sp]@.name != seats[i]@.name);
            } else {
                assert(seats[i]@.name != seats[sp]@.name);
            }
        }
        if has_name(seats, name) && name != gone {
            let p = position_of(seats, name);
            let ap = if p < i {
                p
            } else {
                p - 1
            };
            assert(after[ap] == seats[p]);
            assert(after[ap]@.name == name);
        }
    }
    assert forall|name: Seq<char>| by_name(after).contains_key(name) implies by_name(after)[name]
        == wanted[name] by {
        let p = position_of(after, name);
        let sp = if p < i {
            p
        } else {
            p + 1
        };
        lemma_found_by_name(after, p);
        assert(after[p] == seats[sp]);
        lemma_found_by_name(seats, sp);
    }
    assert(by_name(after) =~= wanted);
    assert forall|name: Seq<char>| has_name(after, name) implies #[trigger] held(after, name)
        == held(seats, name) by {
        let p = position_of(after, name);
        let sp = if p < i {
            p
        } else {
            p + 1
        };
        assert(after[p] == seats[sp]);
        lemma_found_by_name(seats, sp);
    }
}

/// The registry of a compositor's seats. Each seat is held under the name
/// that it advertises, and no two seats under the same name.
///
/// Its value is the map from each name to the state of the seat held under
/// it.
pub struct Compositor<H> {
    seats: Vec<Seat<H>>,
    shutting_down: bool,
}

impl<H> View for Compositor<H> {
    type V = Map<Seq<char>, SeatView>;

    closed spec fn view(&self) -> Map<Seq<char>, SeatView> {
        by_name(self.seats@)
    }
}

impl<H> Compositor<H> {
    #[verifier::type_invariant]
    spec fn well_formed(&self) -> bool {
        distinct_names(self.seats@)
    }

    /// Whether the compositor is shutting down.
    pub closed spec fn spec_is_shutting_down(&self) -> bool {
        self.shutting_down
    }

    /// The seat held under `name`, where one is: the seat itself, with the
    /// grabs and the handler that it holds.
    pub closed spec fn spec_seat(&self, name: Seq<char>) -> Seat<H> {
        held(self.seats@, name)
    }

    /// Whether every seat that `before` holds under a name other than
    /// `except` is held, the very same, under that name.
    pub open spec fn keeps_seats_but(&self, before: &Compositor<H>, except: Seq<char>) -> bool {
        forall|name: Seq<char>|
            name != except && before@.contains_key(name) ==> #[trigger] self.spec_seat(name)
                == before.spec_seat(name)
    }

    /// Whether `signal` for the seat named `name` reaches a handler: a seat
    /// is held under the name and holds its handler, and the signal is not
    /// the destruction of a seat while the compositor shuts down.
    pub open spec fn delivers(&self, name: Seq<char>, signal: SeatSignal) -> bool {
        &&& self@.contains_key(name)
        &&& self@[name].handler
        &&& !(signal == SeatSignal::Destroy && self.spec_is_shutting_down())
    }

    /// Every seat of the registry is held under the name that it
    /// advertises.
    pub proof fn law_held_under_own_name(&self)
        ensures
            forall|name: Seq<char>| #[trigger]
                self@.contains_key(name) ==> self@[name].name == name,
            forall|name: Seq<char>| #[trigger]
                self@.contains_key(name) ==> self@[name] == self.spec_seat(name)@,
    {
    }

    /// A registry without seats, not shutting down.
    pub fn new() -> (c: Compositor<H>)
        ensures
            c@ == Map::<Seq<char>, SeatView>::empty(),
            !c.spec_is_shutting_down(),
    {
        let c = Compositor { seats: Vec::new(), shutting_down: false };
        assert(by_name(c.seats@) =~= Map::<Seq<char>, SeatView>::empty());
        c
    }

    /// Whether the compositor is shutting down.
    #[verifier::when_used_as_spec(spec_is_shutting_down)]
    pub fn is_shutting_down(&self) -> (b: bool)
        ensures
            b == self.spec_is_shutting_down(),
    {
        self.shutting_down
    }

    /// Marks the compositor as shutting down. From now on the destruction
    /// of a seat is not reported to its handler.
    pub fn shut_down(&mut self)
        ensures
            final(self)@ == old(self)@,
            forall|name: Seq<char>| final(self).spec_seat(name) == old(self).spec_seat(name),
            final(self).spec_is_shutting_down(),
    {
        proof {
            use_type_invariant(&*self);
        }
        self.shutting_down = true;
    }

    /// The position of the seat held under `name`, if there is one.
    fn find(&self, name: &String) -> (r: Option<usize>)
        ensures
            match r {
                Some(i) => i < self.seats@.len() && self.seats@[i as int]@.name == name@,
                None => !has_name(self.seats@, name@),
            },
    {
        let mut i: usize = 0;
        while i < self.seats.len()
            invariant
                i <= self.seats@.len(),
                forall|k: int| 0 <= k < i ==> (#[trigger] self.seats@[k])@.name != name@,
            decreases self.seats@.len() - i,
        {
            if self.seats[i].is_named(name) {
                return Some(i);
            }
            i = i + 1;
        }
        None
    }

    /// Whether a seat is held under `name`.
    pub fn has_seat(&self, name: &str) -> (b: bool)
        ensures
            b == self@.contains_key(name@),
    {
        let wanted = name.to_owned();
        self.find(&wanted).is_some()
    }

    /// Adds `seat` under the name that it advertises and returns `true`.
    /// Where a seat is held under that name already, the registry stays as
    /// it is, `seat` is dropped, and `false` is returned.
    pub fn add_seat(&mut self, seat: Seat<H>) -> (added: bool)
        ensures
            added == !old(self)@.contains_key(seat@.name),
            final(self)@ == (if added {
                old(self)@.insert(seat@.name, seat@)
            } else {
                old(self)@
            }),
            final(self).spec_seat(seat@.name) == (if added {
                seat
            } else {
                old(self).spec_seat(seat@.name)
            }),
            final(self).keeps_seats_but(old(self), seat@.name),
            final(self).spec_is_shutting_down() == old(self).spec_is_shutting_down(),
    {
        proof {
            use_type_invariant(&*self);
        }
        let name = seat.name_ref();
        match self.find(name) {
            Some(_) => false,
            None => {
                proof {
                    lemma_pushed(self.seats@, seat);
                }
                let mut seats: Vec<Seat<H>> = Vec::new();
                std::mem::swap(&mut self.seats, &mut seats);
                seats.push(seat);
                std::mem::swap(&mut self.seats, &mut seats);
                proof {
                    assert forall|other: Seq<char>|
                        other != seat@.name && old(self)@.contains_key(
                            other,
                        ) implies #[trigger] self.spec_seat(other) == old(self).spec_seat(
                        other,
                    ) by {
                        assert(has_name(old(self).seats@, other));
                    }
                }
                true
            },
        }
    }

    /// Takes the seat held under `name` out of the registry, if there is
    /// one. Until it is put back, no seat is found under the name.
    pub fn take_seat(&mut self, name: &str) -> (r: Option<Seat<H>>)
        ensures
            match r {
                Some(seat) => old(self)@.contains_key(name@) && seat == old(self).spec_seat(name@)
                    && seat@ == old(self)@[name@] && seat@.name == name@ && final(self)@ == old(
                    self,
                )@.remove(name@),
                None => !old(self)@.contains_key(name@) && final(self)@ == old(self)@,
            },
            final(self).keeps_seats_but(old(self), name@),
            final(self).spec_is_shutting_down() == old(self).spec_is_shutting_down(),
    {
        proof {
            use_type_invariant(&*self);
        }
        let wanted = name.to_owned();
        match self.find(&wanted) {
            Some(i) => {
                proof {
                    lemma_found_by_name(self.seats@, i as int);
                    lemma_removed(self.seats@, i as int);
                }
                let mut seats: Vec<Seat<H>> = Vec::new();
                std::mem::swap(&mut self.seats, &mut seats);
                let seat = seats.remove(i);
                std::mem::swap(&mut self.seats, &mut seats);
                proof {
                    assert forall|other: Seq<char>|
                        other != name@ && old(self)@.contains_key(
                            other,
                        ) implies #[trigger] self.spec_seat(other) == old(self).spec_seat(
                        other,
                    ) by {
                        assert(by_name(self.seats@).contains_key(other));
                        assert(has_name(self.seats@, other));
                    }
                }
                Some(seat)
            },
            None => None,
        }
    }

    /// Puts `seat` into the registry under the name that it advertises, in
    /// place of any seat held under that name.
    pub fn replace_seat(&mut self, seat: Seat<H>)
        ensures
            final(self)@ == old(self)@.insert(seat@.name, seat@),
            final(self).spec_seat(seat@.name) == seat,
            final(self).keeps_seats_but(old(self), seat@.name),
            final(self).spec_is_shutting_down() == old(self).spec_is_shutting_down(),
    {
        proof {
            use_type_invariant(&*self);
        }
        let mut seats: Vec<Seat<H>> = Vec::new();
        let found = self.find(seat.name_ref());
        std::mem::swap(&mut self.seats, &mut seats);
        match found {
            Some(i) => {
                proof {
                    lemma_found_by_name(seats@, i as int);
                    lemma_removed(seats@, i as int);
                }
                seats.remove(i);
                assert(!has_name(seats@, seat@.name)) by {
                    assert(!by_name(seats@).contains_key(seat@.name));
                }
            },
            None => {},
        }
        let ghost rest = seats@;
        proof {
            lemma_pushed(seats@, seat);
            assert(by_name(seats@.push(seat)) =~= old(self)@.insert(seat@.name, seat@));
        }
        seats.push(seat);
        std::mem::swap(&mut self.seats, &mut seats);
        proof {
            assert forall|other: Seq<char>|
                other != seat@.name && old(self)@.contains_key(
                    other,
                ) implies #[trigger] self.spec_seat(other) == old(self).spec_seat(other) by {
                assert(by_name(rest).contains_key(other));
                assert(has_name(rest, other));
                assert(held(rest.push(seat), other) == held(rest, other));
                assert(held(rest, other) == held(old(self).seats@, other));
            }
        }
    }
}

/// Whether `registry` holds a seat in state `seat` under the name that the
/// seat advertises, and the seat holds its handler.
pub open spec fn restored(registry: Map<Seq<char>, SeatView>, seat: SeatView) -> bool {
    &&& registry.contains_key(seat.name)
    &&& registry[seat.name] == seat
    &&& seat.handler
}

/// Whether a callback for `signal` of the seat named `name` ran inside its
/// bracket: it was given the registry `before` without the seat and the
/// seat without its handler, and what it left, `registry_left` and
/// `seat_left`, went into `after` with the seat back under the name that
/// it advertises then.
pub open spec fn bracketed(
    before: Map<Seq<char>, SeatView>,
    name: Seq<char>,
    signal: SeatSignal,
    registry_given: Map<Seq<char>, SeatView>,
    seat_given: SeatView,
    registry_left: Map<Seq<char>, SeatView>,
    seat_left: SeatView,
    after: Map<Seq<char>, SeatView>,
) -> bool {
    &&& registry_given == before.remove(name)
    &&& seat_given == (SeatView { handler: false, ..before[name] })
    &&& after == registry_left.insert(seat_left.name, seat_left.concluded(signal))
}

/// Whether `seat` and `handler` are what a callback is given of the seat
/// `held` in the registry: the handler that it held, and the seat itself
/// without it, with the grabs that it held.
pub open spec fn handed_out<H>(held: Seat<H>, seat: Seat<H>, handler: H) -> bool {
    &&& held.spec_handler() == Some(handler)
    &&& seat.spec_handler() is None
    &&& seat.spec_pointer_grab() == held.spec_pointer_grab()
    &&& seat.spec_keyboard_grab() == held.spec_keyboard_grab()
    &&& seat.spec_touch_grab() == held.spec_touch_grab()
}

/// Whether `held` is what becomes of `seat` when it is put back after a
/// callback for `signal`: it holds the handler that it held already, or
/// else `handler`, and the grabs of `seat`, or none after its destruction.
pub open spec fn put_back<H>(held: Seat<H>, seat: Seat<H>, handler: H, signal: SeatSignal) -> bool {
    &&& held.spec_handler() == (if seat.spec_handler() is Some {
        seat.spec_handler()
    } else {
        Some(handler)
    })
    &&& signal != SeatSignal::Destroy ==> {
        &&& held.spec_pointer_grab() == seat.spec_pointer_grab()
        &&& held.spec_keyboard_grab() == seat.spec_keyboard_grab()
        &&& held.spec_touch_grab() == seat.spec_touch_grab()
    }
    &&& signal == SeatSignal::Destroy ==> {
        &&& held.spec_pointer_grab() is None
        &&& held.spec_keyboard_grab() is None
        &&& held.spec_touch_grab() is None
    }
}

/// Ends the callback for `signal` that ran on `seat`: gives the seat its
/// handler back, lets it let go of its grabs and focus where the signal was
/// its destruction, and puts it into the registry under the name that it
/// advertises, in place of any seat held there.
pub fn conclude<H>(
    compositor: &mut Compositor<H>,
    seat: Seat<H>,
    handler: H,
    signal: SeatSignal,
)
    ensures
        final(compositor)@ == old(compositor)@.insert(seat@.name, seat@.concluded(signal)),
        put_back(final(compositor).spec_seat(seat@.name), seat, handler, signal),
        final(compositor).keeps_seats_but(old(compositor), seat@.name),
        final(compositor).spec_is_shutting_down() == old(compositor).spec_is_shutting_down(),
{
    let mut seat = seat;
    seat.restore_handler(handler);
    if matches!(signal, SeatSignal::Destroy) {
        seat.release();
    }
    compositor.replace_seat(seat);
}

/// Delivers one lifecycle signal of the seat named `name` to the seat's
/// handler and says whether a handler was called.
///
/// Each signal reaches its own callback and no other: the begin and the end
/// of a pointer grab reach `pointer_grabbed` and `pointer_released`, those
/// of a keyboard grab `keyboard_grabbed` and `keyboard_released`, those of a
/// touch grab `touch_grabbed` and `touch_released`; a request for a cursor
/// reaches `cursor_set`, a selection `received_selection`, a primary
/// selection `primary_selection`, and the destruction `destroy`.
///
/// The seat is taken out of the registry before its handler runs and put
/// back after, under the name that it advertises then, in place of any seat
/// that the handler put there. The handler is out of the seat while it
/// runs. After [`SeatSignal::Destroy`] the seat has let go of its grabs and
/// focus. No handler is called, and nothing changes, where no seat is held
/// under the name, where the seat's handler is running already, or for the
/// destruction of a seat while the compositor shuts down.
pub fn dispatch<H: SeatHandler>(
    compositor: &mut Compositor<H>,
    name: &str,
    signal: SeatSignal,
) -> (delivered: bool)
    ensures
        delivered == old(compositor).delivers(name@, signal),
        !delivered ==> final(compositor)@ == old(compositor)@,
        !delivered ==> final(compositor).keeps_seats_but(old(compositor), name@),
        !delivered && old(compositor)@.contains_key(name@) ==> final(compositor).spec_seat(name@)
            == old(compositor).spec_seat(name@),
        !delivered ==> final(compositor).spec_is_shutting_down() == old(
            compositor,
        ).spec_is_shutting_down(),
        delivered ==> exists|seat: SeatView| #[trigger]
            restored(final(compositor)@, seat) && (signal == SeatSignal::Destroy
                ==> seat.is_released()),
        delivered && signal == SeatSignal::PointerGrabBegin ==> exists|
            h: &mut H,
            c: &mut Compositor<H>,
            s: &mut Seat<H>,
        | #[trigger]
            call_ensures(H::pointer_grabbed, (h, c, s), ()) && bracketed(
                old(compositor)@,
                name@,
                signal,
                mut_ref_current(c)@,
                mut_ref_current(s)@,
                mut_ref_future(c)@,
                mut_ref_future(s)@,
                final(compositor)@,
            ) && handed_out(
                old(compositor).spec_seat(name@),
                mut_ref_current(s),
                mut_ref_current(h),
            ) && put_back(
                final(compositor).spec_seat(mut_ref_future(s)@.name),
                mut_ref_future(s),
                mut_ref_future(h),
                signal,
            ) && mut_ref_current(c).spec_is_shutting_down() == old(
                compositor,
            ).spec_is_shutting_down() && final(compositor).spec_is_shutting_down()
                == mut_ref_future(c).spec_is_shutting_down(),
        delivered && signal == SeatSignal::PointerGrabEnd ==> exists|
            h: &mut H,
            c: &mut Compositor<H>,
            s: &mut Seat<H>,
        | #[trigger]
            call_ensures(H::pointer_released, (h, c, s), ()) && bracketed(
                old(compositor)@,
                name@,
                signal,
                mut_ref_current(c)@,
                mut_ref_current(s)@,
                mut_ref_future(c)@,
                mut_ref_future(s)@,
                final(compositor)@,
            ) && handed_out(
                old(compositor).spec_seat(name@),
                mut_ref_current(s),
                mut_ref_current(h),
            ) && put_back(
                final(compositor).spec_seat(mut_ref_future(s)@.name),
                mut_ref_future(s),
                mut_ref_future(h),
                signal,
            ) && mut_ref_current(c).spec_is_shutting_down() == old(
                compositor,
            ).spec_is_shutting_down() && final(compositor).spec_is_shutting_down()
                == mut_ref_future(c).spec_is_shutting_down(),
        delivered && signal == SeatSignal::KeyboardGrabBegin ==> exists|
            h: &mut H,
            c: &mut Compositor<H>,
            s: &mut Seat<H>,
        | #[trigger]
            call_ensures(H::keyboard_grabbed, (h, c, s), ()) && bracketed(
                old(compositor)@,
                name@,
                signal,
                mut_ref_current(c)@,
                mut_ref_current(s)@,
                mut_ref_future(c)@,
                mut_ref_future(s)@,
                final(compositor)@,
            ) && handed_out(
                old(compositor).spec_seat(name@),
                mut_ref_current(s),
                mut_ref_current(h),
            ) && put_back(
                final(compositor).spec_seat(mut_ref_future(s)@.name),
                mut_ref_future(s),
                mut_ref_future(h),
                signal,
            ) && mut_ref_current(c).spec_is_shutting_down() == old(
                compositor,
            ).spec_is_shutting_down() && final(compositor).spec_is_shutting_down()
                == mut_ref_future(c).spec_is_shutting_down(),
        delivered && signal == SeatSignal::KeyboardGrabEnd ==> exists|
            h: &mut H,
            c: &mut Compositor<H>,
            s: &mut Seat<H>,
        | #[trigger]
            call_ensures(H::keyboard_released, (h, c, s), ()) && bracketed(
                old(compositor)@,
                name@,
                signal,
                mut_ref_current(c)@,
                mut_ref_current(s)@,
                mut_ref_future(c)@,
                mut_ref_future(s)@,
                final(compositor)@,
            ) && handed_out(
                old(compositor).spec_seat(name@),
                mut_ref_current(s),
                mut_ref_current(h),
            ) && put_back(
                final(compositor).spec_seat(mut_ref_future(s)@.name),
                mut_ref_future(s),
                mut_ref_future(h),
                signal,
            ) && mut_ref_current(c).spec_is_shutting_down() == old(
                compositor,
            ).spec_is_shutting_down() && final(compositor).spec_is_shutting_down()
                == mut_ref_future(c).spec_is_shutting_down(),
        delivered && signal == SeatSignal::TouchGrabBegin ==> exists|
            h: &mut H,
            c: &mut Compositor<H>,
            s: &mut Seat<H>,
        | #[trigger]
            call_ensures(H::touch_grabbed, (h, c, s), ()) && bracketed(
                old(compositor)@,
                name@,
                signal,
                mut_ref_current(c)@,
                mut_ref_current(s)@,
                mut_ref_future(c)@,
                mut_ref_future(s)@,
                final(compositor)@,
            ) && handed_out(
                old(compositor).spec_seat(name@),
                mut_ref_current(s),
                mut_ref_current(h),
            ) && put_back(
                final(compositor).spec_seat(mut_ref_future(s)@.name),
                mut_ref_future(s),
                mut_ref_future(h),
                signal,
            ) && mut_ref_current(c).spec_is_shutting_down() == old(
                compositor,
            ).spec_is_shutting_down() && final(compositor).spec_is_shutting_down()
                == mut_ref_future(c).spec_is_shutting_down(),
        delivered && signal == SeatSignal::TouchGrabEnd ==> exists|
            h: &mut H,
            c: &mut Compositor<H>,
            s: &mut Seat<H>,
        | #[trigger]
            call_ensures(H::touch_released, (h, c, s), ()) && bracketed(
                old(compositor)@,
                name@,
                signal,
                mut_ref_current(c)@,
                mut_ref_current(s)@,
                mut_ref_future(c)@,
                mut_ref_future(s)@,
                final(compositor)@,
            ) && handed_out(
                old(compositor).spec_seat(name@),
                mut_ref_current(s),
                mut_ref_current(h),
            ) && put_back(
                final(compositor).spec_seat(mut_ref_future(s)@.name),
                mut_ref_future(s),
                mut_ref_future(h),
                signal,
            ) && mut_ref_current(c).spec_is_shutting_down() == old(
                compositor,
            ).spec_is_shutting_down() && final(compositor).spec_is_shutting_down()
                == mut_ref_future(c).spec_is_shutting_down(),
        delivered && signal == SeatSignal::RequestSetCursor ==> exists|
            h: &mut H,
            c: &mut Compositor<H>,
            s: &mut Seat<H>,
        | #[trigger]
            call_ensures(H::cursor_set, (h, c, s), ()) && bracketed(
                old(compositor)@,
                name@,
                signal,
                mut_ref_current(c)@,
                mut_ref_current(s)@,
                mut_ref_future(c)@,
                mut_ref_future(s)@,
                final(compositor)@,
            ) && handed_out(
                old(compositor).spec_seat(name@),
                mut_ref_current(s),
                mut_ref_current(h),
            ) && put_back(
                final(compositor).spec_seat(mut_ref_future(s)@.name),
                mut_ref_future(s),
                mut_ref_future(h),
                signal,
            ) && mut_ref_current(c).spec_is_shutting_down() == old(
                compositor,
            ).spec_is_shutting_down() && final(compositor).spec_is_shutting_down()
                == mut_ref_future(c).spec_is_shutting_down(),
        delivered && signal == SeatSignal::Selection ==> exists|
            h: &mut H,
            c: &mut Compositor<H>,
            s: &mut Seat<H>,
        | #[trigger]
            call_ensures(H::received_selection, (h, c, s), ()) && bracketed(
                old(compositor)@,
                name@,
                signal,
                mut_ref_current(c)@,
                mut_ref_current(s)@,
                mut_ref_future(c)@,
                mut_ref_future(s)@,
                final(compositor)@,
            ) && handed_out(
                old(compositor).spec_seat(name@),
                mut_ref_current(s),
                mut_ref_current(h),
            ) && put_back(
                final(compositor).spec_seat(mut_ref_future(s)@.name),
                mut_ref_future(s),
                mut_ref_future(h),
                signal,
            ) && mut_ref_current(c).spec_is_shutting_down() == old(
                compositor,
            ).spec_is_shutting_down() && final(compositor).spec_is_shutting_down()
                == mut_ref_future(c).spec_is_shutting_down(),
        delivered && signal == SeatSignal::PrimarySelection ==> exists|
            h: &mut H,
            c: &mut Compositor<H>,
            s: &mut Seat<H>,
        | #[trigger]
            call_ensures(H::primary_selection, (h, c, s), ()) && bracketed(
                old(compositor)@,
                name@,
                signal,
                mut_ref_current(c)@,
                mut_ref_current(s)@,
                mut_ref_future(c)@,
                mut_ref_future(s)@,
                final(compositor)@,
            ) && handed_out(
                old(compositor).spec_seat(name@),
                mut_ref_current(s),
                mut_ref_current(h),
            ) && put_back(
                final(compositor).spec_seat(mut_ref_future(s)@.name),
                mut_ref_future(s),
                mut_ref_future(h),
                signal,
            ) && mut_ref_current(c).spec_is_shutting_down() == old(
                compositor,
            ).spec_is_shutting_down() && final(compositor).spec_is_shutting_down()
                == mut_ref_future(c).spec_is_shutting_down(),
        delivered && signal == SeatSignal::Destroy ==> exists|
            h: &mut H,
            c: &mut Compositor<H>,
            s: &mut Seat<H>,
        | #[trigger]
            call_ensures(H::destroy, (h, c, s), ()) && bracketed(
                old(compositor)@,
                name@,
                signal,
                mut_ref_current(c)@,
                mut_ref_current(s)@,
                mut_ref_future(c)@,
                mut_ref_future(s)@,
                final(compositor)@,
            ) && handed_out(
                old(compositor).spec_seat(name@),
                mut_ref_current(s),
                mut_ref_current(h),
            ) && put_back(
                final(compositor).spec_seat(mut_ref_future(s)@.name),
                mut_ref_future(s),
                mut_ref_future(h),
                signal,
            ) && mut_ref_current(c).spec_is_shutting_down() == old(
                compositor,
            ).spec_is_shutting_down() && final(compositor).spec_is_shutting_down()
                == mut_ref_future(c).spec_is_shutting_down(),
{
    if matches!(signal, SeatSignal::Destroy) && compositor.is_shutting_down() {
        return false;
    }
    match compositor.take_seat(name) {
        None => false,
        Some(mut seat) => {
            match seat.take_handler() {
                None => {
                    compositor.replace_seat(seat);
                    assert(compositor@ =~= old(compositor)@);
                    false
                },
                Some(mut handler) => {
                    match signal {
                        SeatSignal::PointerGrabBegin => handler.pointer_grabbed(
                            compositor,
                            &mut seat,
                        ),
                        SeatSignal::PointerGrabEnd => handler.pointer_released(
                            compositor,
                            &mut seat,
                        ),
                        SeatSignal::KeyboardGrabBegin => handler.keyboard_grabbed(
                            compositor,
                            &mut seat,
                        ),
                        SeatSignal::KeyboardGrabEnd => handler.keyboard_released(
                            compositor,
                            &mut seat,
                        ),
                        SeatSignal::TouchGrabBegin => handler.touch_grabbed(compositor, &mut seat),
                        SeatSignal::TouchGrabEnd => handler.touch_released(compositor, &mut seat),
                        SeatSignal::RequestSetCursor => handler.cursor_set(compositor, &mut seat),
                        SeatSignal::Selection => handler.received_selection(compositor, &mut seat),
                        SeatSignal::PrimarySelection => handler.primary_selection(
                            compositor,
                            &mut seat,
                        ),
                        SeatSignal::Destroy => handler.destroy(compositor, &mut seat),
                    }
                    let ghost back = seat@.concluded(signal);
                    conclude(compositor, seat, handler, signal);
                    assert(restored(compositor@, back));
                    true
                },
            }
        },
    }
}

} // verus!
