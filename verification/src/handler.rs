//! The callbacks through which a seat's owner learns of lifecycle signals.

use crate::compositor::Compositor;
use crate::seat::Seat;
use vstd::prelude::*;

verus! {

/// The lifecycle callbacks of a seat. Every method does nothing unless it
/// is overridden: it leaves registry and seat as they are.
///
/// A callback runs while the seat is out of the compositor's registry and
/// holds no handler: the references it is given are the only way to the
/// seat for as long as it runs, and no other callback of the seat can start
/// under it. [`crate::compositor::dispatch`] proves both before each call.
pub trait SeatHandler: Sized {
    /// A pointer grab started.
    #[allow(unused_variables)]
    fn pointer_grabbed(&mut self, compositor: &mut Compositor<Self>, seat: &mut Seat<Self>)
        requires
            !old(compositor)@.contains_key(old(seat)@.name),
            !old(seat)@.handler,
        default_ensures
            final(compositor)@ == old(compositor)@,
            final(compositor).spec_is_shutting_down() == old(compositor).spec_is_shutting_down(),
            final(seat)@ == old(seat)@,
            final(seat).holds_as(old(seat)),
    {
    }

    /// A pointer grab ended.
    #[allow(unused_variables)]
    fn pointer_released(&mut self, compositor: &mut Compositor<Self>, seat: &mut Seat<Self>)
        requires
            !old(compositor)@.contains_key(old(seat)@.name),
            !old(seat)@.handler,
        default_ensures
            final(compositor)@ == old(compositor)@,
            final(compositor).spec_is_shutting_down() == old(compositor).spec_is_shutting_down(),
            final(seat)@ == old(seat)@,
            final(seat).holds_as(old(seat)),
    {
    }

    /// A keyboard grab started.
    #[allow(unused_variables)]
    fn keyboard_grabbed(&mut self, compositor: &mut Compositor<Self>, seat: &mut Seat<Self>)
        requires
            !old(compositor)@.contains_key(old(seat)@.name),
            !old(seat)@.handler,
        default_ensures
            final(compositor)@ == old(compositor)@,
            final(compositor).spec_is_shutting_down() == old(compositor).spec_is_shutting_down(),
            final(seat)@ == old(seat)@,
            final(seat).holds_as(old(seat)),
    {
    }

    /// A keyboard grab ended.
    #[allow(unused_variables)]
    fn keyboard_released(&mut self, compositor: &mut Compositor<Self>, seat: &mut Seat<Self>)
        requires
            !old(compositor)@.contains_key(old(seat)@.name),
            !old(seat)@.handler,
        default_ensures
            final(compositor)@ == old(compositor)@,
            final(compositor).spec_is_shutting_down() == old(compositor).spec_is_shutting_down(),
            final(seat)@ == old(seat)@,
            final(seat).holds_as(old(seat)),
    {
    }

    /// A touch grab started.
    #[allow(unused_variables)]
    fn touch_grabbed(&mut self, compositor: &mut Compositor<Self>, seat: &mut Seat<Self>)
        requires
            !old(compositor)@.contains_key(old(seat)@.name),
            !old(seat)@.handler,
        default_ensures
            final(compositor)@ == old(compositor)@,
            final(compositor).spec_is_shutting_down() == old(compositor).spec_is_shutting_down(),
            final(seat)@ == old(seat)@,
            final(seat).holds_as(old(seat)),
    {
    }

    /// A touch grab ended.
    #[allow(unused_variables)]
    fn touch_released(&mut self, compositor: &mut Compositor<Self>, seat: &mut Seat<Self>)
        requires
            !old(compositor)@.contains_key(old(seat)@.name),
            !old(seat)@.handler,
        default_ensures
            final(compositor)@ == old(compositor)@,
            final(compositor).spec_is_shutting_down() == old(compositor).spec_is_shutting_down(),
            final(seat)@ == old(seat)@,
            final(seat).holds_as(old(seat)),
    {
    }

    /// A client asked for another cursor image.
    #[allow(unused_variables)]
    fn cursor_set(&mut self, compositor: &mut Compositor<Self>, seat: &mut Seat<Self>)
        requires
            !old(compositor)@.contains_key(old(seat)@.name),
            !old(seat)@.handler,
        default_ensures
            final(compositor)@ == old(compositor)@,
            final(compositor).spec_is_shutting_down() == old(compositor).spec_is_shutting_down(),
            final(seat)@ == old(seat)@,
            final(seat).holds_as(old(seat)),
    {
    }

    /// A client offered the seat a selection.
    #[allow(unused_variables)]
    fn received_selection(&mut self, compositor: &mut Compositor<Self>, seat: &mut Seat<Self>)
        requires
            !old(compositor)@.contains_key(old(seat)@.name),
            !old(seat)@.handler,
        default_ensures
            final(compositor)@ == old(compositor)@,
            final(compositor).spec_is_shutting_down() == old(compositor).spec_is_shutting_down(),
            final(seat)@ == old(seat)@,
            final(seat).holds_as(old(seat)),
    {
    }

    /// A client offered the seat a selection from the primary buffer.
    #[allow(unused_variables)]
    fn primary_selection(&mut self, compositor: &mut Compositor<Self>, seat: &mut Seat<Self>)
        requires
            !old(compositor)@.contains_key(old(seat)@.name),
            !old(seat)@.handler,
        default_ensures
            final(compositor)@ == old(compositor)@,
            final(compositor).spec_is_shutting_down() == old(compositor).spec_is_shutting_down(),
            final(seat)@ == old(seat)@,
            final(seat).holds_as(old(seat)),
    {
    }

    /// The seat is being destroyed.
    #[allow(unused_variables)]
    fn destroy(&mut self, compositor: &mut Compositor<Self>, seat: &mut Seat<Self>)
        requires
            !old(compositor)@.contains_key(old(seat)@.name),
            !old(seat)@.handler,
        default_ensures
            final(compositor)@ == old(compositor)@,
            final(compositor).spec_is_shutting_down() == old(compositor).spec_is_shutting_down(),
            final(seat)@ == old(seat)@,
            final(seat).holds_as(old(seat)),
    {
    }
}

} // verus!
