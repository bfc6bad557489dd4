//! The seats of the session and the input devices it binds: one keyboard
//! and one pointer at most, whichever seats offer them.

use crate::lock::AppData;
use vstd::prelude::*;

verus! {

/// What a seat can offer.
#[derive(Debug, Clone, Copy, PartialEq, Eq, Structural)]
pub enum Capability {
    Keyboard,
    Pointer,
    Touch,
}

/// A seat and which of its devices the session has bound.
#[derive(Debug, Clone, Copy, PartialEq, Eq, Structural)]
pub struct SeatObject {
    pub seat: u32,
    pub keyboard: bool,
    pub pointer: bool,
}

/// Which device of a seat the caller has to bind, or to release.
#[derive(Debug, Clone, Copy, PartialEq, Eq, Structural)]
pub enum SeatAction {
    Nothing,
    Keyboard,
    Pointer,
}

/// The place of a seat among the seats that are known: that of its first
/// entry, or the place behind the last where it has none.
pub open spec fn seat_place(seats: Seq<SeatObject>, seat: u32) -> int
    decreases seats.len(),
{
    if seats.len() == 0 {
        0
    } else if seats[0].seat == seat {
        0
    } else {
        1 + seat_place(seats.skip(1), seat)
    }
}

/// The seats with the given seat among them: as they are where the seat has
/// an entry, else with a new entry behind the last, nothing bound.
pub open spec fn with_seat(seats: Seq<SeatObject>, seat: u32) -> Seq<SeatObject> {
    if seat_place(seats, seat) < seats.len() {
        seats
    } else {
        seats.push(SeatObject { seat, keyboard: false, pointer: false })
    }
}

/// The place of a seat lies within the seats or just behind them; within,
/// it is the first entry of that seat.
pub proof fn lemma_seat_place(seats: Seq<SeatObject>, seat: u32)
    ensures
        0 <= seat_place(seats, seat) <= seats.len(),
        seat_place(seats, seat) < seats.len() ==> seats[seat_place(seats, seat)].seat == seat,
        forall|j: int| 0 <= j < seat_place(seats, seat) ==> (#[trigger] seats[j]).seat != seat,
    decreases seats.len(),
{
    if seats.len() > 0 && seats[0].seat != seat {
        lemma_seat_place(seats.skip(1), seat);
        let p = seat_place(seats.skip(1), seat);
        assert forall|j: int| 0 <= j < 1 + p implies (#[trigger] seats[j]).seat != seat by {
            if j > 0 {
                assert(seats.skip(1)[j - 1] == seats[j]);
            }
        }
        if p < seats.skip(1).len() {
            assert(seats.skip(1)[p] == seats[p + 1]);
        }
    }
}

/// A seat has the place `i` where `i` is its first entry, or the end.
pub proof fn lemma_seat_place_is(seats: Seq<SeatObject>, seat: u32, i: int)
    requires
        0 <= i <= seats.len(),
        i < seats.len() ==> seats[i].seat == seat,
        forall|j: int| 0 <= j < i ==> (#[trigger] seats[j]).seat != seat,
    ensures
        seat_place(seats, seat) == i,
{
    lemma_seat_place(seats, seat);
    let p = seat_place(seats, seat);
    if p < i {
        assert(seats[p].seat != seat);
    }
}

impl AppData {
    /// The device that a new capability of a seat has the session bind: a
    /// keyboard while the session has none, a pointer while it has none.
    pub open spec fn binding(self, capability: Capability) -> SeatAction {
        if capability == Capability::Keyboard && self.keyboard is None {
            SeatAction::Keyboard
        } else if capability == Capability::Pointer && self.pointer is None {
            SeatAction::Pointer
        } else {
            SeatAction::Nothing
        }
    }

    /// A seat offers a capability. The seat is known from now on. The
    /// session binds the first keyboard and the first pointer that any
    /// seat offers, and no other.
    pub fn new_capability(&mut self, seat: u32, capability: Capability) -> (r: SeatAction)
        ensures
            r == old(self).binding(capability),
            final(self).exit == old(self).exit,
            final(self).error == old(self).error,
            final(self).settings == old(self).settings,
            final(self).username == old(self).username,
            final(self).session_lock == old(self).session_lock,
            final(self).renderers == old(self).renderers,
            final(self).modifiers == old(self).modifiers,
            final(self).keyboard == if r is Keyboard {
                Some(seat)
            } else {
                old(self).keyboard
            },
            final(self).pointer == if r is Pointer {
                Some(seat)
            } else {
                old(self).pointer
            },
            ({
                let seats = with_seat(old(self).seat_objects@, seat);
                let i = seat_place(old(self).seat_objects@, seat);
                final(self).seat_objects@ == seats.update(
                    i,
                    SeatObject {
                        seat,
                        keyboard: seats[i].keyboard || r is Keyboard,
                        pointer: seats[i].pointer || r is Pointer,
                    },
                )
            }),
    {
        let ghost before = self.seat_objects@;
        let mut i: usize = 0;
        while i < self.seat_objects.len()
            invariant
                i <= self.seat_objects.len(),
                self.seat_objects@ == before,
                forall|j: int| 0 <= j < i ==> (#[trigger] before[j]).seat != seat,
            ensures
                i <= self.seat_objects.len(),
                self.seat_objects@ == before,
                forall|j: int| 0 <= j < i ==> (#[trigger] before[j]).seat != seat,
                i < self.seat_objects.len() ==> before[i as int].seat == seat,
            decreases self.seat_objects.len() - i,
        {
            if self.seat_objects[i].seat == seat {
                break ;
            }
            i = i + 1;
        }
        proof {
            lemma_seat_place_is(before, seat, i as int);
        }
        if i == self.seat_objects.len() {
            self.seat_objects.push(SeatObject { seat, keyboard: false, pointer: false });
        }
        let seat_object = self.seat_objects[i];
        assert(seat_object == with_seat(before, seat)[i as int]);
        assert(seat_object.seat == seat);
        let action = if capability == Capability::Keyboard && self.keyboard.is_none() {
            self.keyboard = Some(seat);
            SeatAction::Keyboard
        } else if capability == Capability::Pointer && self.pointer.is_none() {
            self.pointer = Some(seat);
            SeatAction::Pointer
        } else {
            SeatAction::Nothing
        };
        let keyboard = seat_object.keyboard || action == SeatAction::Keyboard;
        let pointer = seat_object.pointer || action == SeatAction::Pointer;
        self.seat_objects.set(i, SeatObject { seat, keyboard, pointer });
        action
    }

    /// The device that the loss of a capability has the session release:
    /// the keyboard or the pointer that it had bound.
    pub open spec fn releasing(self, capability: Capability) -> SeatAction {
        if capability == Capability::Keyboard && self.keyboard is Some {
            SeatAction::Keyboard
        } else if capability == Capability::Pointer && self.pointer is Some {
            SeatAction::Pointer
        } else {
            SeatAction::Nothing
        }
    }

    /// A seat lost a capability: the session lets go of the device of that
    /// kind, if it had bound one.
    pub fn remove_capability(&mut self, capability: Capability) -> (r: SeatAction)
        ensures
            r == old(self).releasing(capability),
            *final(self) == (AppData {
                keyboard: if r is Keyboard {
                    None
                } else {
                    old(self).keyboard
                },
                pointer: if r is Pointer {
                    None
                } else {
                    old(self).pointer
                },
                ..*old(self)
            }),
    {
        if capability == Capability::Keyboard && self.keyboard.is_some() {
            self.keyboard = None;
            SeatAction::Keyboard
        } else if capability == Capability::Pointer && self.pointer.is_some() {
            self.pointer = None;
            SeatAction::Pointer
        } else {
            SeatAction::Nothing
        }
    }
}

/// At most one keyboard and one pointer: a session that has bound a
/// keyboard binds no second one, whichever seat offers it, and likewise
/// for the pointer.
pub proof fn law_one_keyboard_one_pointer(app: AppData, capability: Capability)
    ensures
        app.keyboard is Some ==> !(app.binding(capability) is Keyboard),
        app.pointer is Some ==> !(app.binding(capability) is Pointer),
{
}

} // verus!
