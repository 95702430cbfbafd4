//! Several units and one mutex, step by step.
//!
//! A [`World`] is a mutex as its units see it at one instant: the lock state,
//! the payload, and where each unit stands. An [`Event`] is one step of one
//! unit: an atomic attempt, a write through the guard, or the release. The
//! steps of different units interleave in any order; [`World::run`] plays a
//! sequence of them.
//!
//! The lock state moves by [`LockState::spec_acquire`] and
//! [`LockState::spec_release`] alone, the transitions that the mutex itself
//! makes. A write and a release need a guard, and a guard comes only from an
//! attempt that won: the step of a unit without one changes nothing.
//!
//! Every step is taken to be seen by all units at once. On the machine that is
//! what the acquire ordering of the attempt and the release ordering of the
//! release are for.

use crate::lock_state::LockState;
use vstd::prelude::*;

verus! {

/// Where a unit stands with respect to the mutex.
pub enum Standing {
    /// It neither holds the mutex nor wants it.
    Outside,
    /// Its last attempt found the mutex locked; it will attempt again.
    Spinning,
    /// It holds the guard.
    Inside,
}

/// One step of one unit.
pub enum Event<T> {
    /// One atomic attempt, the body of the spin.
    Attempt { unit: int },
    /// A write to the payload through the guard.
    Write { unit: int, value: T },
    /// The destruction of the guard.
    Release { unit: int },
}

/// A mutex and its units at one instant.
pub struct World<T> {
    pub lock: LockState,
    pub payload: T,
    pub units: Seq<Standing>,
}

impl<T> World<T> {
    /// A mutex that was just made around `value`, before any of its `units`
    /// units has taken a step.
    pub open spec fn fresh(units: nat, value: T) -> World<T> {
        World {
            lock: LockState::Unlocked,
            payload: value,
            units: Seq::new(units, |unit: int| Standing::Outside),
        }
    }

    /// Whether `unit` is one of the units of this world.
    pub open spec fn has_unit(self, unit: int) -> bool {
        0 <= unit < self.units.len()
    }

    /// Whether `unit` is inside the critical section.
    pub open spec fn inside(self, unit: int) -> bool {
        self.has_unit(unit) && self.units[unit] is Inside
    }

    /// Whether any unit is inside the critical section.
    pub open spec fn occupied(self) -> bool {
        exists|unit: int| self.inside(unit)
    }

    /// The world after one attempt by `unit`. The lock is locked afterwards in
    /// any case. The unit is inside if the attempt won. If not, it goes on
    /// spinning; a unit that attempts the mutex it holds keeps its guard and
    /// can never win.
    pub open spec fn attempt(self, unit: int) -> World<T> {
        let (lock, won) = self.lock.spec_acquire();
        let standing = if won || self.units[unit] is Inside {
            Standing::Inside
        } else {
            Standing::Spinning
        };
        World { lock, payload: self.payload, units: self.units.update(unit, standing) }
    }

    /// The world after `unit` has written `value` through its guard.
    pub open spec fn write(self, unit: int, value: T) -> World<T> {
        World { lock: self.lock, payload: value, units: self.units }
    }

    /// The world after the guard of `unit` is gone.
    pub open spec fn release(self, unit: int) -> World<T> {
        World {
            lock: self.lock.spec_release(),
            payload: self.payload,
            units: self.units.update(unit, Standing::Outside),
        }
    }

    /// The world after one step. A step of a unit that this world does not
    /// have, and a write or a release by a unit that holds no guard, cannot
    /// happen and leave the world as it is.
    pub open spec fn step(self, event: Event<T>) -> World<T> {
        match event {
            Event::Attempt { unit } => if self.has_unit(unit) {
                self.attempt(unit)
            } else {
                self
            },
            Event::Write { unit, value } => if self.inside(unit) {
                self.write(unit, value)
            } else {
                self
            },
            Event::Release { unit } => if self.inside(unit) {
                self.release(unit)
            } else {
                self
            },
        }
    }

    /// The world after `events`, first to last.
    pub open spec fn run(self, events: Seq<Event<T>>) -> World<T>
        decreases events.len(),
    {
        if events.len() == 0 {
            self
        } else {
            self.run(events.drop_last()).step(events.last())
        }
    }

    /// What holds of a mutex at every instant: at most one unit is inside, and
    /// the lock is locked exactly while one is.
    pub open spec fn consistent(self) -> bool {
        &&& forall|a: int, b: int| self.inside(a) && self.inside(b) ==> a == b
        &&& self.lock is Locked <==> self.occupied()
    }
}

/// A fresh mutex is unlocked, with every unit outside.
pub proof fn fresh_is_consistent<T>(units: nat, value: T)
    ensures
        World::fresh(units, value).consistent(),
        World::fresh(units, value).lock is Unlocked,
        World::fresh(units, value).payload == value,
        !World::fresh(units, value).occupied(),
{
}

/// No step breaks what holds of a mutex, and none adds or removes a unit.
pub proof fn step_keeps_consistent<T>(world: World<T>, event: Event<T>)
    requires
        world.consistent(),
    ensures
        world.step(event).consistent(),
        world.step(event).units.len() == world.units.len(),
{
    let next = world.step(event);
    match event {
        Event::Attempt { unit } => {
            if world.has_unit(unit) {
                if world.lock is Unlocked {
                    assert forall|other: int| next.inside(other) implies other == unit by {
                        if other != unit {
                            assert(world.inside(other));
                        }
                    }
                    assert(next.inside(unit));
                } else {
                    let holder = choose|holder: int| world.inside(holder);
                    assert(next.inside(holder));
                    assert forall|other: int| next.inside(other) implies world.inside(other) by {}
                }
            }
        },
        Event::Write { unit, value } => {
            if world.inside(unit) {
                assert forall|other: int| next.inside(other) == world.inside(other) by {}
                assert(next.inside(unit));
            }
        },
        Event::Release { unit } => {
            if world.inside(unit) {
                assert forall|other: int| !next.inside(other) by {
                    if next.inside(other) {
                        assert(world.inside(other));
                    }
                }
            }
        },
    }
}

/// Whatever the units do, in whatever order, the mutex stays consistent.
pub proof fn run_keeps_consistent<T>(world: World<T>, events: Seq<Event<T>>)
    requires
        world.consistent(),
    ensures
        world.run(events).consistent(),
        world.run(events).units.len() == world.units.len(),
    decreases events.len(),
{
    if events.len() > 0 {
        run_keeps_consistent(world, events.drop_last());
        step_keeps_consistent(world.run(events.drop_last()), events.last());
    }
}

/// Mutual exclusion: after any sequence of attempts, writes and releases by
/// any number of units on a fresh mutex, at most one unit is inside the
/// critical section, and the lock is locked exactly if one is.
pub proof fn mutual_exclusion<T>(units: nat, value: T, events: Seq<Event<T>>, a: int, b: int)
    ensures
        ({
            let world = World::fresh(units, value).run(events);
            &&& world.inside(a) && world.inside(b) ==> a == b
            &&& world.lock is Locked <==> world.occupied()
        }),
{
    fresh_is_consistent(units, value);
    run_keeps_consistent(World::fresh(units, value), events);
}

/// An attempt on an unlocked mutex wins at once; an attempt by another unit
/// while one is inside observes locked, does not get in and leaves the holder
/// and the payload alone.
pub proof fn attempt_wins_exactly_when_unlocked<T>(world: World<T>, unit: int)
    requires
        world.consistent(),
        world.has_unit(unit),
        !world.inside(unit),
    ensures
        world.step(Event::Attempt { unit }).lock is Locked,
        world.step(Event::Attempt { unit }).payload == world.payload,
        world.step(Event::Attempt { unit }).inside(unit) <==> world.lock is Unlocked,
        forall|other: int|
            other != unit ==> (world.step(Event::Attempt { unit }).inside(other) <==> world.inside(
                other,
            )),
{
}

/// The release always ends in unlocked: however the holder got to the end of
/// its guard's scope, once the guard is gone the lock is unlocked, nobody is
/// inside, and the payload is what the holder left.
pub proof fn release_reaches_unlocked<T>(world: World<T>, unit: int)
    requires
        world.consistent(),
        world.inside(unit),
    ensures
        world.step(Event::Release { unit }).lock is Unlocked,
        !world.step(Event::Release { unit }).occupied(),
        world.step(Event::Release { unit }).payload == world.payload,
{
    step_keeps_consistent(world, Event::Release { unit });
}

/// The lock goes from locked to unlocked by the release of the holder and by
/// nothing else: no step of a unit that holds no guard unlocks.
pub proof fn only_the_holder_unlocks<T>(world: World<T>, event: Event<T>)
    requires
        world.consistent(),
        world.lock is Locked,
        world.step(event).lock is Unlocked,
    ensures
        event matches Event::Release { unit } && world.inside(unit),
{
}

/// The payload changes by a write of the holder and by nothing else.
pub proof fn only_the_holder_writes<T>(world: World<T>, event: Event<T>)
    requires
        world.step(event).payload != world.payload,
    ensures
        event matches Event::Write { unit, value } && world.inside(unit) && world.step(
            event,
        ).payload == value,
{
}

/// While the mutex is unlocked, nothing that the units do changes the payload
/// until one of them wins an attempt.
pub proof fn unlocked_payload_stays<T>(world: World<T>, events: Seq<Event<T>>)
    requires
        world.consistent(),
        world.lock is Unlocked,
        forall|i: int| 0 <= i < events.len() ==> !(events[i] is Attempt),
    ensures
        world.run(events).payload == world.payload,
        world.run(events).lock is Unlocked,
        world.run(events).units == world.units,
    decreases events.len(),
{
    if events.len() > 0 {
        let before = events.drop_last();
        unlocked_payload_stays(world, before);
        run_keeps_consistent(world, before);
        let reached = world.run(before);
        assert(!(events.last() is Attempt)) by {
            assert(events[events.len() - 1] == events.last());
        }
        assert(!reached.occupied());
        match events.last() {
            Event::Attempt { unit } => {},
            Event::Write { unit, value } => {
                assert(!reached.inside(unit));
            },
            Event::Release { unit } => {
                assert(!reached.inside(unit));
            },
        }
    }
}

/// Ordering: what unit `a` writes just before it releases is what unit `b`
/// finds when it next wins the mutex, whatever steps the units take in between
/// that are no attempts.
pub proof fn handoff_carries_the_write<T>(
    world: World<T>,
    a: int,
    value: T,
    between: Seq<Event<T>>,
    b: int,
)
    requires
        world.consistent(),
        world.inside(a),
        world.has_unit(b),
        a != b,
        forall|i: int| 0 <= i < between.len() ==> !(between[i] is Attempt),
    ensures
        ({
            let released = world.step(Event::Write { unit: a, value }).step(
                Event::Release { unit: a },
            );
            let acquired = released.run(between).step(Event::Attempt { unit: b });
            &&& acquired.inside(b)
            &&& !acquired.inside(a)
            &&& acquired.payload == value
        }),
{
    let written = world.step(Event::Write { unit: a, value });
    step_keeps_consistent(world, Event::Write { unit: a, value });
    assert(written.inside(a));
    let released = written.step(Event::Release { unit: a });
    release_reaches_unlocked(written, a);
    step_keeps_consistent(written, Event::Release { unit: a });
    unlocked_payload_stays(released, between);
    run_keeps_consistent(released, between);
    let waiting = released.run(between);
    assert(waiting.has_unit(b));
    assert(!waiting.inside(b)) by {
        if waiting.inside(b) {
            assert(waiting.occupied());
        }
    }
    attempt_wins_exactly_when_unlocked(waiting, b);
}

} // verus!
