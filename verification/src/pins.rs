//! The pin-resource registry: exclusive access to the hardware pin roles.
//!
//! A small closed set of logical roles maps to mutually distinct physical
//! pin numbers.  Each role carries one exclusive-access guard, held for
//! the minimum span of a single electrical transaction, and the last
//! commanded output level, which persists until the next explicit
//! command.  The registry is constructed once and passed to every
//! component that touches hardware; the electrical driving itself happens
//! outside the library, against the `PinCommand` values issued here.

use vstd::prelude::*;

verus! {

/// The closed set of logical pin roles.
#[derive(Clone, Copy, Debug, PartialEq, Eq, Hash, Structural)]
pub enum PinRole {
    Sensor,
    Heater,
    Humidifier,
    Indicator1,
    Indicator2,
    Indicator3,
}

/// The physical pin number of each role.
pub open spec fn spec_pin_number(role: PinRole) -> u8 {
    match role {
        PinRole::Sensor => 2,
        PinRole::Heater => 4,
        PinRole::Humidifier => 17,
        PinRole::Indicator1 => 22,
        PinRole::Indicator2 => 10,
        PinRole::Indicator3 => 27,
    }
}

/// Maps a role to its physical pin number.
pub fn pin_number(role: PinRole) -> (n: u8)
    ensures
        n == spec_pin_number(role),
{
    match role {
        PinRole::Sensor => 2,
        PinRole::Heater => 4,
        PinRole::Humidifier => 17,
        PinRole::Indicator1 => 22,
        PinRole::Indicator2 => 10,
        PinRole::Indicator3 => 27,
    }
}

/// Distinct roles always map to distinct physical pins, so no two roles
/// can ever fight over one pin.
pub proof fn lemma_pin_numbers_distinct(a: PinRole, b: PinRole)
    ensures
        a != b ==> spec_pin_number(a) != spec_pin_number(b),
{
}

/// The status indicator selected by a one-based index, as the front
/// panel numbers them; any other index selects nothing.
pub fn indicator_role(index: u8) -> (r: Option<PinRole>)
    ensures
        index == 1 ==> r == Some(PinRole::Indicator1),
        index == 2 ==> r == Some(PinRole::Indicator2),
        index == 3 ==> r == Some(PinRole::Indicator3),
        !(1 <= index <= 3) ==> r is None,
{
    match index {
        1 => Some(PinRole::Indicator1),
        2 => Some(PinRole::Indicator2),
        3 => Some(PinRole::Indicator3),
        _ => None,
    }
}

/// One role's entry in the registry: whether its guard is held, and the
/// last commanded output level.
#[derive(Clone, Copy, Debug, PartialEq, Eq, Structural)]
pub struct PinSlot {
    pub held: bool,
    pub level: bool,
}

/// One electrical command for the layer that drives the hardware: set
/// the pin with this number, configured as an output, to this level.
#[derive(Clone, Copy, Debug, PartialEq, Eq, Structural)]
pub struct PinCommand {
    pub pin: u8,
    pub level: bool,
}

/// The process-wide registry: one slot per role.
#[derive(Clone, Copy, Debug, PartialEq, Eq, Structural)]
pub struct PinRegistry {
    pub sensor: PinSlot,
    pub heater: PinSlot,
    pub humidifier: PinSlot,
    pub indicator1: PinSlot,
    pub indicator2: PinSlot,
    pub indicator3: PinSlot,
}

/// The slot a role owns.
pub open spec fn spec_slot(reg: PinRegistry, role: PinRole) -> PinSlot {
    match role {
        PinRole::Sensor => reg.sensor,
        PinRole::Heater => reg.heater,
        PinRole::Humidifier => reg.humidifier,
        PinRole::Indicator1 => reg.indicator1,
        PinRole::Indicator2 => reg.indicator2,
        PinRole::Indicator3 => reg.indicator3,
    }
}

/// The registry with one role's slot replaced and every other slot kept.
pub open spec fn spec_with_slot(reg: PinRegistry, role: PinRole, slot: PinSlot) -> PinRegistry {
    match role {
        PinRole::Sensor => PinRegistry { sensor: slot, ..reg },
        PinRole::Heater => PinRegistry { heater: slot, ..reg },
        PinRole::Humidifier => PinRegistry { humidifier: slot, ..reg },
        PinRole::Indicator1 => PinRegistry { indicator1: slot, ..reg },
        PinRole::Indicator2 => PinRegistry { indicator2: slot, ..reg },
        PinRole::Indicator3 => PinRegistry { indicator3: slot, ..reg },
    }
}

/// Acquiring a role's guard: succeeds exactly when nobody holds it, and
/// never touches another role's slot.
pub open spec fn spec_try_acquire(reg: PinRegistry, role: PinRole) -> (PinRegistry, bool) {
    if spec_slot(reg, role).held {
        (reg, false)
    } else {
        (spec_with_slot(reg, role, PinSlot { held: true, ..spec_slot(reg, role) }), true)
    }
}

impl PinRegistry {
    /// A fresh registry: no guard held, every pin commanded off.
    pub fn new() -> (reg: PinRegistry)
        ensures
            forall|role: PinRole|
                spec_slot(reg, role) == (PinSlot { held: false, level: false }),
    {
        PinRegistry {
            sensor: PinSlot { held: false, level: false },
            heater: PinSlot { held: false, level: false },
            humidifier: PinSlot { held: false, level: false },
            indicator1: PinSlot { held: false, level: false },
            indicator2: PinSlot { held: false, level: false },
            indicator3: PinSlot { held: false, level: false },
        }
    }

    /// Tries to take a role's guard for one electrical transaction:
    /// succeeds exactly when the guard is free, and leaves every other
    /// slot untouched.
    pub fn try_acquire(&mut self, role: PinRole) -> (ok: bool)
        ensures
            (*final(self), ok) == spec_try_acquire(*old(self), role),
            ok <==> !spec_slot(*old(self), role).held,
            spec_slot(*final(self), role).held,
    {
        match role {
            PinRole::Sensor => {
                if self.sensor.held {
                    false
                } else {
                    self.sensor.held = true;
                    true
                }
            },
            PinRole::Heater => {
                if self.heater.held {
                    false
                } else {
                    self.heater.held = true;
                    true
                }
            },
            PinRole::Humidifier => {
                if self.humidifier.held {
                    false
                } else {
                    self.humidifier.held = true;
                    true
                }
            },
            PinRole::Indicator1 => {
                if self.indicator1.held {
                    false
                } else {
                    self.indicator1.held = true;
                    true
                }
            },
            PinRole::Indicator2 => {
                if self.indicator2.held {
                    false
                } else {
                    self.indicator2.held = true;
                    true
                }
            },
            PinRole::Indicator3 => {
                if self.indicator3.held {
                    false
                } else {
                    self.indicator3.held = true;
                    true
                }
            },
        }
    }

    /// Releases a role's guard; the commanded level persists.
    pub fn release(&mut self, role: PinRole)
        ensures
            *final(self) == spec_with_slot(
                *old(self),
                role,
                (PinSlot { held: false, level: spec_slot(*old(self), role).level }),
            ),
    {
        match role {
            PinRole::Sensor => self.sensor.held = false,
            PinRole::Heater => self.heater.held = false,
            PinRole::Humidifier => self.humidifier.held = false,
            PinRole::Indicator1 => self.indicator1.held = false,
            PinRole::Indicator2 => self.indicator2.held = false,
            PinRole::Indicator3 => self.indicator3.held = false,
        }
    }

    /// Records the commanded output level of a role's pin.  The caller
    /// must hold the guard: every pin access happens under the lock.
    pub fn set_level(&mut self, role: PinRole, on: bool)
        requires
            spec_slot(*old(self), role).held,
        ensures
            *final(self) == spec_with_slot(*old(self), role, (PinSlot { held: true, level: on })),
    {
        match role {
            PinRole::Sensor => self.sensor.level = on,
            PinRole::Heater => self.heater.level = on,
            PinRole::Humidifier => self.humidifier.level = on,
            PinRole::Indicator1 => self.indicator1.level = on,
            PinRole::Indicator2 => self.indicator2.level = on,
            PinRole::Indicator3 => self.indicator3.level = on,
        }
    }

    /// Whether a role's guard is currently held.
    pub open spec fn holds(self, role: PinRole) -> bool {
        spec_slot(self, role).held
    }

    /// The last commanded output level of a role's pin.
    pub open spec fn level(self, role: PinRole) -> bool {
        spec_slot(self, role).level
    }
}

/// Mutual exclusion of the pin guards: an acquisition succeeds exactly
/// when the role's guard is free; after a successful acquisition a
/// second acquisition of the same role fails until the guard is
/// released; and an acquisition never disturbs any other role's slot.
pub proof fn lemma_pin_lock_exclusive(reg: PinRegistry, role: PinRole)
    ensures
        spec_try_acquire(reg, role).1 <==> !spec_slot(reg, role).held,
        spec_try_acquire(reg, role).1 ==> !spec_try_acquire(
            spec_try_acquire(reg, role).0,
            role,
        ).1,
        forall|other: PinRole|
            other != role ==> #[trigger] spec_slot(spec_try_acquire(reg, role).0, other)
                == spec_slot(reg, other),
{
    let after = spec_try_acquire(reg, role).0;
    assert forall|other: PinRole|
        other != role implies #[trigger] spec_slot(spec_try_acquire(reg, role).0, other)
        == spec_slot(reg, other) by {
        lemma_slot_frame(reg, role, spec_slot(after, role), other);
    }
}

/// Replacing one role's slot leaves every other role's slot as it was.
proof fn lemma_slot_frame(reg: PinRegistry, role: PinRole, slot: PinSlot, other: PinRole)
    requires
        other != role,
    ensures
        spec_slot(spec_with_slot(reg, role, slot), other) == spec_slot(reg, other),
{
}

} // verus!
