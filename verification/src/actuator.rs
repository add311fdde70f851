//! Actuator control: switching a named actuator on or off.
//!
//! Every level-set is serialized through the pin registry: the role's
//! guard is taken, the level is commanded, and the guard is released
//! before returning, so a set never overlaps a sensor transaction or
//! another set on the same role.  The commanded level persists until the
//! next explicit call — there is no implicit reset on release.  The
//! returned `PinCommand` is what the hardware layer must drive; a
//! failure to drive it surfaces there as `PinUnavailable` and is the
//! caller's to log and absorb.

use vstd::prelude::*;

use crate::pins::PinCommand;
use crate::pins::PinRegistry;
use crate::pins::PinRole;
use crate::pins::PinSlot;
use crate::pins::indicator_role;
use crate::pins::pin_number;
use crate::pins::spec_pin_number;
use crate::pins::spec_slot;
use crate::pins::spec_with_slot;

verus! {

/// The registry after one completed level-set on a role: the guard is
/// free again and the commanded level is recorded; no other slot moves.
pub open spec fn spec_after_set_state(reg: PinRegistry, role: PinRole, on: bool) -> PinRegistry {
    spec_with_slot(reg, role, PinSlot { held: false, level: on })
}

/// Sets a named actuator's pin to a level: takes the role's guard,
/// commands the level, releases the guard, and hands back the electrical
/// command for the hardware layer.  The pin is left in the commanded
/// state after the call.
pub fn set_state(reg: &mut PinRegistry, role: PinRole, on: bool) -> (cmd: PinCommand)
    requires
        !spec_slot(*old(reg), role).held,
    ensures
        *final(reg) == spec_after_set_state(*old(reg), role, on),
        cmd == (PinCommand { pin: spec_pin_number(role), level: on }),
{
    let _acquired = reg.try_acquire(role);
    reg.set_level(role, on);
    reg.release(role);
    PinCommand { pin: pin_number(role), level: on }
}

/// Commands the heater on.
pub fn turn_on_heating(reg: &mut PinRegistry) -> (cmd: PinCommand)
    requires
        !spec_slot(*old(reg), PinRole::Heater).held,
    ensures
        *final(reg) == spec_after_set_state(*old(reg), PinRole::Heater, true),
        cmd == (PinCommand { pin: spec_pin_number(PinRole::Heater), level: true }),
{
    set_state(reg, PinRole::Heater, true)
}

/// Commands the heater off.
pub fn turn_off_heating(reg: &mut PinRegistry) -> (cmd: PinCommand)
    requires
        !spec_slot(*old(reg), PinRole::Heater).held,
    ensures
        *final(reg) == spec_after_set_state(*old(reg), PinRole::Heater, false),
        cmd == (PinCommand { pin: spec_pin_number(PinRole::Heater), level: false }),
{
    set_state(reg, PinRole::Heater, false)
}

/// Commands the humidifier on.
pub fn turn_on_humidifier(reg: &mut PinRegistry) -> (cmd: PinCommand)
    requires
        !spec_slot(*old(reg), PinRole::Humidifier).held,
    ensures
        *final(reg) == spec_after_set_state(*old(reg), PinRole::Humidifier, true),
        cmd == (PinCommand { pin: spec_pin_number(PinRole::Humidifier), level: true }),
{
    set_state(reg, PinRole::Humidifier, true)
}

/// Commands the humidifier off.
pub fn turn_off_humidifier(reg: &mut PinRegistry) -> (cmd: PinCommand)
    requires
        !spec_slot(*old(reg), PinRole::Humidifier).held,
    ensures
        *final(reg) == spec_after_set_state(*old(reg), PinRole::Humidifier, false),
        cmd == (PinCommand { pin: spec_pin_number(PinRole::Humidifier), level: false }),
{
    set_state(reg, PinRole::Humidifier, false)
}

/// What an indicator command does: the named indicator's level-set and
/// electrical command, or nothing for an index outside 1 to 3.
pub open spec fn spec_led_result(reg: PinRegistry, index: u8, on: bool) -> (
    PinRegistry,
    Option<PinCommand>,
) {
    match indicator_of_index(index) {
        Some(role) => (
            spec_after_set_state(reg, role, on),
            Some(PinCommand { pin: spec_pin_number(role), level: on }),
        ),
        None => (reg, None),
    }
}

/// The indicator role a one-based index names, as the front panel
/// numbers them; any other index names none.
pub open spec fn indicator_of_index(index: u8) -> Option<PinRole> {
    if index == 1 {
        Some(PinRole::Indicator1)
    } else if index == 2 {
        Some(PinRole::Indicator2)
    } else if index == 3 {
        Some(PinRole::Indicator3)
    } else {
        None
    }
}

/// Commands the status indicator with a one-based index on; an index
/// outside 1 to 3 selects no indicator and changes nothing.
pub fn turn_on_led(reg: &mut PinRegistry, index: u8) -> (r: Option<PinCommand>)
    requires
        !spec_slot(*old(reg), PinRole::Indicator1).held,
        !spec_slot(*old(reg), PinRole::Indicator2).held,
        !spec_slot(*old(reg), PinRole::Indicator3).held,
    ensures
        (*final(reg), r) == spec_led_result(*old(reg), index, true),
        r is Some <==> 1 <= index <= 3,
{
    set_led(reg, index, true)
}

/// Commands the status indicator with a one-based index off; an index
/// outside 1 to 3 selects no indicator and changes nothing.
pub fn turn_off_led(reg: &mut PinRegistry, index: u8) -> (r: Option<PinCommand>)
    requires
        !spec_slot(*old(reg), PinRole::Indicator1).held,
        !spec_slot(*old(reg), PinRole::Indicator2).held,
        !spec_slot(*old(reg), PinRole::Indicator3).held,
    ensures
        (*final(reg), r) == spec_led_result(*old(reg), index, false),
        r is Some <==> 1 <= index <= 3,
{
    set_led(reg, index, false)
}

/// Shared body of the indicator commands.
fn set_led(reg: &mut PinRegistry, index: u8, on: bool) -> (r: Option<PinCommand>)
    requires
        !spec_slot(*old(reg), PinRole::Indicator1).held,
        !spec_slot(*old(reg), PinRole::Indicator2).held,
        !spec_slot(*old(reg), PinRole::Indicator3).held,
    ensures
        (*final(reg), r) == spec_led_result(*old(reg), index, on),
        r is Some <==> 1 <= index <= 3,
{
    match indicator_role(index) {
        Some(role) => {
            let cmd = set_state(reg, role, on);
            Some(cmd)
        },
        None => None,
    }
}

} // verus!
