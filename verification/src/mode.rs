//! Operating modes of the extruder behind the shim.
use vstd::prelude::*;

use crate::text::str_eq;

verus! {

/// The operating mode of the extruder.
#[derive(Clone, Copy, Debug, PartialEq, Eq, Structural)]
pub enum ExtruderV2Mode {
    Standby,
    Heat,
    Extrude,
}

/// The mode that the live values show: extruding while the drive runs, heating while
/// only tempering runs, standby otherwise.
pub open spec fn spec_infer_mode(drive_active: bool, tempering_active: bool) -> ExtruderV2Mode {
    if drive_active {
        ExtruderV2Mode::Extrude
    } else if tempering_active {
        ExtruderV2Mode::Heat
    } else {
        ExtruderV2Mode::Standby
    }
}

/// The mode that the live values show.
pub fn infer_mode_from_cache(drive_active: bool, tempering_active: bool) -> (m: ExtruderV2Mode)
    ensures
        m == spec_infer_mode(drive_active, tempering_active),
{
    if drive_active {
        ExtruderV2Mode::Extrude
    } else if tempering_active {
        ExtruderV2Mode::Heat
    } else {
        ExtruderV2Mode::Standby
    }
}

/// The mode that a request names: `Standby`, `Heat` or `Extrude`; any other name leaves
/// the mode at `current`.
pub open spec fn spec_mode_from_name(name: Seq<char>, current: ExtruderV2Mode) -> ExtruderV2Mode {
    if name == "Standby"@ {
        ExtruderV2Mode::Standby
    } else if name == "Heat"@ {
        ExtruderV2Mode::Heat
    } else if name == "Extrude"@ {
        ExtruderV2Mode::Extrude
    } else {
        current
    }
}

/// The mode that a request names, or `current` where the name is unknown.
pub fn mode_from_name(name: &str, current: ExtruderV2Mode) -> (m: ExtruderV2Mode)
    ensures
        m == spec_mode_from_name(name@, current),
{
    if str_eq(name, "Standby") {
        ExtruderV2Mode::Standby
    } else if str_eq(name, "Heat") {
        ExtruderV2Mode::Heat
    } else if str_eq(name, "Extrude") {
        ExtruderV2Mode::Extrude
    } else {
        current
    }
}


/// The live values decide the mode by the drive first: whenever the drive runs the
/// extruder extrudes, whatever the heaters do; with the drive off it heats exactly while
/// tempering runs, and is in standby otherwise.
pub proof fn law_infer_mode_cases(drive_active: bool, tempering_active: bool)
    ensures
        drive_active ==> spec_infer_mode(drive_active, tempering_active) == ExtruderV2Mode::Extrude,
        !drive_active && tempering_active ==> spec_infer_mode(drive_active, tempering_active)
            == ExtruderV2Mode::Heat,
        !drive_active && !tempering_active ==> spec_infer_mode(drive_active, tempering_active)
            == ExtruderV2Mode::Standby,
        (spec_infer_mode(drive_active, tempering_active) == ExtruderV2Mode::Extrude) == drive_active,
{
}

/// A known mode name decides the mode whatever the current mode is: `Standby` gives
/// standby, `Heat` heating and `Extrude` extruding; any other name keeps the current mode.
pub proof fn law_mode_name_decides(name: Seq<char>, current: ExtruderV2Mode, other: ExtruderV2Mode)
    ensures
        name == "Standby"@ ==> spec_mode_from_name(name, current) == ExtruderV2Mode::Standby,
        name == "Heat"@ ==> spec_mode_from_name(name, current) == ExtruderV2Mode::Heat,
        name == "Extrude"@ ==> spec_mode_from_name(name, current) == ExtruderV2Mode::Extrude,
        name != "Standby"@ && name != "Heat"@ && name != "Extrude"@ ==> spec_mode_from_name(
            name,
            current,
        ) == current,
        (name == "Standby"@ || name == "Heat"@ || name == "Extrude"@) ==> spec_mode_from_name(
            name,
            current,
        ) == spec_mode_from_name(name, other),
{
    reveal_strlit("Standby");
    reveal_strlit("Heat");
    reveal_strlit("Extrude");
    assert("Standby"@.len() != "Heat"@.len());
    assert("Extrude"@.len() != "Heat"@.len());
    assert("Standby"@ != "Extrude"@) by {
        assert("Standby"@[0] != "Extrude"@[0]);
    }
}

} // verus!
