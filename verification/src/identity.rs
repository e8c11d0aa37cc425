//! Identities of machines on the control network.
use vstd::prelude::*;

verus! {

/// Vendor identifier of QiTech machines.
pub const VENDOR_QITECH: u16 = 0x0001;

/// Machine identifier of the QiTech laser (diameter measurement) machine, version 1.
pub const MACHINE_LASER_V1: u16 = 0x0006;

/// Machine identifier of the QiTech extruder, version 2.
pub const MACHINE_EXTRUDER_V2: u16 = 0x0016;

/// Serial number under which the network shim registers itself.
pub const NETWORK_SHIM_SERIAL: u16 = 0xB001;

/// The kind of a machine: who built it and which model it is.
#[derive(Clone, Copy, Debug, PartialEq, Eq, Structural)]
pub struct MachineIdentification {
    pub vendor: u16,
    pub machine: u16,
}

/// One concrete machine: its kind and its serial number.
#[derive(Clone, Copy, Debug, PartialEq, Eq, Structural)]
pub struct MachineIdentificationUnique {
    pub machine_identification: MachineIdentification,
    pub serial: u16,
}

/// The identity under which the network shim presents itself: a QiTech extruder (version 2)
/// with the shim's own serial number.
pub open spec fn spec_network_shim_uid() -> MachineIdentificationUnique {
    MachineIdentificationUnique {
        machine_identification: MachineIdentification {
            vendor: VENDOR_QITECH,
            machine: MACHINE_EXTRUDER_V2,
        },
        serial: NETWORK_SHIM_SERIAL,
    }
}

/// Whether a machine is a QiTech laser machine, the only kind that may serve as the
/// reference for pressure control.
pub open spec fn spec_is_qitech_laser(uid: MachineIdentificationUnique) -> bool {
    uid.machine_identification.vendor == VENDOR_QITECH
        && uid.machine_identification.machine == MACHINE_LASER_V1
}

/// The identity of the network shim.
pub fn network_shim_uid() -> (uid: MachineIdentificationUnique)
    ensures
        uid == spec_network_shim_uid(),
{
    MachineIdentificationUnique {
        machine_identification: MachineIdentification {
            vendor: VENDOR_QITECH,
            machine: MACHINE_EXTRUDER_V2,
        },
        serial: NETWORK_SHIM_SERIAL,
    }
}

/// Whether `uid` names a QiTech laser machine.
pub fn is_qitech_laser(uid: &MachineIdentificationUnique) -> (r: bool)
    ensures
        r == spec_is_qitech_laser(*uid),
{
    uid.machine_identification.vendor == VENDOR_QITECH
        && uid.machine_identification.machine == MACHINE_LASER_V1
}


/// The shim presents itself as a QiTech extruder, not a laser, so it never qualifies as
/// its own reference; a machine qualifies exactly when its vendor is QiTech and its model
/// the laser, whatever its serial number.
pub proof fn law_laser_check(uid: MachineIdentificationUnique, serial: u16)
    ensures
        !spec_is_qitech_laser(spec_network_shim_uid()),
        spec_network_shim_uid().serial == 0xB001,
        spec_is_qitech_laser(uid) == spec_is_qitech_laser(MachineIdentificationUnique { serial, ..uid }),
        spec_is_qitech_laser(uid) ==> uid.machine_identification.vendor == 0x0001
            && uid.machine_identification.machine == 0x0006,
        uid.machine_identification.vendor != 0x0001 ==> !spec_is_qitech_laser(uid),
{
}

} // verus!
