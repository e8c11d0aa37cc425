//! The discrete state of the network shim: its mode, how it regulates the screw, which
//! laser machine pressure control follows, and whether the first state event after a
//! subscription has gone out. Each operation is an exact transition, stated by a spec
//! function of the same name; what the shim does with numbers (targets, pressure
//! samples, controller gains) happens around these transitions.
use vstd::prelude::*;

use crate::identity::{MachineIdentificationUnique, is_qitech_laser, spec_is_qitech_laser};
use crate::mode::{ExtruderV2Mode, infer_mode_from_cache, spec_infer_mode};
use crate::mutation::{
    JsonKind, Mutation, MutationField, classify_mutation, law_regulation_request_carries_its_value,
    spec_classify_mutation,
};
use crate::mode::law_infer_mode_cases;

verus! {

/// The discrete state of the network shim.
#[derive(Clone, Copy, Debug, PartialEq, Eq, Structural)]
pub struct ShimState {
    /// The mode the extruder is in, as far as the shim knows.
    pub mode: ExtruderV2Mode,
    /// Whether the screw is regulated by speed (`true`) or by pressure (`false`).
    pub uses_rpm: bool,
    /// The laser machine whose measurement pressure control waits for.
    pub laser_reference_machine: Option<MachineIdentificationUnique>,
    /// Whether that laser last reported its measurement within tolerance.
    pub laser_in_tolerance: bool,
    /// Whether a state event has gone out since the last namespace subscription.
    pub emitted_default_state: bool,
}

/// How a change of the laser reference is carried out: which subscription is dropped
/// and which is taken, through the main thread.
#[derive(Clone, Copy, Debug, PartialEq, Eq, Structural)]
pub enum LaserReferencePlan {
    /// The requested reference is the current one: nothing to do.
    Unchanged,
    /// Drop `unsubscribe` and take `subscribe` (each only where there is one and the
    /// shim has a channel to the main thread), then make the request the reference.
    Change {
        unsubscribe: Option<MachineIdentificationUnique>,
        subscribe: Option<MachineIdentificationUnique>,
    },
}

/// Why a laser reference is refused.
#[derive(Clone, Copy, Debug, PartialEq, Eq, Structural)]
pub enum LaserReferenceError {
    /// The requested machine is no QiTech laser.
    NotQitechLaser,
}

impl LaserReferenceError {
    /// The message that explains the refusal.
    pub fn message(&self) -> (m: &'static str)
        ensures
            m@ == "Pressure control reference must be a QiTech laser machine"@,
    {
        "Pressure control reference must be a QiTech laser machine"
    }
}

impl ShimState {
    /// The state of a freshly started shim: standby, regulating by screw speed, no
    /// laser reference, and the default state not yet sent.
    pub open spec fn spec_initial() -> ShimState {
        ShimState {
            mode: ExtruderV2Mode::Standby,
            uses_rpm: true,
            laser_reference_machine: None,
            laser_in_tolerance: false,
            emitted_default_state: false,
        }
    }

    /// The state of a freshly started shim.
    pub fn new() -> (s: ShimState)
        ensures
            s == Self::spec_initial(),
    {
        ShimState {
            mode: ExtruderV2Mode::Standby,
            uses_rpm: true,
            laser_reference_machine: None,
            laser_in_tolerance: false,
            emitted_default_state: false,
        }
    }

    /// After a state event has been built.
    pub open spec fn after_state_event(self) -> ShimState {
        ShimState { emitted_default_state: true, ..self }
    }

    /// Marks that a state event goes out, and says whether it is the first one since the
    /// last namespace subscription (the "default state").
    pub fn take_is_default_state(&mut self) -> (is_default: bool)
        ensures
            is_default == !old(self).emitted_default_state,
            *final(self) == old(self).after_state_event(),
    {
        let is_default = !self.emitted_default_state;
        self.emitted_default_state = true;
        is_default
    }

    /// After a client subscribed to the shim's namespace.
    pub open spec fn after_subscribe_namespace(self) -> ShimState {
        ShimState { emitted_default_state: false, ..self }
    }

    /// A client subscribed to the shim's namespace: the next state event is a default state again.
    pub fn subscribe_namespace(&mut self)
        ensures
            *final(self) == old(self).after_subscribe_namespace(),
    {
        self.emitted_default_state = false;
    }

    /// Whether the inverter is reported as running (forward): exactly while extruding.
    pub open spec fn spec_inverter_running(self) -> bool {
        self.mode == ExtruderV2Mode::Extrude
    }

    /// Whether the inverter is reported as running (forward).
    pub fn inverter_running(&self) -> (r: bool)
        ensures
            r == self.spec_inverter_running(),
    {
        self.mode == ExtruderV2Mode::Extrude
    }

    /// After the mode has been checked against the live values: a shim in standby takes
    /// the mode that the live values show; any other mode stays.
    pub open spec fn after_auto_detect(self, drive_active: bool, tempering_active: bool) -> ShimState {
        if self.mode == ExtruderV2Mode::Standby {
            ShimState { mode: spec_infer_mode(drive_active, tempering_active), ..self }
        } else {
            self
        }
    }

    /// Checks the mode against the live values; says whether it changed.
    pub fn auto_detect_mode(&mut self, drive_active: bool, tempering_active: bool) -> (changed: bool)
        ensures
            *final(self) == old(self).after_auto_detect(drive_active, tempering_active),
            changed == (final(self).mode != old(self).mode),
    {
        if self.mode == ExtruderV2Mode::Standby {
            let inferred = infer_mode_from_cache(drive_active, tempering_active);
            if inferred != ExtruderV2Mode::Standby {
                self.mode = inferred;
                return true;
            }
        }
        false
    }

    /// Whether pressure regulation may run in this state: regulation by pressure while
    /// extruding. (It runs only where the target screw speed is positive as well.)
    pub open spec fn spec_pressure_regulation_selected(self) -> bool {
        !self.uses_rpm && self.mode == ExtruderV2Mode::Extrude
    }

    /// Whether pressure regulation may run in this state.
    pub fn pressure_regulation_selected(&self) -> (r: bool)
        ensures
            r == self.spec_pressure_regulation_selected(),
    {
        !self.uses_rpm && self.mode == ExtruderV2Mode::Extrude
    }

    /// After the laser reported whether its measurement is within tolerance.
    pub open spec fn after_laser_data(self, in_tolerance: bool) -> ShimState {
        ShimState { laser_in_tolerance: in_tolerance, ..self }
    }

    /// The laser reported whether its measurement is within tolerance.
    pub fn receive_laser_data(&mut self, in_tolerance: bool)
        ensures
            *final(self) == old(self).after_laser_data(in_tolerance),
    {
        self.laser_in_tolerance = in_tolerance;
    }

    /// After the main thread confirmed a subscription to `uid`.
    pub open spec fn after_subscribed_to_machine(self, uid: MachineIdentificationUnique) -> ShimState {
        ShimState { laser_reference_machine: Some(uid), ..self }
    }

    /// The main thread confirmed a subscription to `uid`: it is the laser reference now.
    pub fn subscribed_to_machine(&mut self, uid: MachineIdentificationUnique)
        ensures
            *final(self) == old(self).after_subscribed_to_machine(uid),
    {
        self.laser_reference_machine = Some(uid);
    }

    /// After the main thread confirmed that the subscription to `uid` ended: where `uid`
    /// was the reference, there is none and the laser counts as out of tolerance.
    pub open spec fn after_unsubscribed_from_machine(self, uid: MachineIdentificationUnique) -> ShimState {
        if self.laser_reference_machine == Some(uid) {
            ShimState { laser_reference_machine: None, laser_in_tolerance: false, ..self }
        } else {
            self
        }
    }

    /// The subscription to `uid` ended; says whether that dropped the laser reference.
    pub fn unsubscribed_from_machine(&mut self, uid: MachineIdentificationUnique) -> (dropped: bool)
        ensures
            *final(self) == old(self).after_unsubscribed_from_machine(uid),
            dropped == (old(self).laser_reference_machine == Some(uid)),
    {
        let is_reference = match self.laser_reference_machine {
            Some(current) => current == uid,
            None => false,
        };
        if is_reference {
            self.laser_reference_machine = None;
            self.laser_in_tolerance = false;
        }
        is_reference
    }

    /// How a request to follow `requested` (or no laser, for `None`) is carried out: it
    /// is refused unless it names a QiTech laser; it is nothing to do where it names the
    /// current reference; else the old subscription is dropped and the new one taken,
    /// both only through a channel to the main thread.
    pub open spec fn spec_plan_laser_reference(
        self,
        requested: Option<MachineIdentificationUnique>,
        has_main_sender: bool,
    ) -> Result<LaserReferencePlan, LaserReferenceError> {
        if requested matches Some(uid) && !spec_is_qitech_laser(uid) {
            Err(LaserReferenceError::NotQitechLaser)
        } else if self.laser_reference_machine == requested {
            Ok(LaserReferencePlan::Unchanged)
        } else {
            Ok(
                LaserReferencePlan::Change {
                    unsubscribe: if has_main_sender {
                        self.laser_reference_machine
                    } else {
                        None
                    },
                    subscribe: if has_main_sender {
                        requested
                    } else {
                        None
                    },
                },
            )
        }
    }

    /// How a request to follow `requested` is carried out.
    pub fn plan_laser_reference(
        &self,
        requested: Option<MachineIdentificationUnique>,
        has_main_sender: bool,
    ) -> (r: Result<LaserReferencePlan, LaserReferenceError>)
        ensures
            r == self.spec_plan_laser_reference(requested, has_main_sender),
    {
        if let Some(uid) = requested {
            if !is_qitech_laser(&uid) {
                return Err(LaserReferenceError::NotQitechLaser);
            }
        }
        let same = match (self.laser_reference_machine, requested) {
            (Some(a), Some(b)) => a == b,
            (None, None) => true,
            _ => false,
        };
        if same {
            return Ok(LaserReferencePlan::Unchanged);
        }
        Ok(
            LaserReferencePlan::Change {
                unsubscribe: if has_main_sender {
                    self.laser_reference_machine
                } else {
                    None
                },
                subscribe: if has_main_sender {
                    requested
                } else {
                    None
                },
            },
        )
    }

    /// After a planned change of the laser reference went through: the request is the
    /// reference and the laser counts as out of tolerance until it reports.
    pub open spec fn after_laser_reference(self, requested: Option<MachineIdentificationUnique>) -> ShimState {
        ShimState { laser_reference_machine: requested, laser_in_tolerance: false, ..self }
    }

    /// A planned change of the laser reference went through.
    pub fn commit_laser_reference(&mut self, requested: Option<MachineIdentificationUnique>)
        ensures
            *final(self) == old(self).after_laser_reference(requested),
    {
        self.laser_reference_machine = requested;
        self.laser_in_tolerance = false;
    }

    /// After a mutation request asked for `m`: a mode request sets the mode and a
    /// regulation request sets how the screw is regulated; the other commands concern
    /// numbers that the shim keeps around this state.
    pub open spec fn after_mutation(self, m: Mutation) -> ShimState {
        match m {
            Mutation::ExtruderMode(mode) => ShimState { mode, ..self },
            Mutation::Regulation(uses_rpm) => ShimState { uses_rpm, ..self },
            _ => self,
        }
    }

    /// Reads a mutation request with members `fields`, applies what it asks of this
    /// state, and says what it asked.
    pub fn apply_mutation(&mut self, fields: &Vec<MutationField>) -> (m: Mutation)
        ensures
            m == spec_classify_mutation(fields@, old(self).mode),
            *final(self) == old(self).after_mutation(m),
    {
        let m = classify_mutation(fields, self.mode);
        match m {
            Mutation::ExtruderMode(mode) => {
                self.mode = mode;
            },
            Mutation::Regulation(uses_rpm) => {
                self.uses_rpm = uses_rpm;
            },
            _ => {},
        }
        m
    }
}


/// The default state goes out exactly once per namespace subscription: the first state
/// event after a subscription is the default state, the next one is not.
pub proof fn law_default_state_once(s: ShimState)
    ensures
        !s.after_subscribe_namespace().emitted_default_state,
        s.after_subscribe_namespace().after_state_event().emitted_default_state,
{
}

/// Checking the mode against the live values only ever moves a shim out of standby, and
/// checking twice is checking once.
pub proof fn law_auto_detect_settles(s: ShimState, drive_active: bool, tempering_active: bool)
    ensures
        s.mode != ExtruderV2Mode::Standby ==> s.after_auto_detect(drive_active, tempering_active) == s,
        s.after_auto_detect(drive_active, tempering_active).after_auto_detect(drive_active, tempering_active)
            == s.after_auto_detect(drive_active, tempering_active),
{
}

/// Following a laser and then losing its subscription leaves the shim without a
/// reference and out of tolerance; asking again for the laser it follows is nothing to do.
pub proof fn law_laser_reference_round_trip(
    s: ShimState,
    uid: MachineIdentificationUnique,
    has_main_sender: bool,
)
    requires
        spec_is_qitech_laser(uid),
    ensures
        s.after_laser_reference(Some(uid)).spec_plan_laser_reference(Some(uid), has_main_sender)
            == Ok::<LaserReferencePlan, LaserReferenceError>(LaserReferencePlan::Unchanged),
        s.after_laser_reference(Some(uid)).after_unsubscribed_from_machine(uid).laser_reference_machine
            == None::<MachineIdentificationUnique>,
        !s.after_laser_reference(Some(uid)).after_unsubscribed_from_machine(uid).laser_in_tolerance,
        s.after_subscribed_to_machine(uid).after_unsubscribed_from_machine(uid).laser_reference_machine
            == None::<MachineIdentificationUnique>,
{
}

/// Losing the subscription to a machine that is not the reference changes nothing.
pub proof fn law_unsubscribe_other_is_noop(s: ShimState, uid: MachineIdentificationUnique)
    requires
        s.laser_reference_machine != Some(uid),
    ensures
        s.after_unsubscribed_from_machine(uid) == s,
{
}

/// Whatever the state, only a QiTech laser (or no laser) is accepted as the reference.
pub proof fn law_only_lasers_are_followed(
    s: ShimState,
    requested: Option<MachineIdentificationUnique>,
    has_main_sender: bool,
)
    ensures
        s.spec_plan_laser_reference(requested, has_main_sender) is Ok ==> (requested matches Some(u)
            ==> spec_is_qitech_laser(u)),
{
}

/// A changed reference drops exactly the old subscription and takes exactly the new one,
/// where the shim can reach the main thread.
pub proof fn law_change_swaps_subscriptions(
    s: ShimState,
    requested: Option<MachineIdentificationUnique>,
)
    requires
        s.laser_reference_machine != requested,
        requested matches Some(u) ==> spec_is_qitech_laser(u),
    ensures
        s.spec_plan_laser_reference(requested, true) == Ok::<LaserReferencePlan, LaserReferenceError>(
            LaserReferencePlan::Change { unsubscribe: s.laser_reference_machine, subscribe: requested },
        ),
        s.spec_plan_laser_reference(requested, false) == Ok::<LaserReferencePlan, LaserReferenceError>(
            LaserReferencePlan::Change { unsubscribe: None, subscribe: None },
        ),
{
}


/// A regulation request applies the boolean it carries: afterwards the shim regulates by
/// screw speed exactly when the request said `true`, and nothing else changes.
pub proof fn law_regulation_request_applied(s: ShimState, fields: Seq<MutationField>, i: int, b: bool)
    requires
        0 <= i < fields.len(),
        fields[i].key@ == "SetInverterRegulation"@,
        fields[i].value == JsonKind::Bool(b),
        forall|j: int| 0 <= j < i ==> fields[j].key@ != "SetInverterRegulation"@,
        forall|j: int|
            0 <= j < fields.len() ==> fields[j].key@ != "SetExtruderMode"@ && fields[j].key@
                != "SetInverterTargetRpm"@ && fields[j].key@ != "SetInverterTargetPressure"@,
    ensures
        s.after_mutation(spec_classify_mutation(fields, s.mode)).uses_rpm == b,
        s.after_mutation(spec_classify_mutation(fields, s.mode)) == (ShimState { uses_rpm: b, ..s }),
        !b && s.mode == ExtruderV2Mode::Extrude ==> s.after_mutation(
            spec_classify_mutation(fields, s.mode),
        ).spec_pressure_regulation_selected(),
        b ==> !s.after_mutation(spec_classify_mutation(fields, s.mode)).spec_pressure_regulation_selected(),
{
    law_regulation_request_carries_its_value(fields, s.mode, i, b);
}

/// A shim in standby takes exactly the mode that the live values show: extruding whenever
/// the drive runs, heating when only tempering runs, standby otherwise; it reports a change
/// exactly when it leaves standby. Nothing but the mode changes.
pub proof fn law_auto_detect_from_standby(s: ShimState, drive_active: bool, tempering_active: bool)
    requires
        s.mode == ExtruderV2Mode::Standby,
    ensures
        drive_active ==> s.after_auto_detect(drive_active, tempering_active).mode == ExtruderV2Mode::Extrude,
        !drive_active && tempering_active ==> s.after_auto_detect(drive_active, tempering_active).mode
            == ExtruderV2Mode::Heat,
        !drive_active && !tempering_active ==> s.after_auto_detect(drive_active, tempering_active)
            == s,
        s.after_auto_detect(drive_active, tempering_active) == (ShimState {
            mode: s.after_auto_detect(drive_active, tempering_active).mode,
            ..s
        }),
        (s.after_auto_detect(drive_active, tempering_active).mode != s.mode) == (drive_active
            || tempering_active),
{
    law_infer_mode_cases(drive_active, tempering_active);
}

/// Pressure regulation runs only while extruding and regulating by pressure: never in
/// standby, never while heating, never while regulating by screw speed; and it is
/// selected whenever the shim extrudes and regulates by pressure.
pub proof fn law_pressure_regulation_only_when_extruding(s: ShimState)
    ensures
        s.spec_pressure_regulation_selected() ==> s.mode == ExtruderV2Mode::Extrude,
        s.spec_pressure_regulation_selected() ==> !s.uses_rpm,
        s.mode == ExtruderV2Mode::Standby ==> !s.spec_pressure_regulation_selected(),
        s.mode == ExtruderV2Mode::Heat ==> !s.spec_pressure_regulation_selected(),
        s.mode == ExtruderV2Mode::Extrude && !s.uses_rpm ==> s.spec_pressure_regulation_selected(),
        !s.after_mutation(Mutation::ExtruderMode(ExtruderV2Mode::Standby)).spec_pressure_regulation_selected(),
        !s.after_mutation(Mutation::ExtruderMode(ExtruderV2Mode::Heat)).spec_pressure_regulation_selected(),
        !s.after_mutation(Mutation::Regulation(true)).spec_pressure_regulation_selected(),
{
}

/// The inverter is reported running exactly while extruding: not in standby, not while
/// only heating; and the report follows a mode request at once.
pub proof fn law_inverter_runs_only_when_extruding(s: ShimState)
    ensures
        s.spec_inverter_running() <==> s.mode == ExtruderV2Mode::Extrude,
        s.mode == ExtruderV2Mode::Heat ==> !s.spec_inverter_running(),
        s.mode == ExtruderV2Mode::Standby ==> !s.spec_inverter_running(),
        s.after_mutation(Mutation::ExtruderMode(ExtruderV2Mode::Extrude)).spec_inverter_running(),
        !s.after_mutation(Mutation::ExtruderMode(ExtruderV2Mode::Standby)).spec_inverter_running(),
        !s.after_mutation(Mutation::ExtruderMode(ExtruderV2Mode::Heat)).spec_inverter_running(),
{
}


/// The laser's report is taken as it is; losing the reference or changing it puts the
/// laser out of tolerance until it reports again; a confirmed subscription makes its
/// machine the reference. Only these fields change.
pub proof fn law_laser_tolerance_follows_reports(
    s: ShimState,
    in_tolerance: bool,
    uid: MachineIdentificationUnique,
    requested: Option<MachineIdentificationUnique>,
)
    ensures
        s.after_laser_data(in_tolerance).laser_in_tolerance == in_tolerance,
        s.after_laser_data(in_tolerance) == (ShimState { laser_in_tolerance: in_tolerance, ..s }),
        !s.after_laser_reference(requested).laser_in_tolerance,
        s.after_laser_reference(requested).laser_reference_machine == requested,
        s.after_laser_reference(requested).mode == s.mode,
        s.after_laser_reference(requested).uses_rpm == s.uses_rpm,
        s.after_subscribed_to_machine(uid).laser_reference_machine == Some(uid),
        s.after_subscribed_to_machine(uid).laser_in_tolerance == s.laser_in_tolerance,
        s.laser_reference_machine == Some(uid) ==> !s.after_unsubscribed_from_machine(uid).laser_in_tolerance,
{
}

/// A fresh shim is in standby, regulates by screw speed, follows no laser, and its first
/// state event is the default state.
pub proof fn law_initial_state()
    ensures
        ShimState::spec_initial().mode == ExtruderV2Mode::Standby,
        ShimState::spec_initial().uses_rpm,
        ShimState::spec_initial().laser_reference_machine == None::<MachineIdentificationUnique>,
        !ShimState::spec_initial().laser_in_tolerance,
        !ShimState::spec_initial().emitted_default_state,
        !ShimState::spec_initial().spec_pressure_regulation_selected(),
        !ShimState::spec_initial().spec_inverter_running(),
{
}

} // verus!
