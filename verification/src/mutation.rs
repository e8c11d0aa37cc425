//! Reading a mutation request: which of the commands that the shim tracks locally a
//! JSON object asks for. Every request is forwarded to the server whatever it holds;
//! this only decides what the shim updates in its own copy of the state.
use vstd::prelude::*;

use crate::mode::{ExtruderV2Mode, mode_from_name, spec_mode_from_name};
use crate::text::str_eq;

verus! {

/// The kind of a JSON value, with the parts that the commands read: the text of a
/// string and the truth value of a boolean.
pub enum JsonKind {
    Null,
    Bool(bool),
    Number,
    Str(String),
    Array,
    Object,
}

/// One member of a JSON object: its key and the kind of its value.
pub struct MutationField {
    pub key: String,
    pub value: JsonKind,
}

/// A heating zone of the extruder barrel.
#[derive(Clone, Copy, Debug, PartialEq, Eq, Structural)]
pub enum HeatingZone {
    Front,
    Middle,
    Back,
    Nozzle,
}

/// What a mutation request asks of the shim's local state. The `usize` is the position
/// of the member whose (numeric or arbitrary) value the command carries.
#[derive(Clone, Copy, Debug, PartialEq, Eq, Structural)]
pub enum Mutation {
    /// Nothing that the shim tracks.
    Unrecognized,
    /// Switch to this mode.
    ExtruderMode(ExtruderV2Mode),
    /// Regulate by this screw speed (a number).
    TargetRpm(usize),
    /// Regulate towards this pressure (a number).
    TargetPressure(usize),
    /// Regulate by screw speed (`true`) or by pressure (`false`).
    Regulation(bool),
    /// Tolerance within which the pressure must stay before pressure control starts (a number).
    StartTolerance(usize),
    /// The laser machine that pressure control waits for (any value; it is decoded later).
    LaserReference(usize),
    /// Target temperature of a heating zone (a number).
    HeatingTarget(HeatingZone, usize),
}

/// Whether `i` is the first member of `fields` with key `key`.
pub open spec fn is_first_field(fields: Seq<MutationField>, key: Seq<char>, i: int) -> bool {
    &&& 0 <= i < fields.len()
    &&& fields[i].key@ == key
    &&& forall|j: int| 0 <= j < i ==> fields[j].key@ != key
}

/// Whether some member of `fields` has key `key`.
pub open spec fn has_field(fields: Seq<MutationField>, key: Seq<char>) -> bool {
    exists|i: int| 0 <= i < fields.len() && fields[i].key@ == key
}

/// The position of the first member with key `key`.
pub open spec fn first_field(fields: Seq<MutationField>, key: Seq<char>) -> int {
    choose|i: int| is_first_field(fields, key, i)
}

/// The kind of the value of the first member with key `key`.
pub open spec fn field_value(fields: Seq<MutationField>, key: Seq<char>) -> JsonKind {
    fields[first_field(fields, key)].value
}

/// A command that carries a number at position `i`, or nothing if the value is no number.
pub open spec fn numeric(kind: JsonKind, m: Mutation) -> Mutation {
    match kind {
        JsonKind::Number => m,
        _ => Mutation::Unrecognized,
    }
}

/// A heating command for `zone` read from the member with key `key`, or nothing if its
/// value is no number.
pub open spec fn heating(fields: Seq<MutationField>, key: Seq<char>, zone: HeatingZone) -> Mutation {
    numeric(
        field_value(fields, key),
        Mutation::HeatingTarget(zone, first_field(fields, key) as usize),
    )
}

/// The key of the two that the middle (or nozzle) zone accepts: the first spelling
/// wherever it is present.
pub open spec fn either_key(fields: Seq<MutationField>, first: Seq<char>, second: Seq<char>) -> Seq<char> {
    if has_field(fields, first) {
        first
    } else {
        second
    }
}

/// What a request with members `fields` asks of a shim in mode `mode`. The commands are
/// looked for in a fixed order and the first one present decides, even where its value
/// has the wrong kind (the request then changes nothing locally).
pub open spec fn spec_classify_mutation(fields: Seq<MutationField>, mode: ExtruderV2Mode) -> Mutation {
    if has_field(fields, "SetExtruderMode"@) {
        match field_value(fields, "SetExtruderMode"@) {
            JsonKind::Str(name) => Mutation::ExtruderMode(spec_mode_from_name(name@, mode)),
            _ => Mutation::Unrecognized,
        }
    } else if has_field(fields, "SetInverterTargetRpm"@) {
        numeric(
            field_value(fields, "SetInverterTargetRpm"@),
            Mutation::TargetRpm(first_field(fields, "SetInverterTargetRpm"@) as usize),
        )
    } else if has_field(fields, "SetInverterTargetPressure"@) {
        numeric(
            field_value(fields, "SetInverterTargetPressure"@),
            Mutation::TargetPressure(first_field(fields, "SetInverterTargetPressure"@) as usize),
        )
    } else if has_field(fields, "SetInverterRegulation"@) {
        match field_value(fields, "SetInverterRegulation"@) {
            JsonKind::Bool(b) => Mutation::Regulation(b),
            _ => Mutation::Unrecognized,
        }
    } else if has_field(fields, "SetPressureControlStartTolerance"@) {
        numeric(
            field_value(fields, "SetPressureControlStartTolerance"@),
            Mutation::StartTolerance(first_field(fields, "SetPressureControlStartTolerance"@) as usize),
        )
    } else if has_field(fields, "SetPressureControlLaserReference"@) {
        Mutation::LaserReference(first_field(fields, "SetPressureControlLaserReference"@) as usize)
    } else if has_field(fields, "SetFrontHeatingTargetTemperature"@) {
        heating(fields, "SetFrontHeatingTargetTemperature"@, HeatingZone::Front)
    } else if has_field(fields, "SetMiddleHeatingTemperature"@) || has_field(
        fields,
        "SetMiddleHeatingTargetTemperature"@,
    ) {
        heating(
            fields,
            either_key(fields, "SetMiddleHeatingTemperature"@, "SetMiddleHeatingTargetTemperature"@),
            HeatingZone::Middle,
        )
    } else if has_field(fields, "SetBackHeatingTargetTemperature"@) {
        heating(fields, "SetBackHeatingTargetTemperature"@, HeatingZone::Back)
    } else if has_field(fields, "SetNozzleHeatingTemperature"@) || has_field(
        fields,
        "SetNozzleHeatingTargetTemperature"@,
    ) {
        heating(
            fields,
            either_key(fields, "SetNozzleHeatingTemperature"@, "SetNozzleHeatingTargetTemperature"@),
            HeatingZone::Nozzle,
        )
    } else {
        Mutation::Unrecognized
    }
}

/// The position of the first member with key `key`, if any.
pub fn find_field(fields: &Vec<MutationField>, key: &str) -> (r: Option<usize>)
    ensures
        match r {
            Some(i) => is_first_field(fields@, key@, i as int),
            None => !has_field(fields@, key@),
        },
{
    let mut i: usize = 0;
    while i < fields.len()
        invariant
            i <= fields@.len(),
            forall|j: int| 0 <= j < i ==> fields@[j].key@ != key@,
        decreases fields@.len() - i,
    {
        if str_eq(fields[i].key.as_str(), key) {
            return Some(i);
        }
        i = i + 1;
    }
    None
}

/// Two first positions of one key are the same position.
pub proof fn lemma_first_field_unique(fields: Seq<MutationField>, key: Seq<char>, i: int)
    requires
        is_first_field(fields, key, i),
    ensures
        has_field(fields, key),
        first_field(fields, key) == i,
{
    let k = first_field(fields, key);
    assert(is_first_field(fields, key, k));
    if k < i {
        assert(fields[k].key@ != key);
    } else if i < k {
        assert(fields[i].key@ != key);
    }
}

/// A numeric command built from the member at position `i`.
fn numeric_at(fields: &Vec<MutationField>, i: usize, m: Mutation) -> (r: Mutation)
    requires
        i < fields@.len(),
    ensures
        r == numeric(fields@[i as int].value, m),
{
    match fields[i].value {
        JsonKind::Number => m,
        _ => Mutation::Unrecognized,
    }
}

/// What the request with members `fields` asks of a shim in mode `mode`.
pub fn classify_mutation(fields: &Vec<MutationField>, mode: ExtruderV2Mode) -> (r: Mutation)
    ensures
        r == spec_classify_mutation(fields@, mode),
{
    let f = fields;
    if let Some(i) = find_field(f, "SetExtruderMode") {
        proof { lemma_first_field_unique(f@, "SetExtruderMode"@, i as int); }
        return match &f[i].value {
            JsonKind::Str(name) => Mutation::ExtruderMode(mode_from_name(name.as_str(), mode)),
            _ => Mutation::Unrecognized,
        };
    }
    if let Some(i) = find_field(f, "SetInverterTargetRpm") {
        proof { lemma_first_field_unique(f@, "SetInverterTargetRpm"@, i as int); }
        return numeric_at(f, i, Mutation::TargetRpm(i));
    }
    if let Some(i) = find_field(f, "SetInverterTargetPressure") {
        proof { lemma_first_field_unique(f@, "SetInverterTargetPressure"@, i as int); }
        return numeric_at(f, i, Mutation::TargetPressure(i));
    }
    if let Some(i) = find_field(f, "SetInverterRegulation") {
        proof { lemma_first_field_unique(f@, "SetInverterRegulation"@, i as int); }
        return match f[i].value {
            JsonKind::Bool(b) => Mutation::Regulation(b),
            _ => Mutation::Unrecognized,
        };
    }
    if let Some(i) = find_field(f, "SetPressureControlStartTolerance") {
        proof { lemma_first_field_unique(f@, "SetPressureControlStartTolerance"@, i as int); }
        return numeric_at(f, i, Mutation::StartTolerance(i));
    }
    if let Some(i) = find_field(f, "SetPressureControlLaserReference") {
        proof { lemma_first_field_unique(f@, "SetPressureControlLaserReference"@, i as int); }
        return Mutation::LaserReference(i);
    }
    if let Some(i) = find_field(f, "SetFrontHeatingTargetTemperature") {
        proof { lemma_first_field_unique(f@, "SetFrontHeatingTargetTemperature"@, i as int); }
        return numeric_at(f, i, Mutation::HeatingTarget(HeatingZone::Front, i));
    }
    if let Some(i) = find_field(f, "SetMiddleHeatingTemperature") {
        proof { lemma_first_field_unique(f@, "SetMiddleHeatingTemperature"@, i as int); }
        return numeric_at(f, i, Mutation::HeatingTarget(HeatingZone::Middle, i));
    }
    if let Some(i) = find_field(f, "SetMiddleHeatingTargetTemperature") {
        proof { lemma_first_field_unique(f@, "SetMiddleHeatingTargetTemperature"@, i as int); }
        return numeric_at(f, i, Mutation::HeatingTarget(HeatingZone::Middle, i));
    }
    if let Some(i) = find_field(f, "SetBackHeatingTargetTemperature") {
        proof { lemma_first_field_unique(f@, "SetBackHeatingTargetTemperature"@, i as int); }
        return numeric_at(f, i, Mutation::HeatingTarget(HeatingZone::Back, i));
    }
    if let Some(i) = find_field(f, "SetNozzleHeatingTemperature") {
        proof { lemma_first_field_unique(f@, "SetNozzleHeatingTemperature"@, i as int); }
        return numeric_at(f, i, Mutation::HeatingTarget(HeatingZone::Nozzle, i));
    }
    if let Some(i) = find_field(f, "SetNozzleHeatingTargetTemperature") {
        proof { lemma_first_field_unique(f@, "SetNozzleHeatingTargetTemperature"@, i as int); }
        return numeric_at(f, i, Mutation::HeatingTarget(HeatingZone::Nozzle, i));
    }
    Mutation::Unrecognized
}


/// A request whose first command is a regulation request with a boolean carries that
/// boolean: `true` asks for regulation by screw speed, `false` for regulation by pressure.
pub proof fn law_regulation_request_carries_its_value(
    fields: Seq<MutationField>,
    mode: ExtruderV2Mode,
    i: int,
    b: bool,
)
    requires
        0 <= i < fields.len(),
        fields[i].key@ == "SetInverterRegulation"@,
        fields[i].value == JsonKind::Bool(b),
        forall|j: int| 0 <= j < i ==> fields[j].key@ != "SetInverterRegulation"@,
        forall|j: int|
            0 <= j < fields.len() ==> fields[j].key@ != "SetExtruderMode"@ && fields[j].key@
                != "SetInverterTargetRpm"@ && fields[j].key@ != "SetInverterTargetPressure"@,
    ensures
        spec_classify_mutation(fields, mode) == Mutation::Regulation(b),
{
    lemma_first_field_unique(fields, "SetInverterRegulation"@, i);
}

/// A request whose first member is a mode request naming a known mode asks for exactly
/// that mode, whatever mode the shim is in.
pub proof fn law_mode_request_names_the_mode(
    fields: Seq<MutationField>,
    mode: ExtruderV2Mode,
    name: String,
)
    requires
        fields.len() > 0,
        fields[0].key@ == "SetExtruderMode"@,
        fields[0].value == JsonKind::Str(name),
    ensures
        name@ == "Standby"@ ==> spec_classify_mutation(fields, mode) == Mutation::ExtruderMode(
            ExtruderV2Mode::Standby,
        ),
        name@ == "Heat"@ ==> spec_classify_mutation(fields, mode) == Mutation::ExtruderMode(
            ExtruderV2Mode::Heat,
        ),
        name@ == "Extrude"@ ==> spec_classify_mutation(fields, mode) == Mutation::ExtruderMode(
            ExtruderV2Mode::Extrude,
        ),
{
    lemma_first_field_unique(fields, "SetExtruderMode"@, 0);
    crate::mode::law_mode_name_decides(name@, mode, mode);
}


/// No member of `fields` has key `key`.
pub open spec fn lacks_key(fields: Seq<MutationField>, key: Seq<char>) -> bool {
    forall|j: int| 0 <= j < fields.len() ==> fields[j].key@ != key
}

/// Member `i` is the first one with key `key`.
pub open spec fn first_with_key(fields: Seq<MutationField>, key: Seq<char>, i: int) -> bool {
    &&& 0 <= i < fields.len()
    &&& fields[i].key@ == key
    &&& forall|j: int| 0 <= j < i ==> fields[j].key@ != key
}

/// A mode request decides the request whatever else it holds: where its value is no
/// string, the request asks nothing of the shim, even if later commands are present.
pub proof fn law_mode_request_comes_first(fields: Seq<MutationField>, mode: ExtruderV2Mode, i: int)
    requires
        first_with_key(fields, "SetExtruderMode"@, i),
        !(fields[i].value is Str),
    ensures
        spec_classify_mutation(fields, mode) == Mutation::Unrecognized,
{
    lemma_first_field_unique(fields, "SetExtruderMode"@, i);
}

/// Requests for a target speed, a target pressure or a start tolerance carry the position
/// of their number; where the value is no number they ask nothing.
pub proof fn law_numeric_requests_point_at_their_number(
    fields: Seq<MutationField>,
    mode: ExtruderV2Mode,
    i: int,
)
    requires
        lacks_key(fields, "SetExtruderMode"@),
    ensures
        first_with_key(fields, "SetInverterTargetRpm"@, i) ==> spec_classify_mutation(fields, mode)
            == (if fields[i].value is Number {
            Mutation::TargetRpm(i as usize)
        } else {
            Mutation::Unrecognized
        }),
        lacks_key(fields, "SetInverterTargetRpm"@) && first_with_key(
            fields,
            "SetInverterTargetPressure"@,
            i,
        ) ==> spec_classify_mutation(fields, mode) == (if fields[i].value is Number {
            Mutation::TargetPressure(i as usize)
        } else {
            Mutation::Unrecognized
        }),
        lacks_key(fields, "SetInverterTargetRpm"@) && lacks_key(fields, "SetInverterTargetPressure"@)
            && lacks_key(fields, "SetInverterRegulation"@) && first_with_key(
            fields,
            "SetPressureControlStartTolerance"@,
            i,
        ) ==> spec_classify_mutation(fields, mode) == (if fields[i].value is Number {
            Mutation::StartTolerance(i as usize)
        } else {
            Mutation::Unrecognized
        }),
{
    if first_with_key(fields, "SetInverterTargetRpm"@, i) {
        lemma_first_field_unique(fields, "SetInverterTargetRpm"@, i);
    }
    if first_with_key(fields, "SetInverterTargetPressure"@, i) {
        lemma_first_field_unique(fields, "SetInverterTargetPressure"@, i);
    }
    if first_with_key(fields, "SetPressureControlStartTolerance"@, i) {
        lemma_first_field_unique(fields, "SetPressureControlStartTolerance"@, i);
    }
}

/// The commands before the laser reference in the order of lookup.
pub open spec fn lacks_commands_before_reference(fields: Seq<MutationField>) -> bool {
    &&& lacks_key(fields, "SetExtruderMode"@)
    &&& lacks_key(fields, "SetInverterTargetRpm"@)
    &&& lacks_key(fields, "SetInverterTargetPressure"@)
    &&& lacks_key(fields, "SetInverterRegulation"@)
    &&& lacks_key(fields, "SetPressureControlStartTolerance"@)
}

/// A laser reference request carries the position of its value, whatever its kind.
pub proof fn law_reference_request_points_at_its_value(
    fields: Seq<MutationField>,
    mode: ExtruderV2Mode,
    i: int,
)
    requires
        lacks_commands_before_reference(fields),
        first_with_key(fields, "SetPressureControlLaserReference"@, i),
    ensures
        spec_classify_mutation(fields, mode) == Mutation::LaserReference(i as usize),
{
    lemma_first_field_unique(fields, "SetPressureControlLaserReference"@, i);
}

/// A heating request sets the zone it names and carries the position of its number; the
/// middle and nozzle zones take the short spelling of their key before the long one.
pub proof fn law_heating_requests_name_their_zone(
    fields: Seq<MutationField>,
    mode: ExtruderV2Mode,
    i: int,
)
    requires
        lacks_commands_before_reference(fields),
        lacks_key(fields, "SetPressureControlLaserReference"@),
        fields[i].value is Number,
    ensures
        first_with_key(fields, "SetFrontHeatingTargetTemperature"@, i) ==> spec_classify_mutation(
            fields,
            mode,
        ) == Mutation::HeatingTarget(HeatingZone::Front, i as usize),
        lacks_key(fields, "SetFrontHeatingTargetTemperature"@) && first_with_key(
            fields,
            "SetMiddleHeatingTemperature"@,
            i,
        ) ==> spec_classify_mutation(fields, mode) == Mutation::HeatingTarget(
            HeatingZone::Middle,
            i as usize,
        ),
        lacks_key(fields, "SetFrontHeatingTargetTemperature"@) && lacks_key(
            fields,
            "SetMiddleHeatingTemperature"@,
        ) && first_with_key(fields, "SetMiddleHeatingTargetTemperature"@, i)
            ==> spec_classify_mutation(fields, mode) == Mutation::HeatingTarget(
            HeatingZone::Middle,
            i as usize,
        ),
        lacks_key(fields, "SetFrontHeatingTargetTemperature"@) && lacks_key(
            fields,
            "SetMiddleHeatingTemperature"@,
        ) && lacks_key(fields, "SetMiddleHeatingTargetTemperature"@) && first_with_key(
            fields,
            "SetBackHeatingTargetTemperature"@,
            i,
        ) ==> spec_classify_mutation(fields, mode) == Mutation::HeatingTarget(
            HeatingZone::Back,
            i as usize,
        ),
        lacks_key(fields, "SetFrontHeatingTargetTemperature"@) && lacks_key(
            fields,
            "SetMiddleHeatingTemperature"@,
        ) && lacks_key(fields, "SetMiddleHeatingTargetTemperature"@) && lacks_key(
            fields,
            "SetBackHeatingTargetTemperature"@,
        ) && first_with_key(fields, "SetNozzleHeatingTemperature"@, i) ==> spec_classify_mutation(
            fields,
            mode,
        ) == Mutation::HeatingTarget(HeatingZone::Nozzle, i as usize),
        lacks_key(fields, "SetFrontHeatingTargetTemperature"@) && lacks_key(
            fields,
            "SetMiddleHeatingTemperature"@,
        ) && lacks_key(fields, "SetMiddleHeatingTargetTemperature"@) && lacks_key(
            fields,
            "SetBackHeatingTargetTemperature"@,
        ) && lacks_key(fields, "SetNozzleHeatingTemperature"@) && first_with_key(
            fields,
            "SetNozzleHeatingTargetTemperature"@,
            i,
        ) ==> spec_classify_mutation(fields, mode) == Mutation::HeatingTarget(
            HeatingZone::Nozzle,
            i as usize,
        ),
{
    if first_with_key(fields, "SetFrontHeatingTargetTemperature"@, i) {
        lemma_first_field_unique(fields, "SetFrontHeatingTargetTemperature"@, i);
    }
    if first_with_key(fields, "SetMiddleHeatingTemperature"@, i) {
        lemma_first_field_unique(fields, "SetMiddleHeatingTemperature"@, i);
    }
    if first_with_key(fields, "SetMiddleHeatingTargetTemperature"@, i) {
        lemma_first_field_unique(fields, "SetMiddleHeatingTargetTemperature"@, i);
    }
    if first_with_key(fields, "SetBackHeatingTargetTemperature"@, i) {
        lemma_first_field_unique(fields, "SetBackHeatingTargetTemperature"@, i);
    }
    if first_with_key(fields, "SetNozzleHeatingTemperature"@, i) {
        lemma_first_field_unique(fields, "SetNozzleHeatingTemperature"@, i);
    }
    if first_with_key(fields, "SetNozzleHeatingTargetTemperature"@, i) {
        lemma_first_field_unique(fields, "SetNozzleHeatingTargetTemperature"@, i);
    }
}

/// A request that holds none of the commands asks nothing of the shim.
pub proof fn law_other_requests_ask_nothing(fields: Seq<MutationField>, mode: ExtruderV2Mode)
    requires
        lacks_commands_before_reference(fields),
        lacks_key(fields, "SetPressureControlLaserReference"@),
        lacks_key(fields, "SetFrontHeatingTargetTemperature"@),
        lacks_key(fields, "SetMiddleHeatingTemperature"@),
        lacks_key(fields, "SetMiddleHeatingTargetTemperature"@),
        lacks_key(fields, "SetBackHeatingTargetTemperature"@),
        lacks_key(fields, "SetNozzleHeatingTemperature"@),
        lacks_key(fields, "SetNozzleHeatingTargetTemperature"@),
    ensures
        spec_classify_mutation(fields, mode) == Mutation::Unrecognized,
{
}

} // verus!
