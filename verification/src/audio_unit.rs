//! Audio processing units: switching their input and output on and off,
//! reading the buffer size they negotiated, and setting one up for the
//! default device of a scope.

use vstd::prelude::*;
use crate::default_device::get_default_device;
use crate::hal::{
    status_from_reply, word_from_reply, ComponentSubType, Exchange, HalReply, HalRequest, HalValue,
    Platform, UnitHandle,
};
use crate::object::{ObjectId, PropertyError, NO_ERR, SYSTEM_OBJECT};
use crate::scope::{PropertyScope, Scope};

verus! {

/// Property of an output unit: the device it is bound to.
pub const UNIT_PROPERTY_CURRENT_DEVICE: u32 = 2000;

/// Property of an output unit: whether a side of it is switched on.
pub const UNIT_PROPERTY_ENABLE_IO: u32 = 2003;

/// Property of an output unit: whether a side of it has input or output.
pub const UNIT_PROPERTY_HAS_IO: u32 = 2006;

/// Property of a unit: the size of its buffer in frames (`fsiz`).
pub const UNIT_PROPERTY_BUFFER_FRAME_SIZE: u32 = 0x6673_697a;

/// Scope code of a unit as a whole.
pub const UNIT_SCOPE_GLOBAL: u32 = 0;

/// Scope code of the input side of a unit.
pub const UNIT_SCOPE_INPUT: u32 = 1;

/// Scope code of the output side of a unit.
pub const UNIT_SCOPE_OUTPUT: u32 = 2;

/// The element of a unit that carries input.
pub const INPUT_BUS: u32 = 1;

/// The element of a unit that carries output.
pub const OUTPUT_BUS: u32 = 0;

/// The code of the side of a unit that a directional scope addresses.
pub open spec fn spec_unit_scope(scope: Scope) -> u32 {
    if scope == Scope::Input {
        UNIT_SCOPE_INPUT
    } else {
        UNIT_SCOPE_OUTPUT
    }
}

/// The element of a unit that a directional scope addresses.
pub open spec fn spec_unit_element(scope: Scope) -> u32 {
    if scope == Scope::Input {
        INPUT_BUS
    } else {
        OUTPUT_BUS
    }
}

/// The code of the side of a unit's signal path that a property scope names.
pub open spec fn spec_property_scope_code(scope: PropertyScope) -> u32 {
    match scope {
        PropertyScope::Input => UNIT_SCOPE_INPUT,
        PropertyScope::Output => UNIT_SCOPE_OUTPUT,
    }
}

/// Gives the code of the side of a unit that a directional scope addresses.
#[verifier::when_used_as_spec(spec_unit_scope)]
pub fn unit_scope(scope: Scope) -> (r: u32)
    requires
        scope.is_directional(),
    ensures
        r == spec_unit_scope(scope),
{
    match scope {
        Scope::Input => UNIT_SCOPE_INPUT,
        _ => UNIT_SCOPE_OUTPUT,
    }
}

/// Gives the element of a unit that a directional scope addresses.
#[verifier::when_used_as_spec(spec_unit_element)]
pub fn unit_element(scope: Scope) -> (r: u32)
    requires
        scope.is_directional(),
    ensures
        r == spec_unit_element(scope),
{
    match scope {
        Scope::Input => INPUT_BUS,
        _ => OUTPUT_BUS,
    }
}

/// Gives the code of the side of a unit's signal path that a property
/// scope names.
#[verifier::when_used_as_spec(spec_property_scope_code)]
pub fn property_scope_code(scope: PropertyScope) -> (r: u32)
    ensures
        r == spec_property_scope_code(scope),
{
    match scope {
        PropertyScope::Input => UNIT_SCOPE_INPUT,
        PropertyScope::Output => UNIT_SCOPE_OUTPUT,
    }
}

/// The value that switches a side of a unit on or off.
pub open spec fn switch_value(enabled: bool) -> u32 {
    if enabled {
        1
    } else {
        0
    }
}

/// The request that switches the `scope` side of `unit` on or off.
pub open spec fn switch_request(unit: UnitHandle, scope: Scope, enabled: bool) -> HalRequest {
    HalRequest::SetUnitWord {
        unit,
        selector: UNIT_PROPERTY_ENABLE_IO,
        scope: unit_scope(scope),
        element: unit_element(scope),
        value: switch_value(enabled),
    }
}

/// `steps` is the switching of the `scope` side of `unit`, with the
/// result `r`.
pub open spec fn enables(
    unit: UnitHandle,
    scope: Scope,
    enabled: bool,
    steps: Seq<Exchange>,
    r: Result<(), PropertyError>,
) -> bool {
    crate::hal::asked(steps, switch_request(unit, scope, enabled)) && r
        == crate::hal::status_outcome(steps[0].reply)
}

/// Switches the input or the output of a unit on or off, on the element
/// that carries that direction.
pub fn enable_scope<H: Fn(HalRequest) -> HalReply>(
    platform: &mut Platform<H>,
    unit: UnitHandle,
    scope: Scope,
    enabled: bool,
) -> (r: Result<(), PropertyError>)
    requires
        !unit.is_null(),
        scope.is_directional(),
    ensures
        final(platform).follows(old(platform)),
        enables(unit, scope, enabled, final(platform).since(old(platform)), r),
{
    let value: u32 = if enabled {
        1
    } else {
        0
    };
    let reply = platform.ask(
        HalRequest::SetUnitWord {
            unit,
            selector: UNIT_PROPERTY_ENABLE_IO,
            scope: unit_scope(scope),
            element: unit_element(scope),
            value,
        },
    );
    status_from_reply(&reply)
}

/// What the reply to a read of a side's switch means.
pub open spec fn switch_outcome(reply: HalReply) -> Result<bool, PropertyError> {
    match crate::hal::word_outcome(reply) {
        Ok(word) => Ok(word != 0),
        Err(e) => Err(e),
    }
}

/// `steps` is the question whether the `scope` side of `unit` has input
/// or output, with the result `r`.
pub open spec fn tells_enabled(
    unit: UnitHandle,
    scope: Scope,
    steps: Seq<Exchange>,
    r: Result<bool, PropertyError>,
) -> bool {
    crate::hal::asked(
        steps,
        HalRequest::GetUnitWord {
            unit,
            selector: UNIT_PROPERTY_HAS_IO,
            scope: unit_scope(scope),
            element: unit_element(scope),
        },
    ) && r == switch_outcome(steps[0].reply)
}

/// Tells whether the input or the output of a unit is switched on.
pub fn is_scope_enabled<H: Fn(HalRequest) -> HalReply>(
    platform: &mut Platform<H>,
    unit: UnitHandle,
    scope: Scope,
) -> (r: Result<bool, PropertyError>)
    requires
        !unit.is_null(),
        scope.is_directional(),
    ensures
        final(platform).follows(old(platform)),
        tells_enabled(unit, scope, final(platform).since(old(platform)), r),
{
    let reply = platform.ask(
        HalRequest::GetUnitWord {
            unit,
            selector: UNIT_PROPERTY_HAS_IO,
            scope: unit_scope(scope),
            element: unit_element(scope),
        },
    );
    match word_from_reply(&reply) {
        Ok(word) => Ok(word != 0),
        Err(e) => Err(e),
    }
}

/// `steps` is a read of the buffer size of `unit`, with the result `r`.
pub open spec fn negotiates(
    unit: UnitHandle,
    scope: Scope,
    property_scope: PropertyScope,
    steps: Seq<Exchange>,
    r: Result<u32, PropertyError>,
) -> bool {
    crate::hal::asked(
        steps,
        HalRequest::GetUnitWord {
            unit,
            selector: UNIT_PROPERTY_BUFFER_FRAME_SIZE,
            scope: property_scope_code(property_scope),
            element: unit_element(scope),
        },
    ) && r == crate::hal::word_outcome(steps[0].reply)
}

/// Reads the size in frames of the buffer that a unit negotiated.
///
/// `scope` picks the element, the one that carries input or the one that
/// carries output. `property_scope` picks the side of the unit's signal
/// path that is read. The two are independent of each other.
pub fn get_negotiated_buffer_size<H: Fn(HalRequest) -> HalReply>(
    platform: &mut Platform<H>,
    unit: UnitHandle,
    scope: Scope,
    property_scope: PropertyScope,
) -> (r: Result<u32, PropertyError>)
    requires
        scope.is_directional(),
    ensures
        final(platform).follows(old(platform)),
        negotiates(unit, scope, property_scope, final(platform).since(old(platform)), r),
{
    let reply = platform.ask(
        HalRequest::GetUnitWord {
            unit,
            selector: UNIT_PROPERTY_BUFFER_FRAME_SIZE,
            scope: property_scope_code(property_scope),
            element: unit_element(scope),
        },
    );
    word_from_reply(&reply)
}

/// What the reply to the instantiation of a unit means: the unit, unless
/// the instantiation failed or gave no unit.
pub open spec fn unit_outcome(reply: HalReply) -> Option<UnitHandle> {
    if reply.status != NO_ERR {
        None
    } else {
        match reply.value {
            HalValue::Unit(unit) => if unit.is_null() {
                None
            } else {
                Some(unit)
            },
            _ => None,
        }
    }
}

/// Reads the reply to the instantiation of a unit.
pub fn unit_from_reply(reply: &HalReply) -> (r: Option<UnitHandle>)
    ensures
        r == unit_outcome(*reply),
{
    if reply.status != NO_ERR {
        None
    } else {
        match reply.value {
            HalValue::Unit(unit) => if unit.is_null() {
                None
            } else {
                Some(unit)
            },
            _ => None,
        }
    }
}

/// `steps` is the instantiation of a unit, with the result `r`.
pub open spec fn makes_unit(
    subtype: ComponentSubType,
    steps: Seq<Exchange>,
    r: Option<UnitHandle>,
) -> bool {
    crate::hal::asked(steps, HalRequest::CreateUnit { subtype }) && r == unit_outcome(
        steps[0].reply,
    )
}

/// Instantiates an output unit. The platform makes one even where it has
/// no device at all.
pub fn create_unit<H: Fn(HalRequest) -> HalReply>(
    platform: &mut Platform<H>,
    subtype: ComponentSubType,
) -> (r: Option<UnitHandle>)
    ensures
        final(platform).follows(old(platform)),
        makes_unit(subtype, final(platform).since(old(platform)), r),
        r matches Some(unit) ==> !unit.is_null(),
{
    let reply = platform.ask(HalRequest::CreateUnit { subtype });
    unit_from_reply(&reply)
}

/// `steps` hands `unit` back to the platform, to be uninitialized and
/// disposed.
pub open spec fn disposes(steps: Seq<Exchange>, unit: UnitHandle) -> bool {
    crate::hal::asked(steps, HalRequest::DisposeUnit { unit })
}

/// Uninitializes and disposes a unit.
pub fn dispose_unit<H: Fn(HalRequest) -> HalReply>(platform: &mut Platform<H>, unit: UnitHandle)
    requires
        !unit.is_null(),
    ensures
        final(platform).follows(old(platform)),
        disposes(final(platform).since(old(platform)), unit),
{
    platform.ask(HalRequest::DisposeUnit { unit });
}

/// The request that binds `unit` to `device`.
pub open spec fn binding_request(unit: UnitHandle, device: ObjectId) -> HalRequest {
    HalRequest::SetUnitWord {
        unit,
        selector: UNIT_PROPERTY_CURRENT_DEVICE,
        scope: UNIT_SCOPE_GLOBAL,
        element: 0,
        value: device,
    }
}

/// `steps` is the binding of `unit` to `device`, with the result `r`.
pub open spec fn binds(
    unit: UnitHandle,
    device: ObjectId,
    steps: Seq<Exchange>,
    r: Result<(), PropertyError>,
) -> bool {
    crate::hal::asked(steps, binding_request(unit, device)) && r == crate::hal::status_outcome(
        steps[0].reply,
    )
}

/// Binds a unit to a device.
pub fn set_current_device<H: Fn(HalRequest) -> HalReply>(
    platform: &mut Platform<H>,
    unit: UnitHandle,
    device: ObjectId,
) -> (r: Result<(), PropertyError>)
    requires
        !unit.is_null(),
    ensures
        final(platform).follows(old(platform)),
        binds(unit, device, final(platform).since(old(platform)), r),
{
    let reply = platform.ask(
        HalRequest::SetUnitWord {
            unit,
            selector: UNIT_PROPERTY_CURRENT_DEVICE,
            scope: UNIT_SCOPE_GLOBAL,
            element: 0,
            value: device,
        },
    );
    status_from_reply(&reply)
}

/// Whether a unit that is set up for `scope` has its `side` switched on.
pub open spec fn serves_side(scope: Scope, side: Scope) -> bool {
    scope == side
}

/// `steps` is the routing of `unit` for `scope`, with the result `r`: the
/// input side is switched first, on for `Input` and off for `Output`;
/// then the output side, the other way round. The second switch is made
/// only where the first succeeded.
pub open spec fn routes(
    unit: UnitHandle,
    scope: Scope,
    steps: Seq<Exchange>,
    r: Result<(), PropertyError>,
) -> bool {
    &&& steps.len() >= 1
    &&& steps[0].request == switch_request(unit, Scope::Input, serves_side(scope, Scope::Input))
    &&& match crate::hal::status_outcome(steps[0].reply) {
        Err(e) => steps.len() == 1 && r == Err::<(), PropertyError>(e),
        Ok(_) => enables(
            unit,
            Scope::Output,
            serves_side(scope, Scope::Output),
            steps.skip(1),
            r,
        ),
    }
}

/// Switches on the side of a unit that `scope` names and switches the
/// other side off.
pub fn route_unit<H: Fn(HalRequest) -> HalReply>(
    platform: &mut Platform<H>,
    unit: UnitHandle,
    scope: Scope,
) -> (r: Result<(), PropertyError>)
    requires
        !unit.is_null(),
        scope.is_directional(),
    ensures
        final(platform).follows(old(platform)),
        routes(unit, scope, final(platform).since(old(platform)), r),
{
    let ghost start = *platform;
    let input = match scope {
        Scope::Input => true,
        _ => false,
    };
    match enable_scope(platform, unit, Scope::Input, input) {
        Err(e) => Err(e),
        Ok(_) => {
            let ghost mid = *platform;
            let r = enable_scope(platform, unit, Scope::Output, !input);
            proof {
                platform.lemma_follows(&mid, &start);
            }
            r
        },
    }
}

/// `steps` is the set-up of `unit` for `device` and `scope`, with the
/// result `r`: the unit is routed, then bound to the device. A unit that
/// cannot be set up is disposed, which is the last thing asked.
pub open spec fn sets_up(
    unit: UnitHandle,
    device: ObjectId,
    scope: Scope,
    steps: Seq<Exchange>,
    r: Option<UnitHandle>,
) -> bool {
    exists|routing: Seq<Exchange>, rest: Seq<Exchange>, routed: Result<(), PropertyError>|
        #![trigger crate::hal::joins(steps, routing, rest), routes(unit, scope, routing, routed)]
        crate::hal::joins(steps, routing, rest) && routes(unit, scope, routing, routed)
            && match routed {
            Err(_) => r is None && disposes(rest, unit),
            Ok(_) => {
                &&& rest.len() >= 1
                &&& rest[0].request == binding_request(unit, device)
                &&& match crate::hal::status_outcome(rest[0].reply) {
                    Err(_) => r is None && disposes(rest.skip(1), unit),
                    Ok(_) => rest.len() == 1 && r == Some(unit),
                }
            },
        }
}

/// `steps` is the set-up of a unit for the default device of `scope`,
/// with the result `r`.
///
/// The default device is read, then a unit that can be bound to any
/// device is instantiated. Without a unit nothing more is asked. A unit
/// without a default device is disposed. Else the unit is set up.
pub open spec fn initializes_unit(
    scope: Scope,
    steps: Seq<Exchange>,
    r: Option<UnitHandle>,
) -> bool {
    &&& steps.len() >= 2
    &&& steps[0].request == (HalRequest::ReadWord {
        object: SYSTEM_OBJECT,
        address: crate::address::PropertyAddress::default_device(scope),
    })
    &&& steps[1].request == (HalRequest::CreateUnit { subtype: ComponentSubType::HALOutput })
    &&& match unit_outcome(steps[1].reply) {
        None => steps.len() == 2 && r is None,
        Some(unit) => match crate::default_device::default_outcome(steps[0].reply) {
            None => r is None && disposes(steps.skip(2), unit),
            Some(device) => sets_up(unit, device, scope, steps.skip(2), r),
        },
    }
}

/// Sets up a unit for the default device of a directional scope: the
/// side that the scope names is switched on, the other side off, and the
/// unit is bound to the device. The caller has to dispose the unit.
pub fn get_default_unit<H: Fn(HalRequest) -> HalReply>(
    platform: &mut Platform<H>,
    scope: Scope,
) -> (r: Option<UnitHandle>)
    requires
        scope.is_directional(),
    ensures
        final(platform).follows(old(platform)),
        initializes_unit(scope, final(platform).since(old(platform)), r),
        r matches Some(unit) ==> !unit.is_null(),
{
    let ghost start = *platform;
    let current = get_default_device(platform, scope);
    let ghost read = *platform;
    let made = create_unit(platform, ComponentSubType::HALOutput);
    let ghost created = *platform;
    proof {
        created.lemma_follows(&read, &start);
    }
    let r = match made {
        None => None,
        Some(unit) => match current {
            None => {
                dispose_unit(platform, unit);
                None
            },
            Some(device) => {
                let routed = route_unit(platform, unit, scope);
                let ghost wired = *platform;
                let r = match routed {
                    Err(_) => {
                        dispose_unit(platform, unit);
                        None
                    },
                    Ok(_) => {
                        let bound = set_current_device(platform, unit, device);
                        let ghost tied = *platform;
                        match bound {
                            Err(_) => {
                                dispose_unit(platform, unit);
                                proof {
                                    platform.lemma_follows(&tied, &wired);
                                }
                                None
                            },
                            Ok(_) => Some(unit),
                        }
                    },
                };
                proof {
                    platform.lemma_follows(&wired, &created);
                }
                r
            },
        },
    };
    proof {
        if made is None {
            platform.lemma_follows_itself();
        }
        platform.lemma_follows(&created, &start);
        assert(platform.since(&start).skip(2) =~= platform.since(&created));
    }
    r
}

} // verus!
