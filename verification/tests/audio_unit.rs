use audio_hal_harness::audio_unit::{
    create_unit, dispose_unit, enable_scope, get_default_unit, get_negotiated_buffer_size,
    is_scope_enabled, property_scope_code, route_unit, set_current_device, unit_element,
    unit_from_reply, unit_scope,
};
use audio_hal_harness::hal::{
    ComponentSubType, HalReply, HalRequest, HalValue, Platform, UnitHandle,
};
use audio_hal_harness::object::PropertyError;
use audio_hal_harness::scope::{PropertyScope, Scope};
use std::cell::{Cell, RefCell};

fn on<H: Fn(HalRequest) -> HalReply>(hal: H) -> Platform<H> {
    Platform::new(hal)
}

const UNIT: UnitHandle = UnitHandle { raw: 0x7000 };

fn ok(value: HalValue) -> HalReply {
    HalReply { status: 0, value }
}

fn failure(status: i32) -> HalReply {
    HalReply { status, value: HalValue::Nothing }
}

struct Host {
    default_output: Cell<u32>,
    requests: RefCell<Vec<HalRequest>>,
    // Status of the n-th write to a unit, counted from 0; 0 where not set.
    failing_write: Cell<Option<usize>>,
    writes: Cell<usize>,
}

impl Host {
    fn new() -> Host {
        Host {
            default_output: Cell::new(82),
            requests: RefCell::new(Vec::new()),
            failing_write: Cell::new(None),
            writes: Cell::new(0),
        }
    }

    fn perform(&self, request: HalRequest) -> HalReply {
        let reply = match &request {
            HalRequest::ReadWord { object: 1, address } => match address.selector {
                0x64496e20 => ok(HalValue::Word(81)),
                0x644f7574 => ok(HalValue::Word(self.default_output.get())),
                _ => failure(-1),
            },
            HalRequest::CreateUnit { subtype: ComponentSubType::HALOutput } => {
                ok(HalValue::Unit(UNIT))
            }
            HalRequest::CreateUnit { subtype: ComponentSubType::DefaultOutput } => {
                ok(HalValue::Unit(UnitHandle { raw: 0x7100 }))
            }
            HalRequest::DisposeUnit { .. } => ok(HalValue::Nothing),
            HalRequest::SetUnitWord { .. } => {
                let n = self.writes.get();
                self.writes.set(n + 1);
                if self.failing_write.get() == Some(n) {
                    failure(-10851)
                } else {
                    ok(HalValue::Nothing)
                }
            }
            HalRequest::GetUnitWord { selector: 2006, scope, element, .. } => {
                ok(HalValue::Word(if (*scope, *element) == (2, 0) { 1 } else { 0 }))
            }
            HalRequest::GetUnitWord { selector: 0x6673697a, scope, element, .. } => {
                ok(HalValue::Word(1000 * scope + 100 * element + 12))
            }
            _ => failure(-1),
        };
        self.requests.borrow_mut().push(request);
        reply
    }
}

#[test]
fn scope_picks_the_side_and_the_element_of_a_unit() {
    assert_eq!(unit_scope(Scope::Input), 1);
    assert_eq!(unit_scope(Scope::Output), 2);
    assert_eq!(unit_element(Scope::Input), 1);
    assert_eq!(unit_element(Scope::Output), 0);
    assert_eq!(property_scope_code(PropertyScope::Input), 1);
    assert_eq!(property_scope_code(PropertyScope::Output), 2);
}

#[test]
fn enable_scope_writes_the_switch_of_the_side() {
    let host = Host::new();
    let hal = |request: HalRequest| host.perform(request);
    assert_eq!(enable_scope(&mut on(&hal), UNIT, Scope::Input, true), Ok(()));
    assert_eq!(enable_scope(&mut on(&hal), UNIT, Scope::Output, false), Ok(()));
    assert_eq!(
        *host.requests.borrow(),
        vec![
            HalRequest::SetUnitWord { unit: UNIT, selector: 2003, scope: 1, element: 1, value: 1 },
            HalRequest::SetUnitWord { unit: UNIT, selector: 2003, scope: 2, element: 0, value: 0 },
        ]
    );
}

#[test]
fn failed_switch_is_a_platform_status_error() {
    let host = Host::new();
    host.failing_write.set(Some(0));
    let hal = |request: HalRequest| host.perform(request);
    assert_eq!(
        enable_scope(&mut on(&hal), UNIT, Scope::Input, true),
        Err(PropertyError::PlatformStatusError(-10851))
    );
}

#[test]
fn scope_is_enabled_where_the_side_has_io() {
    let host = Host::new();
    let hal = |request: HalRequest| host.perform(request);
    assert_eq!(is_scope_enabled(&mut on(&hal), UNIT, Scope::Output), Ok(true));
    assert_eq!(is_scope_enabled(&mut on(&hal), UNIT, Scope::Input), Ok(false));
    let broken = |_request: HalRequest| failure(-3);
    assert_eq!(
        is_scope_enabled(&mut on(&broken), UNIT, Scope::Input),
        Err(PropertyError::PlatformStatusError(-3))
    );
}

#[test]
fn buffer_size_takes_the_element_from_the_scope_and_the_side_from_the_property_scope() {
    let host = Host::new();
    let hal = |request: HalRequest| host.perform(request);
    assert_eq!(
        get_negotiated_buffer_size(&mut on(&hal), UNIT, Scope::Input, PropertyScope::Output),
        Ok(2112)
    );
    assert_eq!(
        get_negotiated_buffer_size(&mut on(&hal), UNIT, Scope::Output, PropertyScope::Input),
        Ok(1012)
    );
    assert_eq!(
        get_negotiated_buffer_size(&mut on(&hal), UNIT, Scope::Input, PropertyScope::Input),
        Ok(1112)
    );
    assert_eq!(
        get_negotiated_buffer_size(&mut on(&hal), UNIT, Scope::Output, PropertyScope::Output),
        Ok(2012)
    );
    assert_eq!(
        host.requests.borrow()[0],
        HalRequest::GetUnitWord { unit: UNIT, selector: 0x6673697a, scope: 2, element: 1 }
    );
}

#[test]
fn failed_buffer_size_query_is_a_platform_status_error() {
    let broken = |_request: HalRequest| failure(-10879);
    assert_eq!(
        get_negotiated_buffer_size(&mut on(&broken), UNIT, Scope::Input, PropertyScope::Input),
        Err(PropertyError::PlatformStatusError(-10879))
    );
}

#[test]
fn unit_is_created_unless_the_platform_gives_none() {
    let host = Host::new();
    let hal = |request: HalRequest| host.perform(request);
    assert_eq!(create_unit(&mut on(&hal), ComponentSubType::HALOutput), Some(UNIT));
    assert_eq!(
        create_unit(&mut on(&hal), ComponentSubType::DefaultOutput),
        Some(UnitHandle { raw: 0x7100 }),
    );
    assert_eq!(unit_from_reply(&ok(HalValue::Unit(UnitHandle { raw: 0 }))), None);
    assert_eq!(unit_from_reply(&failure(-1)), None);
    assert_eq!(unit_from_reply(&ok(HalValue::Word(3))), None);
}

#[test]
fn route_switches_input_first_and_stops_at_the_first_failure() {
    let host = Host::new();
    let hal = |request: HalRequest| host.perform(request);
    assert_eq!(route_unit(&mut on(&hal), UNIT, Scope::Output), Ok(()));
    assert_eq!(
        *host.requests.borrow(),
        vec![
            HalRequest::SetUnitWord { unit: UNIT, selector: 2003, scope: 1, element: 1, value: 0 },
            HalRequest::SetUnitWord { unit: UNIT, selector: 2003, scope: 2, element: 0, value: 1 },
        ]
    );
    let host = Host::new();
    host.failing_write.set(Some(0));
    let hal = |request: HalRequest| host.perform(request);
    assert_eq!(
        route_unit(&mut on(&hal), UNIT, Scope::Input),
        Err(PropertyError::PlatformStatusError(-10851))
    );
    assert_eq!(host.requests.borrow().len(), 1);
}

#[test]
fn binding_writes_the_device_to_the_unit_as_a_whole() {
    let host = Host::new();
    let hal = |request: HalRequest| host.perform(request);
    assert_eq!(set_current_device(&mut on(&hal), UNIT, 82), Ok(()));
    assert_eq!(
        *host.requests.borrow(),
        vec![HalRequest::SetUnitWord {
            unit: UNIT,
            selector: 2000,
            scope: 0,
            element: 0,
            value: 82,
        }]
    );
}

#[test]
fn default_unit_is_routed_and_bound_to_the_default_device() {
    let host = Host::new();
    let hal = |request: HalRequest| host.perform(request);
    assert_eq!(get_default_unit(&mut on(&hal), Scope::Input), Some(UNIT));
    let requests = host.requests.borrow();
    assert_eq!(
        requests[2..],
        [
            HalRequest::SetUnitWord { unit: UNIT, selector: 2003, scope: 1, element: 1, value: 1 },
            HalRequest::SetUnitWord { unit: UNIT, selector: 2003, scope: 2, element: 0, value: 0 },
            HalRequest::SetUnitWord { unit: UNIT, selector: 2000, scope: 0, element: 0, value: 81 },
        ]
    );
}

#[test]
fn default_unit_without_default_device_is_disposed() {
    let host = Host::new();
    host.default_output.set(0);
    let hal = |request: HalRequest| host.perform(request);
    assert_eq!(get_default_unit(&mut on(&hal), Scope::Output), None);
    assert_eq!(host.requests.borrow().last(), Some(&HalRequest::DisposeUnit { unit: UNIT }));
}

#[test]
fn default_unit_that_cannot_be_set_up_is_disposed() {
    for failing in 0..3 {
        let host = Host::new();
        host.failing_write.set(Some(failing));
        let hal = |request: HalRequest| host.perform(request);
        assert_eq!(get_default_unit(&mut on(&hal), Scope::Output), None);
        assert_eq!(host.requests.borrow().last(), Some(&HalRequest::DisposeUnit { unit: UNIT }));
        assert_eq!(host.writes.get(), failing + 1);
    }
}

#[test]
fn no_default_unit_where_none_can_be_created() {
    let unitless = |request: HalRequest| match request {
        HalRequest::ReadWord { .. } => ok(HalValue::Word(82)),
        _ => failure(-1),
    };
    assert_eq!(get_default_unit(&mut on(&unitless), Scope::Output), None);
}

#[test]
fn dispose_hands_the_unit_back() {
    let host = Host::new();
    let hal = |request: HalRequest| host.perform(request);
    dispose_unit(&mut on(&hal), UNIT);
    assert_eq!(*host.requests.borrow(), vec![HalRequest::DisposeUnit { unit: UNIT }]);
}
