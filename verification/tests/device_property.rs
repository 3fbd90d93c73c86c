use audio_hal_harness::address::{
    get_property_address, Property, PropertyAddress, SELECTOR_DATA_SOURCE,
    SELECTOR_DATA_SOURCE_NAME, SELECTOR_DEVICE_UID, SELECTOR_NAME,
};
use audio_hal_harness::device_property::{
    get_device_global_uid, get_device_name, get_device_source, get_device_source_name,
    get_device_uid,
};
use audio_hal_harness::hal::{HalReply, HalRequest, HalValue, Platform};
use audio_hal_harness::object::{PropertyError, StringHandle};
use audio_hal_harness::scope::{Scope, DEVICE_SCOPE_INPUT, DEVICE_SCOPE_OUTPUT, OBJECT_SCOPE_GLOBAL};

fn on<H: Fn(HalRequest) -> HalReply>(hal: H) -> Platform<H> {
    Platform::new(hal)
}

const UNKNOWN_PROPERTY: i32 = 0x77686f3f;

fn failure(status: i32) -> HalReply {
    HalReply { status, value: HalValue::Nothing }
}

// A microphone (device 40) with a data source, and a speaker (device 50) without one.
fn platform(request: HalRequest) -> HalReply {
    match request {
        HalRequest::ReadText { object, address } => {
            let base = match object {
                40 => 0x4000,
                50 => 0x5000,
                _ => return failure(UNKNOWN_PROPERTY),
            };
            let side = match address.scope {
                DEVICE_SCOPE_INPUT => 1,
                DEVICE_SCOPE_OUTPUT => 2,
                _ => 3,
            };
            match address.selector {
                SELECTOR_DEVICE_UID => {
                    HalReply { status: 0, value: HalValue::Text(StringHandle { raw: base + side }) }
                }
                SELECTOR_NAME => HalReply {
                    status: 0,
                    value: HalValue::Text(StringHandle { raw: base + 0x10 + side }),
                },
                _ => failure(UNKNOWN_PROPERTY),
            }
        }
        HalRequest::ReadWord { object: 40, address }
            if address.selector == SELECTOR_DATA_SOURCE && address.scope == DEVICE_SCOPE_INPUT =>
        {
            HalReply { status: 0, value: HalValue::Word(0x696d6963) }
        }
        HalRequest::TranslateCode { object: 40, address, code: 0x696d6963 }
            if address.selector == SELECTOR_DATA_SOURCE_NAME =>
        {
            HalReply { status: 0, value: HalValue::Text(StringHandle { raw: 0x4100 }) }
        }
        _ => failure(UNKNOWN_PROPERTY),
    }
}

#[test]
fn property_address_holds_selector_scope_and_primary_element() {
    assert_eq!(
        get_property_address(Property::DeviceUID, Scope::Global),
        PropertyAddress { selector: 0x75696420, scope: 0x676c6f62, element: 0 }
    );
    assert_eq!(
        get_property_address(Property::DeviceName, Scope::Input),
        PropertyAddress { selector: 0x6c6e616d, scope: 0x696e7074, element: 0 }
    );
    assert_eq!(
        get_property_address(Property::DeviceSource, Scope::Output),
        PropertyAddress { selector: 0x73737263, scope: 0x6f757470, element: 0 }
    );
    assert_eq!(
        get_property_address(Property::DeviceSourceName, Scope::Input),
        PropertyAddress { selector: 0x6c73636e, scope: 0x696e7074, element: 0 }
    );
}

#[test]
fn scope_codes_are_the_four_character_codes() {
    assert_eq!(Scope::Input.device_code(), u32::from_be_bytes(*b"inpt"));
    assert_eq!(Scope::Output.device_code(), u32::from_be_bytes(*b"outp"));
    assert_eq!(Scope::Global.device_code(), u32::from_be_bytes(*b"glob"));
    assert_eq!(OBJECT_SCOPE_GLOBAL, 0x676c6f62);
    assert_eq!(Property::DeviceUID.selector(), u32::from_be_bytes(*b"uid "));
    assert_eq!(Property::DeviceName.selector(), u32::from_be_bytes(*b"lnam"));
    assert_eq!(Property::DeviceSource.selector(), u32::from_be_bytes(*b"ssrc"));
    assert_eq!(Property::DeviceSourceName.selector(), u32::from_be_bytes(*b"lscn"));
}

#[test]
fn uid_is_read_in_the_requested_scope() {
    assert_eq!(
        get_device_uid(&mut on(&platform), 40, Scope::Input),
        Ok(StringHandle { raw: 0x4001 }),
    );
    assert_eq!(
        get_device_uid(&mut on(&platform), 40, Scope::Output),
        Ok(StringHandle { raw: 0x4002 }),
    );
    assert_eq!(
        get_device_uid(&mut on(&platform), 50, Scope::Global),
        Ok(StringHandle { raw: 0x5003 }),
    );
}

#[test]
fn global_uid_is_the_uid_in_global_scope() {
    assert_eq!(get_device_global_uid(&mut on(&platform), 40), Ok(StringHandle { raw: 0x4003 }));
    assert_eq!(
        get_device_global_uid(&mut on(&platform), 40),
        get_device_uid(&mut on(&platform), 40, Scope::Global),
    );
}

#[test]
fn name_is_read_from_the_name_property() {
    assert_eq!(
        get_device_name(&mut on(&platform), 50, Scope::Output),
        Ok(StringHandle { raw: 0x5012 }),
    );
}

#[test]
fn failed_query_surfaces_the_platform_status() {
    assert_eq!(
        get_device_uid(&mut on(&platform), 77, Scope::Input),
        Err(PropertyError::PlatformStatusError(UNKNOWN_PROPERTY))
    );
    assert_eq!(
        get_device_name(&mut on(&platform), 77, Scope::Input),
        Err(PropertyError::PlatformStatusError(UNKNOWN_PROPERTY))
    );
}

#[test]
fn source_is_the_code_that_the_platform_reports() {
    assert_eq!(get_device_source(&mut on(&platform), 40, Scope::Input), Ok(0x696d6963));
}

#[test]
fn source_name_translates_the_code_that_was_read() {
    assert_eq!(
        get_device_source_name(&mut on(&platform), 40, Scope::Input),
        Ok(StringHandle { raw: 0x4100 })
    );
}

#[test]
fn source_name_of_a_device_without_source_is_a_platform_status_error() {
    assert_eq!(
        get_device_source(&mut on(&platform), 50, Scope::Output),
        Err(PropertyError::PlatformStatusError(UNKNOWN_PROPERTY))
    );
    assert_eq!(
        get_device_source_name(&mut on(&platform), 50, Scope::Output),
        Err(PropertyError::PlatformStatusError(UNKNOWN_PROPERTY))
    );
}

#[test]
fn source_name_fails_where_the_translation_fails() {
    let no_names = |request: HalRequest| match request {
        HalRequest::ReadWord { .. } => HalReply { status: 0, value: HalValue::Word(7) },
        _ => failure(-50),
    };
    assert_eq!(
        get_device_source_name(&mut on(&no_names), 40, Scope::Input),
        Err(PropertyError::PlatformStatusError(-50))
    );
}

#[test]
fn reply_of_the_wrong_shape_is_a_contract_violation() {
    let confused = |_request: HalRequest| HalReply { status: 0, value: HalValue::Size(8) };
    assert_eq!(
        get_device_uid(&mut on(&confused), 40, Scope::Input),
        Err(PropertyError::ContractViolation),
    );
    assert_eq!(
        get_device_source(&mut on(&confused), 40, Scope::Input),
        Err(PropertyError::ContractViolation)
    );
}
