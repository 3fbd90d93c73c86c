use audio_hal_harness::hal::{
    size_from_reply, status_from_reply, text_from_reply, word_from_reply, HalReply, HalRequest,
    HalValue, Platform,
};
use audio_hal_harness::object::{PropertyError, StringHandle, NO_ERR, OBJECT_UNKNOWN, SYSTEM_OBJECT};
use audio_hal_harness::source::{
    code_to_bytes, code_to_string, get_default_source, get_default_source_name,
};
use audio_hal_harness::scope::Scope;

fn on<H: Fn(HalRequest) -> HalReply>(hal: H) -> Platform<H> {
    Platform::new(hal)
}

fn ok(value: HalValue) -> HalReply {
    HalReply { status: 0, value }
}

fn failure(status: i32) -> HalReply {
    HalReply { status, value: HalValue::Nothing }
}

// The default input (device 91) takes its signal from the internal
// microphone; the default output (device 92) has no source.
fn platform(request: HalRequest) -> HalReply {
    match request {
        HalRequest::ReadWord { object: 1, address } => match address.selector {
            0x64496e20 => ok(HalValue::Word(91)),
            0x644f7574 => ok(HalValue::Word(92)),
            _ => failure(-1),
        },
        HalRequest::ReadWord { object: 91, address }
            if address.selector == 0x73737263 && address.scope == 0x696e7074 =>
        {
            ok(HalValue::Word(0x696d6963))
        }
        _ => failure(0x77686f3f),
    }
}

#[test]
fn code_is_split_into_bytes_from_the_most_significant() {
    assert_eq!(code_to_bytes(0x696d6963), vec![0x69, 0x6d, 0x69, 0x63]);
    assert_eq!(code_to_bytes(0x01020304), vec![1, 2, 3, 4]);
    assert_eq!(code_to_bytes(0), vec![0, 0, 0, 0]);
    assert_eq!(code_to_bytes(u32::MAX), vec![255, 255, 255, 255]);
}

#[test]
fn code_reads_as_its_four_characters() {
    assert_eq!(code_to_string(0x696d6963), "imic");
    assert_eq!(code_to_string(0x6973706b), "ispk");
    assert_eq!(code_to_string(0x75696420), "uid ");
}

#[test]
fn bytes_that_are_no_text_are_replaced() {
    assert_eq!(code_to_string(0x41ff4243), "A\u{fffd}BC");
    assert_eq!(code_to_string(0xc3a94142), "\u{e9}AB");
}

#[test]
fn default_source_is_the_source_of_the_default_device() {
    assert_eq!(get_default_source(&mut on(&platform), Scope::Input), Some(0x696d6963));
    assert_eq!(
        get_default_source_name(&mut on(&platform), Scope::Input),
        Some(String::from("imic")),
    );
}

#[test]
fn no_default_source_without_a_source_property() {
    assert_eq!(get_default_source(&mut on(&platform), Scope::Output), None);
    assert_eq!(get_default_source_name(&mut on(&platform), Scope::Output), None);
}

#[test]
fn no_default_source_without_default_device_or_with_source_zero() {
    let deviceless = |_request: HalRequest| failure(-1);
    assert_eq!(get_default_source(&mut on(&deviceless), Scope::Input), None);
    let sourceless = |request: HalRequest| match request {
        HalRequest::ReadWord { object: 1, .. } => ok(HalValue::Word(91)),
        _ => ok(HalValue::Word(0)),
    };
    assert_eq!(get_default_source(&mut on(&sourceless), Scope::Input), None);
}

#[test]
fn reply_is_read_by_status_first_and_shape_second() {
    assert_eq!(status_from_reply(&ok(HalValue::Word(3))), Ok(()));
    assert_eq!(status_from_reply(&failure(-1)), Err(PropertyError::PlatformStatusError(-1)));
    assert_eq!(size_from_reply(&ok(HalValue::Size(16))), Ok(16));
    assert_eq!(size_from_reply(&ok(HalValue::Word(16))), Err(PropertyError::ContractViolation));
    assert_eq!(
        size_from_reply(&HalReply { status: 5, value: HalValue::Size(16) }),
        Err(PropertyError::PlatformStatusError(5))
    );
    assert_eq!(word_from_reply(&ok(HalValue::Word(16))), Ok(16));
    assert_eq!(word_from_reply(&ok(HalValue::Nothing)), Err(PropertyError::ContractViolation));
    assert_eq!(
        text_from_reply(&ok(HalValue::Text(StringHandle { raw: 8 }))),
        Ok(StringHandle { raw: 8 })
    );
    assert_eq!(
        text_from_reply(&ok(HalValue::Words(vec![]))),
        Err(PropertyError::ContractViolation),
    );
}

#[test]
fn error_stands_for_a_status_unless_it_is_a_contract_violation() {
    assert_eq!(PropertyError::PlatformStatusError(-50).status_code(), Some(-50));
    assert_eq!(PropertyError::PluginResolutionError.status_code(), Some(0x77686174));
    assert_eq!(PropertyError::ContractViolation.status_code(), None);
}

#[test]
fn reserved_values_are_those_of_the_platform() {
    assert_eq!(NO_ERR, 0);
    assert_eq!(OBJECT_UNKNOWN, 0);
    assert_eq!(SYSTEM_OBJECT, 1);
    assert!(StringHandle { raw: 0 }.is_null());
    assert!(!StringHandle { raw: 0x10 }.is_null());
}
