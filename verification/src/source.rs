//! The data source of the default device, as a code and as readable text.

use vstd::prelude::*;
use crate::address::{Property, PropertyAddress};
use crate::default_device::get_default_device;
use crate::device_property::get_device_source;
use crate::hal::{Exchange, HalReply, HalRequest, Platform};
use crate::object::{PropertyError, SYSTEM_OBJECT};
use crate::scope::Scope;

verus! {

/// The text that `String::from_utf8_lossy` gives for a sequence of bytes:
/// the bytes decoded as UTF-8, with U+FFFD in the place of what is not
/// valid.
pub uninterp spec fn utf8_lossy_text(bytes: Seq<u8>) -> Seq<char>;

/// Calls `String::from_utf8_lossy`. Its result is a function of the bytes
/// alone; the contract gives that result its name and claims no more of it.
/// Nothing here proves what the text is.
#[verifier::external_body]
fn utf8_lossy(bytes: &Vec<u8>) -> (text: String)
    ensures
        text@ == utf8_lossy_text(bytes@),
{
    String::from_utf8_lossy(bytes).into_owned()
}

/// The four bytes of a code, the most significant first: a four-character
/// code read from left to right.
pub open spec fn code_bytes(code: u32) -> Seq<u8> {
    seq![
        (code / 0x100_0000) as u8,
        (code / 0x1_0000 % 0x100) as u8,
        (code / 0x100 % 0x100) as u8,
        (code % 0x100) as u8,
    ]
}

/// Splits a code into its four bytes, the most significant first.
pub fn code_to_bytes(code: u32) -> (bytes: Vec<u8>)
    ensures
        bytes@ == code_bytes(code),
{
    let mut bytes: Vec<u8> = Vec::new();
    bytes.push((code / 0x100_0000) as u8);
    bytes.push((code / 0x1_0000 % 0x100) as u8);
    bytes.push((code / 0x100 % 0x100) as u8);
    bytes.push((code % 0x100) as u8);
    bytes
}

/// Turns a code into the text of its four bytes.
pub fn code_to_string(code: u32) -> (text: String)
    ensures
        text@ == utf8_lossy_text(code_bytes(code)),
{
    let bytes = code_to_bytes(code);
    utf8_lossy(&bytes)
}

/// What a read of a device's source gives as the source of the default
/// device: the code, where it was read and is not zero.
pub open spec fn source_outcome(source: Result<u32, PropertyError>) -> Option<u32> {
    match source {
        Ok(code) => if code > 0 {
            Some(code)
        } else {
            None
        },
        Err(_) => None,
    }
}

/// `steps` is the reading of the source of the default device of `scope`,
/// with the result `r`: the default device is read first. Without one
/// nothing more is asked; else the source of that device is read.
pub open spec fn finds_default_source(scope: Scope, steps: Seq<Exchange>, r: Option<u32>) -> bool {
    &&& steps.len() >= 1
    &&& steps[0].request == (HalRequest::ReadWord {
        object: SYSTEM_OBJECT,
        address: PropertyAddress::default_device(scope),
    })
    &&& match crate::default_device::default_outcome(steps[0].reply) {
        None => steps.len() == 1 && r is None,
        Some(device) => {
            &&& steps.len() == 2
            &&& steps[1].request == (HalRequest::ReadWord {
                object: device,
                address: PropertyAddress::of(Property::DeviceSource, scope),
            })
            &&& r == source_outcome(crate::hal::word_outcome(steps[1].reply))
        },
    }
}

/// Reads the code of the data source of the default device of a
/// directional scope; `None` without a default device or without a source.
pub fn get_default_source<H: Fn(HalRequest) -> HalReply>(
    platform: &mut Platform<H>,
    scope: Scope,
) -> (r: Option<u32>)
    requires
        scope.is_directional(),
    ensures
        final(platform).follows(old(platform)),
        finds_default_source(scope, final(platform).since(old(platform)), r),
        r matches Some(code) ==> code > 0,
{
    let ghost start = *platform;
    match get_default_device(platform, scope) {
        None => None,
        Some(device) => {
            let ghost mid = *platform;
            let source = get_device_source(platform, device, scope);
            proof {
                platform.lemma_follows(&mid, &start);
            }
            match source {
                Ok(code) => if code > 0 {
                    Some(code)
                } else {
                    None
                },
                Err(_) => None,
            }
        },
    }
}

/// The text of a source, for a source that was found.
pub open spec fn source_text(code: Option<u32>, text: Option<String>) -> bool {
    match code {
        None => text is None,
        Some(c) => text matches Some(t) && t@ == utf8_lossy_text(code_bytes(c)),
    }
}

/// Reads the data source of the default device of a directional scope as
/// text: the four characters of its code.
pub fn get_default_source_name<H: Fn(HalRequest) -> HalReply>(
    platform: &mut Platform<H>,
    scope: Scope,
) -> (r: Option<String>)
    requires
        scope.is_directional(),
    ensures
        final(platform).follows(old(platform)),
        exists|code: Option<u32>| #[trigger]
            finds_default_source(scope, final(platform).since(old(platform)), code) && source_text(
                code,
                r,
            ),
{
    match get_default_source(platform, scope) {
        None => None,
        Some(code) => Some(code_to_string(code)),
    }
}

} // verus!
