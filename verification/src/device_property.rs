//! Accessors for the attributes of a device: unique identifier, name, active
//! data source and the name of that source.
//!
//! The accessors only read. A string that one returns is owned by the
//! platform's allocator; the caller receives a reference to it and has to
//! release it.

use vstd::prelude::*;
use crate::address::{get_property_address, Property, PropertyAddress};
use crate::hal::{read_text, read_word, text_from_reply, Exchange, HalReply, HalRequest, Platform};
use crate::object::{ObjectId, PropertyError, StringHandle, OBJECT_UNKNOWN};
use crate::scope::Scope;

verus! {

/// `steps` is the translation of the source `code` of `id` into its name,
/// with the result `r`.
pub open spec fn translates_source(
    id: ObjectId,
    scope: Scope,
    code: u32,
    steps: Seq<Exchange>,
    r: Result<StringHandle, PropertyError>,
) -> bool {
    crate::hal::asked(
        steps,
        HalRequest::TranslateCode {
            object: id,
            address: PropertyAddress::of(Property::DeviceSourceName, scope),
            code,
        },
    ) && r == crate::hal::text_outcome(steps[0].reply)
}

/// `steps` is the reading of the name of the source of `id`, with the
/// result `r`: the source is read first. Where that fails nothing more is
/// asked; else the code that was read is handed on to be translated.
pub open spec fn names_source(
    id: ObjectId,
    scope: Scope,
    steps: Seq<Exchange>,
    r: Result<StringHandle, PropertyError>,
) -> bool {
    &&& steps.len() >= 1
    &&& steps[0].request == (HalRequest::ReadWord {
        object: id,
        address: PropertyAddress::of(Property::DeviceSource, scope),
    })
    &&& match crate::hal::word_outcome(steps[0].reply) {
        Err(e) => steps.len() == 1 && r == Err::<StringHandle, PropertyError>(e),
        Ok(code) => translates_source(id, scope, code, steps.skip(1), r),
    }
}

/// Reads the unique identifier of the device as a whole.
pub fn get_device_global_uid<H: Fn(HalRequest) -> HalReply>(
    platform: &mut Platform<H>,
    id: ObjectId,
) -> (r: Result<StringHandle, PropertyError>)
    requires
        id != OBJECT_UNKNOWN,
    ensures
        final(platform).follows(old(platform)),
        crate::hal::reads_text(
            id,
            PropertyAddress::of(Property::DeviceUID, Scope::Global),
            final(platform).since(old(platform)),
            r,
        ),
{
    get_device_uid(platform, id, Scope::Global)
}

/// Reads the unique identifier of a device in `scope`. The identifier is
/// stable across restarts of the system.
pub fn get_device_uid<H: Fn(HalRequest) -> HalReply>(
    platform: &mut Platform<H>,
    id: ObjectId,
    scope: Scope,
) -> (r: Result<StringHandle, PropertyError>)
    requires
        id != OBJECT_UNKNOWN,
    ensures
        final(platform).follows(old(platform)),
        crate::hal::reads_text(
            id,
            PropertyAddress::of(Property::DeviceUID, scope),
            final(platform).since(old(platform)),
            r,
        ),
{
    let address = get_property_address(Property::DeviceUID, scope);
    read_text(platform, id, address)
}

/// Reads the code of the data source that is active on a device in a
/// directional scope. Fails with the platform's status where the device has
/// no source property.
pub fn get_device_source<H: Fn(HalRequest) -> HalReply>(
    platform: &mut Platform<H>,
    id: ObjectId,
    scope: Scope,
) -> (r: Result<u32, PropertyError>)
    requires
        id != OBJECT_UNKNOWN,
        scope.is_directional(),
    ensures
        final(platform).follows(old(platform)),
        crate::hal::reads_word(
            id,
            PropertyAddress::of(Property::DeviceSource, scope),
            final(platform).since(old(platform)),
            r,
        ),
{
    let address = get_property_address(Property::DeviceSource, scope);
    read_word(platform, id, address)
}

/// Reads the name of the data source that is active on a device in a
/// directional scope: reads the source's code, then has the platform
/// translate the code. Fails where either step fails.
pub fn get_device_source_name<H: Fn(HalRequest) -> HalReply>(
    platform: &mut Platform<H>,
    id: ObjectId,
    scope: Scope,
) -> (r: Result<StringHandle, PropertyError>)
    requires
        id != OBJECT_UNKNOWN,
        scope.is_directional(),
    ensures
        final(platform).follows(old(platform)),
        names_source(id, scope, final(platform).since(old(platform)), r),
{
    let ghost start = *platform;
    match get_device_source(platform, id, scope) {
        Err(e) => Err(e),
        Ok(code) => {
            let ghost mid = *platform;
            let address = get_property_address(Property::DeviceSourceName, scope);
            let reply = platform.ask(HalRequest::TranslateCode { object: id, address, code });
            proof {
                platform.lemma_follows(&mid, &start);
            }
            text_from_reply(&reply)
        },
    }
}

/// Reads the human-readable name of a device in `scope`.
pub fn get_device_name<H: Fn(HalRequest) -> HalReply>(
    platform: &mut Platform<H>,
    id: ObjectId,
    scope: Scope,
) -> (r: Result<StringHandle, PropertyError>)
    requires
        id != OBJECT_UNKNOWN,
    ensures
        final(platform).follows(old(platform)),
        crate::hal::reads_text(
            id,
            PropertyAddress::of(Property::DeviceName, scope),
            final(platform).since(old(platform)),
            r,
        ),
{
    let address = get_property_address(Property::DeviceName, scope);
    read_text(platform, id, address)
}

} // verus!
