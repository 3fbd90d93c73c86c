//! Property addresses: which attribute, in which scope, of which element.

use vstd::prelude::*;
use crate::scope::{Scope, ELEMENT_MASTER, OBJECT_SCOPE_GLOBAL};

verus! {

/// Selector of an object's human-readable name (`lnam`).
pub const SELECTOR_NAME: u32 = 0x6c6e_616d;

/// Selector of a device's active data source (`ssrc`).
pub const SELECTOR_DATA_SOURCE: u32 = 0x7373_7263;

/// Selector that translates a data-source code into its name (`lscn`).
pub const SELECTOR_DATA_SOURCE_NAME: u32 = 0x6c73_636e;

/// Selector of a device's unique identifier (`uid `).
pub const SELECTOR_DEVICE_UID: u32 = 0x7569_6420;

/// Selector of the system's list of devices (`dev#`).
pub const SELECTOR_DEVICES: u32 = 0x6465_7623;

/// Selector of the system's default input device (`dIn `).
pub const SELECTOR_DEFAULT_INPUT_DEVICE: u32 = 0x6449_6e20;

/// Selector of the system's default output device (`dOut`).
pub const SELECTOR_DEFAULT_OUTPUT_DEVICE: u32 = 0x644f_7574;

/// Selector of a device's channel buffer descriptor list (`slay`).
pub const SELECTOR_STREAM_CONFIGURATION: u32 = 0x736c_6179;

/// Selector that translates a bundle identifier into a plugin (`pibi`).
pub const SELECTOR_PLUGIN_FOR_BUNDLE_ID: u32 = 0x7069_6269;

/// Selector under which a plugin creates an aggregate device (`cagg`).
pub const SELECTOR_CREATE_AGGREGATE_DEVICE: u32 = 0x6361_6767;

/// Selector under which a plugin destroys an aggregate device (`dagg`).
pub const SELECTOR_DESTROY_AGGREGATE_DEVICE: u32 = 0x6461_6767;

/// The attributes of a device that the accessors read.
#[derive(Clone, Copy, Debug, PartialEq, Eq, Structural)]
pub enum Property {
    DeviceName,
    DeviceSource,
    DeviceSourceName,
    DeviceUID,
}

impl Property {
    /// The selector under which the platform knows this attribute.
    pub open spec fn spec_selector(self) -> u32 {
        match self {
            Property::DeviceName => SELECTOR_NAME,
            Property::DeviceSource => SELECTOR_DATA_SOURCE,
            Property::DeviceSourceName => SELECTOR_DATA_SOURCE_NAME,
            Property::DeviceUID => SELECTOR_DEVICE_UID,
        }
    }

    #[verifier::when_used_as_spec(spec_selector)]
    pub fn selector(self) -> (r: u32)
        ensures
            r == self.spec_selector(),
    {
        match self {
            Property::DeviceName => SELECTOR_NAME,
            Property::DeviceSource => SELECTOR_DATA_SOURCE,
            Property::DeviceSourceName => SELECTOR_DATA_SOURCE_NAME,
            Property::DeviceUID => SELECTOR_DEVICE_UID,
        }
    }

    /// Whether the attribute belongs to the device as a whole. The others
    /// exist once per direction.
    pub open spec fn spec_is_device_wide(self) -> bool {
        self == Property::DeviceName || self == Property::DeviceUID
    }

    #[verifier::when_used_as_spec(spec_is_device_wide)]
    pub fn is_device_wide(self) -> (r: bool)
        ensures
            r == self.spec_is_device_wide(),
    {
        match self {
            Property::DeviceName => true,
            Property::DeviceUID => true,
            Property::DeviceSource => false,
            Property::DeviceSourceName => false,
        }
    }
}

/// Whether `property` may be addressed in `scope`: the global scope holds
/// device-wide attributes only.
pub open spec fn scope_admits(property: Property, scope: Scope) -> bool {
    scope == Scope::Global ==> property.is_device_wide()
}

/// The address of one attribute of one object.
#[derive(Clone, Copy, Debug, PartialEq, Eq, Structural)]
pub struct PropertyAddress {
    pub selector: u32,
    pub scope: u32,
    pub element: u32,
}

impl PropertyAddress {
    /// The address of a system-wide attribute: global scope, primary element.
    pub open spec fn system(selector: u32) -> PropertyAddress {
        PropertyAddress { selector, scope: OBJECT_SCOPE_GLOBAL, element: ELEMENT_MASTER }
    }

    /// The address of an attribute in one scope of a device, primary element.
    pub open spec fn device(selector: u32, scope: Scope) -> PropertyAddress {
        PropertyAddress { selector, scope: scope.device_code(), element: ELEMENT_MASTER }
    }

    /// The address of `property` in `scope`.
    pub open spec fn of(property: Property, scope: Scope) -> PropertyAddress {
        PropertyAddress::device(property.selector(), scope)
    }

    /// The address of the system's default device for `scope`: the default
    /// input for `Input`, the default output otherwise.
    pub open spec fn default_device(scope: Scope) -> PropertyAddress {
        PropertyAddress::system(
            if scope == Scope::Input {
                SELECTOR_DEFAULT_INPUT_DEVICE
            } else {
                SELECTOR_DEFAULT_OUTPUT_DEVICE
            },
        )
    }
}

/// Gives the address of a system-wide attribute.
pub fn system_address(selector: u32) -> (address: PropertyAddress)
    ensures
        address == PropertyAddress::system(selector),
{
    PropertyAddress { selector, scope: OBJECT_SCOPE_GLOBAL, element: ELEMENT_MASTER }
}

/// Gives the address of an attribute in one scope of a device.
pub fn device_address(selector: u32, scope: Scope) -> (address: PropertyAddress)
    ensures
        address == PropertyAddress::device(selector, scope),
{
    PropertyAddress { selector, scope: scope.device_code(), element: ELEMENT_MASTER }
}

/// Gives the address of `property` in `scope`.
pub fn get_property_address(property: Property, scope: Scope) -> (address: PropertyAddress)
    requires
        scope_admits(property, scope),
    ensures
        address == PropertyAddress::of(property, scope),
        address.selector == property.selector(),
        address.scope == scope.device_code(),
        address.element == ELEMENT_MASTER,
{
    device_address(property.selector(), scope)
}

/// Gives the address of the system's default device for a directional scope.
pub fn default_device_address(scope: Scope) -> (address: PropertyAddress)
    requires
        scope.is_directional(),
    ensures
        address == PropertyAddress::default_device(scope),
{
    match scope {
        Scope::Input => system_address(SELECTOR_DEFAULT_INPUT_DEVICE),
        _ => system_address(SELECTOR_DEFAULT_OUTPUT_DEVICE),
    }
}

} // verus!
