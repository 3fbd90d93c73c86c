//! Directional scopes.

use vstd::prelude::*;

verus! {

/// Which side of a device, or of a processing unit, an operation addresses.
#[derive(Clone, Copy, Debug, PartialEq, Eq, Structural)]
pub enum Scope {
    Input,
    Output,
    /// The device as a whole. Only device-wide attributes live here.
    Global,
}

/// Which side of a processing unit's signal path a property is read from.
///
/// This is independent of the [`Scope`] that selects the unit's element.
#[derive(Clone, Copy, Debug, PartialEq, Eq, Structural)]
pub enum PropertyScope {
    Input,
    Output,
}

/// Scope code of the input side of a device (`inpt`).
pub const DEVICE_SCOPE_INPUT: u32 = 0x696e_7074;

/// Scope code of the output side of a device (`outp`).
pub const DEVICE_SCOPE_OUTPUT: u32 = 0x6f75_7470;

/// Scope code of a device as a whole (`glob`).
pub const OBJECT_SCOPE_GLOBAL: u32 = 0x676c_6f62;

/// The primary element of an object.
pub const ELEMENT_MASTER: u32 = 0;

impl Scope {
    /// `Input` and `Output` are directional, `Global` is not.
    pub open spec fn spec_is_directional(self) -> bool {
        self != Scope::Global
    }

    #[verifier::when_used_as_spec(spec_is_directional)]
    pub fn is_directional(self) -> (r: bool)
        ensures
            r == self.spec_is_directional(),
    {
        match self {
            Scope::Input => true,
            Scope::Output => true,
            Scope::Global => false,
        }
    }

    /// The code under which the platform knows this scope of a device.
    pub open spec fn spec_device_code(self) -> u32 {
        match self {
            Scope::Input => DEVICE_SCOPE_INPUT,
            Scope::Output => DEVICE_SCOPE_OUTPUT,
            Scope::Global => OBJECT_SCOPE_GLOBAL,
        }
    }

    #[verifier::when_used_as_spec(spec_device_code)]
    pub fn device_code(self) -> (r: u32)
        ensures
            r == self.spec_device_code(),
    {
        match self {
            Scope::Input => DEVICE_SCOPE_INPUT,
            Scope::Output => DEVICE_SCOPE_OUTPUT,
            Scope::Global => OBJECT_SCOPE_GLOBAL,
        }
    }
}

} // verus!
