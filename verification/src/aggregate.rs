//! Aggregate devices: virtual devices that group real sub-devices under
//! one handle, created and destroyed through the system's plugin.
//!
//! Known limitation: where the default device of the scope is itself an
//! aggregate device, it is taken as the one sub-device as it is; its own
//! sub-devices are not looked up.

use vstd::prelude::*;
use vstd::string::StringExecFns;
use crate::address::{
    system_address, PropertyAddress, SELECTOR_CREATE_AGGREGATE_DEVICE,
    SELECTOR_DESTROY_AGGREGATE_DEVICE, SELECTOR_PLUGIN_FOR_BUNDLE_ID,
};
use crate::default_device::get_default_device;
use crate::device_property::get_device_global_uid;
use crate::hal::{
    read_size, status_from_reply, word_from_reply, AggregateDescription, Exchange, HalReply,
    HalRequest, Platform,
};
use crate::object::{ObjectId, PropertyError, StringHandle, NO_ERR, OBJECT_UNKNOWN, SYSTEM_OBJECT};
use crate::scope::Scope;

verus! {

/// The character of a decimal digit.
pub open spec fn digit_char(d: nat) -> char
    recommends
        d < 10,
{
    ('0' as u32 + d) as char
}

/// A number in decimal notation, without leading zeros.
pub open spec fn decimal(n: nat) -> Seq<char>
    decreases n,
{
    if n < 10 {
        seq![digit_char(n)]
    } else {
        decimal(n / 10).push(digit_char(n % 10))
    }
}

/// The name of the aggregate device made at `nanos` nanoseconds of the
/// clock: a fixed stem, an underscore and the time, so that devices made
/// at different times have different names.
pub open spec fn aggregate_name(nanos: u128) -> Seq<char> {
    "TestAggregateDevice_"@ + decimal(nanos as nat)
}

/// The unique identifier of the aggregate device made at `nanos`.
pub open spec fn aggregate_uid(nanos: u128) -> Seq<char> {
    "org.mozilla."@ + aggregate_name(nanos)
}

/// The identifier of the bundle whose plugin makes aggregate devices.
pub open spec fn plugin_bundle_id() -> Seq<char> {
    "com.apple.audio.CoreAudio"@
}

/// `description` is that of the aggregate device made at `nanos` from the
/// one sub-device `sub_device`: named and identified by the time, private
/// to the process, not stacked.
pub open spec fn describes(
    description: AggregateDescription,
    sub_device: StringHandle,
    nanos: u128,
) -> bool {
    &&& description.name@ == aggregate_name(nanos)
    &&& description.uid@ == aggregate_uid(nanos)
    &&& description.is_private
    &&& !description.is_stacked
    &&& description.sub_devices@ == seq![sub_device]
}

/// Decimal notation has at least one digit, and at least two from ten on.
pub proof fn lemma_decimal_length(n: nat)
    ensures
        decimal(n).len() >= 1,
        n >= 10 ==> decimal(n).len() >= 2,
    decreases n,
{
    if n >= 10 {
        lemma_decimal_length(n / 10);
    }
}

/// Different numbers have different decimal notations.
pub proof fn lemma_decimal_is_injective(a: nat, b: nat)
    requires
        decimal(a) == decimal(b),
    ensures
        a == b,
    decreases a,
{
    lemma_decimal_length(a);
    lemma_decimal_length(b);
    if a < 10 && b < 10 {
        assert(decimal(a)[0] == digit_char(a));
        assert(decimal(b)[0] == digit_char(b));
        assert(digit_char(a) as u32 == '0' as u32 + a);
        assert(digit_char(b) as u32 == '0' as u32 + b);
    } else if a >= 10 && b >= 10 {
        assert(decimal(a).drop_last() =~= decimal(a / 10));
        assert(decimal(b).drop_last() =~= decimal(b / 10));
        assert(decimal(a).last() == digit_char(a % 10));
        assert(decimal(b).last() == digit_char(b % 10));
        assert(digit_char(a % 10) as u32 == '0' as u32 + a % 10);
        assert(digit_char(b % 10) as u32 == '0' as u32 + b % 10);
        lemma_decimal_is_injective(a / 10, b / 10);
    } else if a < 10 {
        assert(decimal(a).len() == 1);
    } else {
        assert(decimal(b).len() == 1);
    }
}

/// Aggregate devices made at different times have different names and
/// different unique identifiers.
pub proof fn law_names_made_at_different_times_differ(a: u128, b: u128)
    requires
        a != b,
    ensures
        aggregate_name(a) != aggregate_name(b),
        aggregate_uid(a) != aggregate_uid(b),
{
    let stem = "TestAggregateDevice_"@;
    let domain = "org.mozilla."@;
    if aggregate_name(a) == aggregate_name(b) {
        assert(aggregate_name(a).skip(stem.len() as int) =~= decimal(a as nat));
        assert(aggregate_name(b).skip(stem.len() as int) =~= decimal(b as nat));
        lemma_decimal_is_injective(a as nat, b as nat);
    }
    if aggregate_uid(a) == aggregate_uid(b) {
        assert(aggregate_uid(a).skip(domain.len() as int) =~= aggregate_name(a));
        assert(aggregate_uid(b).skip(domain.len() as int) =~= aggregate_name(b));
    }
}

fn digit_str(d: u8) -> (s: &'static str)
    requires
        d < 10,
    ensures
        s@ == seq![digit_char(d as nat)],
{
    proof {
        reveal_strlit("0");
        reveal_strlit("1");
        reveal_strlit("2");
        reveal_strlit("3");
        reveal_strlit("4");
        reveal_strlit("5");
        reveal_strlit("6");
        reveal_strlit("7");
        reveal_strlit("8");
        reveal_strlit("9");
    }
    let s = match d {
        0 => "0",
        1 => "1",
        2 => "2",
        3 => "3",
        4 => "4",
        5 => "5",
        6 => "6",
        7 => "7",
        8 => "8",
        _ => "9",
    };
    s
}

/// Appends a number in decimal notation to a text.
pub fn append_decimal(text: &mut String, n: u128)
    ensures
        final(text)@ == old(text)@ + decimal(n as nat),
    decreases n,
{
    if n >= 10 {
        append_decimal(text, n / 10);
    }
    let d: u8 = (n % 10) as u8;
    text.append(digit_str(d));
}

/// Describes the aggregate device to make at `nanos` from one sub-device.
pub fn describe_aggregate(sub_device: StringHandle, nanos: u128) -> (description:
    AggregateDescription)
    ensures
        describes(description, sub_device, nanos),
{
    let mut name = String::from_str("TestAggregateDevice_");
    append_decimal(&mut name, nanos);
    let mut uid = String::from_str("org.mozilla.");
    uid.append(name.as_str());
    let mut sub_devices: Vec<StringHandle> = Vec::new();
    sub_devices.push(sub_device);
    AggregateDescription { name, uid, is_private: true, is_stacked: false, sub_devices }
}

/// What the reply to the translation of the bundle identifier means: the
/// plugin, which may not be the reserved handle.
pub open spec fn plugin_outcome(reply: HalReply) -> Result<ObjectId, PropertyError> {
    match crate::hal::word_outcome(reply) {
        Err(e) => Err(e),
        Ok(plugin) => if plugin == OBJECT_UNKNOWN {
            Err(PropertyError::ContractViolation)
        } else {
            Ok(plugin)
        },
    }
}

/// Reads the reply to the translation of the bundle identifier.
pub fn plugin_from_reply(reply: &HalReply) -> (r: Result<ObjectId, PropertyError>)
    ensures
        r == plugin_outcome(*reply),
{
    match word_from_reply(reply) {
        Err(e) => Err(e),
        Ok(plugin) => if plugin == OBJECT_UNKNOWN {
            Err(PropertyError::ContractViolation)
        } else {
            Ok(plugin)
        },
    }
}

/// `request` asks the system for the plugin of the aggregate-device bundle.
pub open spec fn asks_for_plugin(request: HalRequest) -> bool {
    request matches HalRequest::TranslateText { object, address, text } && object == SYSTEM_OBJECT
        && address == PropertyAddress::system(SELECTOR_PLUGIN_FOR_BUNDLE_ID) && text@
        == plugin_bundle_id()
}

/// `steps` is the resolution of the system's plugin for aggregate devices,
/// with the result `r`.
///
/// The size of the translation is asked for first. Where that fails
/// nothing more is asked; a size of zero is a contract violation. Else the
/// bundle identifier is translated.
pub open spec fn resolves_plugin(steps: Seq<Exchange>, r: Result<ObjectId, PropertyError>) -> bool {
    &&& steps.len() >= 1
    &&& steps[0].request == (HalRequest::PropertySize {
        object: SYSTEM_OBJECT,
        address: PropertyAddress::system(SELECTOR_PLUGIN_FOR_BUNDLE_ID),
    })
    &&& match crate::hal::size_outcome(steps[0].reply) {
        Err(e) => steps.len() == 1 && r == Err::<ObjectId, PropertyError>(e),
        Ok(bytes) => if bytes == 0 {
            steps.len() == 1 && r == Err::<ObjectId, PropertyError>(
                PropertyError::ContractViolation,
            )
        } else {
            steps.len() == 2 && asks_for_plugin(steps[1].request) && r == plugin_outcome(
                steps[1].reply,
            )
        },
    }
}

/// Resolves the plugin through which aggregate devices are made and
/// destroyed.
pub fn get_system_plugin_id<H: Fn(HalRequest) -> HalReply>(platform: &mut Platform<H>) -> (r:
    Result<ObjectId, PropertyError>)
    ensures
        final(platform).follows(old(platform)),
        resolves_plugin(final(platform).since(old(platform)), r),
        r matches Ok(plugin) ==> plugin != OBJECT_UNKNOWN,
{
    let ghost start = *platform;
    let address = system_address(SELECTOR_PLUGIN_FOR_BUNDLE_ID);
    match read_size(platform, SYSTEM_OBJECT, address) {
        Err(e) => Err(e),
        Ok(bytes) => {
            if bytes == 0 {
                Err(PropertyError::ContractViolation)
            } else {
                let ghost mid = *platform;
                let text = String::from_str("com.apple.audio.CoreAudio");
                let reply = platform.ask(
                    HalRequest::TranslateText { object: SYSTEM_OBJECT, address, text },
                );
                proof {
                    platform.lemma_follows(&mid, &start);
                }
                plugin_from_reply(&reply)
            }
        },
    }
}

/// What a read of the default device's identifier gives as the sub-device:
/// the identifier where it was read and refers to a string.
pub open spec fn sub_device_outcome(uid: Result<StringHandle, PropertyError>) -> Result<
    StringHandle,
    PropertyError,
> {
    match uid {
        Ok(handle) => if handle.is_null() {
            Err(PropertyError::PluginResolutionError)
        } else {
            Ok(handle)
        },
        Err(_) => Err(PropertyError::PluginResolutionError),
    }
}

/// `steps` is the resolution of the sub-device of an aggregate device for
/// `scope`, with the result `r`: the default device of `scope` is read,
/// then its unique identifier as a whole. Without such a default nothing
/// more is asked. Without the default or without its identifier the
/// resolution fails with `PluginResolutionError`.
pub open spec fn resolves_sub_device(
    scope: Scope,
    steps: Seq<Exchange>,
    r: Result<StringHandle, PropertyError>,
) -> bool {
    &&& steps.len() >= 1
    &&& steps[0].request == (HalRequest::ReadWord {
        object: SYSTEM_OBJECT,
        address: PropertyAddress::default_device(scope),
    })
    &&& match crate::default_device::default_outcome(steps[0].reply) {
        None => steps.len() == 1 && r == Err::<StringHandle, PropertyError>(
            PropertyError::PluginResolutionError,
        ),
        Some(device) => {
            &&& steps.len() == 2
            &&& steps[1].request == (HalRequest::ReadText {
                object: device,
                address: PropertyAddress::of(crate::address::Property::DeviceUID, Scope::Global),
            })
            &&& r == sub_device_outcome(crate::hal::text_outcome(steps[1].reply))
        },
    }
}

/// Resolves the sub-device of an aggregate device for a directional scope.
/// The caller owns the reference to the identifier.
pub fn get_sub_device<H: Fn(HalRequest) -> HalReply>(
    platform: &mut Platform<H>,
    scope: Scope,
) -> (r: Result<StringHandle, PropertyError>)
    requires
        scope.is_directional(),
    ensures
        final(platform).follows(old(platform)),
        resolves_sub_device(scope, final(platform).since(old(platform)), r),
        r matches Ok(handle) ==> !handle.is_null(),
{
    let ghost start = *platform;
    match get_default_device(platform, scope) {
        None => Err(PropertyError::PluginResolutionError),
        Some(device) => {
            let ghost mid = *platform;
            let uid = get_device_global_uid(platform, device);
            proof {
                platform.lemma_follows(&mid, &start);
            }
            match uid {
                Ok(handle) => if handle.is_null() {
                    Err(PropertyError::PluginResolutionError)
                } else {
                    Ok(handle)
                },
                Err(_) => Err(PropertyError::PluginResolutionError),
            }
        },
    }
}

/// The manager of one aggregate device.
///
/// It is plugged while its device exists, and then `device_id` is the
/// device's handle; else `device_id` is the reserved handle.
#[derive(Clone, Copy, Debug, PartialEq, Eq, Structural)]
pub struct DevicePlugger {
    /// The scope whose default device becomes the sub-device.
    pub scope: Scope,
    /// The plugin that makes and destroys the device.
    pub plugin_id: ObjectId,
    /// The device, where there is one.
    pub device_id: ObjectId,
}

impl DevicePlugger {
    /// The manager knows its plugin and works on a directional scope.
    pub open spec fn wf(&self) -> bool {
        self.plugin_id != OBJECT_UNKNOWN && self.scope.is_directional()
    }

    pub open spec fn spec_is_plugging(&self) -> bool {
        self.device_id != OBJECT_UNKNOWN
    }

    pub open spec fn spec_get_device_id(&self) -> ObjectId {
        self.device_id
    }

    /// The manager after the platform's reply to the creation, and the
    /// result of `plug`: plugged with the new device where the creation
    /// succeeded and gave a device, unchanged else.
    pub open spec fn after_plug(self, reply: HalReply) -> (DevicePlugger, Result<
        (),
        PropertyError,
    >) {
        match crate::hal::word_outcome(reply) {
            Err(e) => (self, Err(e)),
            Ok(device) => if device == OBJECT_UNKNOWN {
                (self, Err(PropertyError::ContractViolation))
            } else {
                (DevicePlugger { device_id: device, ..self }, Ok(()))
            },
        }
    }

    /// The manager after the platform's reply to the destruction:
    /// unplugged where the destruction succeeded, unchanged else.
    pub open spec fn after_unplug(self, reply: HalReply) -> DevicePlugger {
        if reply.status == NO_ERR {
            DevicePlugger { device_id: OBJECT_UNKNOWN, ..self }
        } else {
            self
        }
    }

    /// Makes an unplugged manager for a directional scope, resolving the
    /// plugin once.
    pub fn new<H: Fn(HalRequest) -> HalReply>(platform: &mut Platform<H>, scope: Scope) -> (r:
        Result<DevicePlugger, PropertyError>)
        requires
            scope.is_directional(),
        ensures
            final(platform).follows(old(platform)),
            match r {
                Ok(plugger) => {
                    &&& resolves_plugin(final(platform).since(old(platform)), Ok(plugger.plugin_id))
                    &&& plugger.scope == scope
                    &&& plugger.device_id == OBJECT_UNKNOWN
                    &&& plugger.wf()
                },
                Err(e) => resolves_plugin(final(platform).since(old(platform)), Err(e)),
            },
    {
        match get_system_plugin_id(platform) {
            Ok(plugin_id) => Ok(DevicePlugger { scope, plugin_id, device_id: OBJECT_UNKNOWN }),
            Err(e) => Err(e),
        }
    }

    /// Gives the handle of the device; the reserved handle while unplugged.
    #[verifier::when_used_as_spec(spec_get_device_id)]
    pub fn get_device_id(&self) -> (r: ObjectId)
        ensures
            r == self.device_id,
    {
        self.device_id
    }

    /// Tells whether the device exists.
    #[verifier::when_used_as_spec(spec_is_plugging)]
    pub fn is_plugging(&self) -> (r: bool)
        ensures
            r == self.spec_is_plugging(),
    {
        self.device_id != OBJECT_UNKNOWN
    }

    /// Takes the platform's reply to the creation.
    pub fn plugged(&mut self, reply: &HalReply) -> (r: Result<(), PropertyError>)
        ensures
            (*final(self), r) == old(self).after_plug(*reply),
    {
        match word_from_reply(reply) {
            Err(e) => Err(e),
            Ok(device) => {
                if device == OBJECT_UNKNOWN {
                    Err(PropertyError::ContractViolation)
                } else {
                    self.device_id = device;
                    Ok(())
                }
            },
        }
    }

    /// Takes the platform's reply to the destruction.
    pub fn unplugged(&mut self, reply: &HalReply) -> (r: Result<(), PropertyError>)
        ensures
            *final(self) == old(self).after_unplug(*reply),
            r == crate::hal::status_outcome(*reply),
    {
        if reply.status == NO_ERR {
            self.device_id = OBJECT_UNKNOWN;
        }
        status_from_reply(reply)
    }

    /// Creates the aggregate device from the default device of the scope.
    /// `nanos` is the time of the clock in nanoseconds, which makes the
    /// new device's name and identifier unique.
    ///
    /// Where any step fails the manager stays unplugged.
    pub fn plug<H: Fn(HalRequest) -> HalReply>(
        &mut self,
        platform: &mut Platform<H>,
        nanos: u128,
    ) -> (r: Result<(), PropertyError>)
        requires
            old(self).wf(),
            !old(self).is_plugging(),
        ensures
            final(platform).follows(old(platform)),
            plugs(*old(self), nanos, final(platform).since(old(platform)), *final(self), r),
            final(self).wf(),
            r is Ok <==> final(self).is_plugging(),
            r is Err ==> *final(self) == *old(self),
    {
        let ghost start = *platform;
        match get_sub_device(platform, self.scope) {
            Err(e) => {
                proof {
                    let steps = platform.since(&start);
                    assert(crate::hal::joins(steps, steps, Seq::<Exchange>::empty()));
                }
                Err(e)
            },
            Ok(sub_device) => {
                let ghost resolved = *platform;
                let address = system_address(SELECTOR_CREATE_AGGREGATE_DEVICE);
                let size = read_size(platform, self.plugin_id, address);
                let ghost sized = *platform;
                let r = match size {
                    Err(e) => {
                        platform.ask(HalRequest::ReleaseText { handle: sub_device });
                        Err(e)
                    },
                    Ok(bytes) => {
                        if bytes == 0 {
                            platform.ask(HalRequest::ReleaseText { handle: sub_device });
                            Err(PropertyError::ContractViolation)
                        } else {
                            let description = describe_aggregate(sub_device, nanos);
                            let reply = platform.ask(
                                HalRequest::CreateAggregate {
                                    plugin: self.plugin_id,
                                    address,
                                    size: bytes,
                                    description,
                                },
                            );
                            self.plugged(&reply)
                        }
                    },
                };
                proof {
                    platform.lemma_follows(&sized, &resolved);
                    platform.lemma_follows(&resolved, &start);
                }
                r
            },
        }
    }

    /// Destroys the aggregate device.
    ///
    /// Where any step fails the manager stays plugged.
    pub fn unplug<H: Fn(HalRequest) -> HalReply>(&mut self, platform: &mut Platform<H>) -> (r:
        Result<(), PropertyError>)
        requires
            old(self).wf(),
            old(self).is_plugging(),
        ensures
            final(platform).follows(old(platform)),
            unplugs(*old(self), final(platform).since(old(platform)), *final(self), r),
            final(self).wf(),
            r is Ok <==> !final(self).is_plugging(),
            r is Err ==> *final(self) == *old(self),
    {
        let ghost start = *platform;
        let address = system_address(SELECTOR_DESTROY_AGGREGATE_DEVICE);
        match read_size(platform, self.plugin_id, address) {
            Err(e) => Err(e),
            Ok(bytes) => {
                if bytes == 0 {
                    Err(PropertyError::ContractViolation)
                } else {
                    let ghost mid = *platform;
                    let reply = platform.ask(
                        HalRequest::DestroyAggregate {
                            plugin: self.plugin_id,
                            address,
                            size: bytes,
                            device: self.device_id,
                        },
                    );
                    proof {
                        platform.lemma_follows(&mid, &start);
                    }
                    self.unplugged(&reply)
                }
            },
        }
    }
}

/// `request` asks `plugin` to create, through a read of `size` bytes, the
/// aggregate device made at `nanos` from `sub_device`.
pub open spec fn asks_for_creation(
    request: HalRequest,
    plugin: ObjectId,
    size: usize,
    sub_device: StringHandle,
    nanos: u128,
) -> bool {
    request matches HalRequest::CreateAggregate { plugin: p, address, size: s, description } && p
        == plugin && address == PropertyAddress::system(SELECTOR_CREATE_AGGREGATE_DEVICE) && s
        == size && describes(description, sub_device, nanos)
}

/// `steps` is the request for the creation, which leaves the manager
/// `before` as `after` and has the result `r`.
pub open spec fn creates(
    before: DevicePlugger,
    size: usize,
    sub_device: StringHandle,
    nanos: u128,
    steps: Seq<Exchange>,
    after: DevicePlugger,
    r: Result<(), PropertyError>,
) -> bool {
    &&& steps.len() == 1
    &&& asks_for_creation(steps[0].request, before.plugin_id, size, sub_device, nanos)
    &&& (after, r) == before.after_plug(steps[0].reply)
}

/// `steps` hands the reference to `text` back to the platform.
pub open spec fn releases(steps: Seq<Exchange>, text: StringHandle) -> bool {
    crate::hal::asked(steps, HalRequest::ReleaseText { handle: text })
}

/// `steps` is what `plug` does once `sub_device` is resolved; it leaves
/// the manager `before` as `after` and has the result `r`.
///
/// The size of the creation is asked for first. Where that fails, or the
/// size is zero, the sub-device is released and nothing is created. Else
/// the creation is requested, and the sub-device passes to the request.
pub open spec fn prepares_creation(
    before: DevicePlugger,
    sub_device: StringHandle,
    nanos: u128,
    steps: Seq<Exchange>,
    after: DevicePlugger,
    r: Result<(), PropertyError>,
) -> bool {
    &&& steps.len() == 2
    &&& steps[0].request == (HalRequest::PropertySize {
        object: before.plugin_id,
        address: PropertyAddress::system(SELECTOR_CREATE_AGGREGATE_DEVICE),
    })
    &&& match crate::hal::size_outcome(steps[0].reply) {
        Err(e) => after == before && r == Err::<(), PropertyError>(e) && releases(
            steps.skip(1),
            sub_device,
        ),
        Ok(bytes) => if bytes == 0 {
            after == before && r == Err::<(), PropertyError>(PropertyError::ContractViolation)
                && releases(steps.skip(1), sub_device)
        } else {
            creates(before, bytes, sub_device, nanos, steps.skip(1), after, r)
        },
    }
}

/// `steps` is a `plug` at `nanos`, which leaves the manager `before` as
/// `after` and has the result `r`: the sub-device is resolved, and where
/// that fails nothing more is asked; else the creation is prepared and
/// requested.
pub open spec fn plugs(
    before: DevicePlugger,
    nanos: u128,
    steps: Seq<Exchange>,
    after: DevicePlugger,
    r: Result<(), PropertyError>,
) -> bool {
    exists|
        first: Seq<Exchange>,
        rest: Seq<Exchange>,
        sub_device: Result<StringHandle, PropertyError>,
    |
        #![trigger crate::hal::joins(steps, first, rest), resolves_sub_device(before.scope, first, sub_device)]
        crate::hal::joins(steps, first, rest) && resolves_sub_device(
            before.scope,
            first,
            sub_device,
        ) && match sub_device {
            Err(e) => rest.len() == 0 && after == before && r == Err::<(), PropertyError>(e),
            Ok(handle) => prepares_creation(before, handle, nanos, rest, after, r),
        }
}

/// `steps` is an `unplug`, which leaves the manager `before` as `after`
/// and has the result `r`.
///
/// The size of the destruction is asked for first. Where that fails
/// nothing more is asked; a size of zero is a contract violation. Else the
/// destruction of the manager's device is requested from its plugin.
pub open spec fn unplugs(
    before: DevicePlugger,
    steps: Seq<Exchange>,
    after: DevicePlugger,
    r: Result<(), PropertyError>,
) -> bool {
    &&& steps.len() >= 1
    &&& steps[0].request == (HalRequest::PropertySize {
        object: before.plugin_id,
        address: PropertyAddress::system(SELECTOR_DESTROY_AGGREGATE_DEVICE),
    })
    &&& match crate::hal::size_outcome(steps[0].reply) {
        Err(e) => steps.len() == 1 && after == before && r == Err::<(), PropertyError>(e),
        Ok(bytes) => if bytes == 0 {
            steps.len() == 1 && after == before && r == Err::<(), PropertyError>(
                PropertyError::ContractViolation,
            )
        } else {
            &&& steps.len() == 2
            &&& steps[1].request == (HalRequest::DestroyAggregate {
                plugin: before.plugin_id,
                address: PropertyAddress::system(SELECTOR_DESTROY_AGGREGATE_DEVICE),
                size: bytes,
                device: before.device_id,
            })
            &&& after == before.after_unplug(steps[1].reply)
            &&& r == crate::hal::status_outcome(steps[1].reply)
        },
    }
}

/// A `plug` and an `unplug` that both succeed lead from an unplugged
/// manager back to the same unplugged manager: its device handle is the
/// reserved handle again, and the device that was destroyed is the one
/// that was created.
pub proof fn law_plug_then_unplug_is_unplugged(
    before: DevicePlugger,
    plugged: DevicePlugger,
    after: DevicePlugger,
    nanos: u128,
    plug_steps: Seq<Exchange>,
    unplug_steps: Seq<Exchange>,
    plug_result: Result<(), PropertyError>,
    unplug_result: Result<(), PropertyError>,
)
    requires
        !before.is_plugging(),
        plugs(before, nanos, plug_steps, plugged, plug_result),
        plug_result is Ok,
        unplugs(plugged, unplug_steps, after, unplug_result),
        unplug_result is Ok,
    ensures
        plugged.is_plugging(),
        after == before,
        after.device_id == OBJECT_UNKNOWN,
        unplug_steps.len() == 2,
        unplug_steps[1].request matches HalRequest::DestroyAggregate { device, .. } && device
            == plugged.device_id,
{
}

/// The device handle tells the state: a reply to a creation leaves the
/// manager plugged exactly where the creation gave a device, and a reply
/// to a destruction leaves it unplugged exactly where the destruction
/// succeeded.
pub proof fn law_device_handle_tells_the_state(plugger: DevicePlugger, reply: HalReply)
    requires
        !plugger.is_plugging(),
    ensures
        plugger.after_plug(reply).1 is Ok <==> plugger.after_plug(reply).0.is_plugging(),
        plugger.after_plug(reply).1 is Err ==> plugger.after_plug(reply).0 == plugger,
        reply.status == NO_ERR ==> !plugger.after_unplug(reply).is_plugging(),
        reply.status != NO_ERR ==> plugger.after_unplug(reply) == plugger,
{
}

} // verus!
