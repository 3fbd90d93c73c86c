//! The system's default input and output device: reading it, changing it,
//! and cycling it through the devices of a scope.

use vstd::prelude::*;
use crate::address::{default_device_address, PropertyAddress};
use crate::devices::{is_device_in_scope, list_devices_in_scope};
use crate::hal::{status_from_reply, word_from_reply, Exchange, HalReply, HalRequest, Platform};
use crate::object::{ObjectId, PropertyError, OBJECT_UNKNOWN, SYSTEM_OBJECT};
use crate::scope::Scope;

verus! {

/// What the reply to a read of the default device means: the device, unless
/// the read failed or gave the reserved handle.
pub open spec fn default_outcome(reply: HalReply) -> Option<ObjectId> {
    match crate::hal::word_outcome(reply) {
        Ok(device) => if device != OBJECT_UNKNOWN {
            Some(device)
        } else {
            None
        },
        Err(_) => None,
    }
}

/// Reads the reply to a read of the default device.
pub fn default_from_reply(reply: &HalReply) -> (r: Option<ObjectId>)
    ensures
        r == default_outcome(*reply),
{
    match word_from_reply(reply) {
        Ok(device) => if device != OBJECT_UNKNOWN {
            Some(device)
        } else {
            None
        },
        Err(_) => None,
    }
}

/// `steps` is a read of the default device of `scope`, with the result `r`.
pub open spec fn finds_default(scope: Scope, steps: Seq<Exchange>, r: Option<ObjectId>) -> bool {
    crate::hal::asked(
        steps,
        HalRequest::ReadWord {
            object: SYSTEM_OBJECT,
            address: PropertyAddress::default_device(scope),
        },
    ) && r == default_outcome(steps[0].reply)
}

/// Reads the system's default device for a directional scope; `None` where
/// the query fails or the system has no such default.
pub fn get_default_device<H: Fn(HalRequest) -> HalReply>(
    platform: &mut Platform<H>,
    scope: Scope,
) -> (r: Option<ObjectId>)
    requires
        scope.is_directional(),
    ensures
        final(platform).follows(old(platform)),
        finds_default(scope, final(platform).since(old(platform)), r),
        r matches Some(device) ==> device != OBJECT_UNKNOWN,
{
    let address = default_device_address(scope);
    let reply = platform.ask(HalRequest::ReadWord { object: SYSTEM_OBJECT, address });
    default_from_reply(&reply)
}

/// Whether `device` could take the place of `current` as the default:
/// only where there is a default and it is another device.
pub open spec fn spec_may_replace(current: Option<ObjectId>, device: ObjectId) -> bool {
    current matches Some(c) && c != device
}

/// Tells whether `device` could take the place of `current` as the default.
#[verifier::when_used_as_spec(spec_may_replace)]
pub fn may_replace(current: Option<ObjectId>, device: ObjectId) -> (r: bool)
    ensures
        r == spec_may_replace(current, device),
{
    match current {
        Some(c) => c != device,
        None => false,
    }
}

/// The write that makes `device` the default of `scope` once the device
/// was judged against the scope: none for a device that is not in scope.
pub open spec fn spec_default_write(device: ObjectId, scope: Scope, in_scope: bool) -> Option<
    HalRequest,
> {
    if in_scope {
        Some(
            HalRequest::WriteWord {
                object: SYSTEM_OBJECT,
                address: PropertyAddress::default_device(scope),
                value: device,
            },
        )
    } else {
        None
    }
}

/// Gives the write that makes `device` the default of a directional
/// scope, if the device is in scope.
pub fn default_write(device: ObjectId, scope: Scope, in_scope: bool) -> (r: Option<HalRequest>)
    requires
        scope.is_directional(),
    ensures
        r == spec_default_write(device, scope, in_scope),
{
    if in_scope {
        Some(
            HalRequest::WriteWord {
                object: SYSTEM_OBJECT,
                address: default_device_address(scope),
                value: device,
            },
        )
    } else {
        None
    }
}

/// What the reply to the write of the default device means: `true` where
/// the write succeeded, the platform's status else.
pub open spec fn written(reply: HalReply) -> Result<bool, PropertyError> {
    match crate::hal::status_outcome(reply) {
        Ok(_) => Ok(true),
        Err(e) => Err(e),
    }
}

/// Reads the reply to the write of the default device.
pub fn written_from_reply(reply: &HalReply) -> (r: Result<bool, PropertyError>)
    ensures
        r == written(*reply),
{
    match status_from_reply(reply) {
        Ok(_) => Ok(true),
        Err(e) => Err(e),
    }
}

/// `steps` is the attempt to put `device` in the place of another default,
/// with the result `r`: the device is judged against the scope. A device
/// that is not in scope is not written: nothing more is asked and the
/// result is `Ok(false)`. A device in scope is written.
pub open spec fn replaces_default(
    device: ObjectId,
    scope: Scope,
    steps: Seq<Exchange>,
    r: Result<bool, PropertyError>,
) -> bool {
    exists|first: Seq<Exchange>, rest: Seq<Exchange>, flag: bool|
        #![trigger crate::hal::joins(steps, first, rest), crate::devices::judges_in_scope(device, scope, first, flag)]
        crate::hal::joins(steps, first, rest) && crate::devices::judges_in_scope(
            device,
            scope,
            first,
            flag,
        ) && match spec_default_write(device, scope, flag) {
            Some(request) => crate::hal::asked(rest, request) && r == written(rest[0].reply),
            None => rest.len() == 0 && r == Ok::<bool, PropertyError>(false),
        }
}

/// `steps` is the attempt to make `device` the default of `scope`, with
/// the result `r`.
///
/// The current default is read first. Where there is no current default,
/// or `device` is the current default already, nothing more is asked and
/// the result is `Ok(false)`. Else the device is judged and, if it is in
/// scope, written.
pub open spec fn sets_default(
    device: ObjectId,
    scope: Scope,
    steps: Seq<Exchange>,
    r: Result<bool, PropertyError>,
) -> bool {
    &&& steps.len() >= 1
    &&& steps[0].request == (HalRequest::ReadWord {
        object: SYSTEM_OBJECT,
        address: PropertyAddress::default_device(scope),
    })
    &&& if may_replace(default_outcome(steps[0].reply), device) {
        replaces_default(device, scope, steps.skip(1), r)
    } else {
        steps.len() == 1 && r == Ok::<bool, PropertyError>(false)
    }
}

/// Whether a write of a property is among `steps`.
pub open spec fn writes(steps: Seq<Exchange>) -> bool {
    exists|i: int| 0 <= i < steps.len() && (#[trigger] steps[i]).request is WriteWord
}

/// Makes `device` the system's default for a directional scope.
///
/// Returns `Ok(true)` where the default was written, `Ok(false)` where
/// there was nothing to do or the device does not qualify, and the
/// platform's status where the write failed. The platform itself would
/// accept any handle; the checks are made here.
pub fn set_default_device<H: Fn(HalRequest) -> HalReply>(
    platform: &mut Platform<H>,
    device: ObjectId,
    scope: Scope,
) -> (r: Result<bool, PropertyError>)
    requires
        scope.is_directional(),
    ensures
        final(platform).follows(old(platform)),
        sets_default(device, scope, final(platform).since(old(platform)), r),
{
    let ghost start = *platform;
    let current = get_default_device(platform, scope);
    let ghost read = *platform;
    if !may_replace(current, device) {
        return Ok(false);
    }
    let flag = is_device_in_scope(platform, device, scope);
    let ghost judged = *platform;
    let r = match default_write(device, scope, flag) {
        None => {
            proof {
                judged.lemma_follows_itself();
            }
            Ok(false)
        },
        Some(request) => {
            let reply = platform.ask(request);
            written_from_reply(&reply)
        },
    };
    proof {
        platform.lemma_follows(&judged, &read);
        platform.lemma_follows(&read, &start);
        assert(platform.since(&start).skip(1) =~= platform.since(&read));
    }
    r
}

/// Setting the device that is the default already returns `Ok(false)`,
/// and nothing is asked of the platform but the current default.
pub proof fn law_current_default_is_not_set_again(
    device: ObjectId,
    scope: Scope,
    steps: Seq<Exchange>,
    r: Result<bool, PropertyError>,
)
    requires
        sets_default(device, scope, steps, r),
        finds_default(scope, steps.take(1), Some(device)),
    ensures
        r == Ok::<bool, PropertyError>(false),
        steps.len() == 1,
        !writes(steps),
{
}

/// Setting a device that is judged not to be in the scope returns
/// `Ok(false)`, and nothing is written.
pub proof fn law_device_out_of_scope_is_not_set(
    device: ObjectId,
    scope: Scope,
    steps: Seq<Exchange>,
    r: Result<bool, PropertyError>,
    judgement: Seq<Exchange>,
)
    requires
        sets_default(device, scope, steps, r),
        judgement.is_prefix_of(steps.skip(1)),
        crate::devices::judges_in_scope(device, scope, judgement, false),
    ensures
        r == Ok::<bool, PropertyError>(false),
        !writes(steps),
{
    if may_replace(default_outcome(steps[0].reply), device) {
        let rest_of = steps.skip(1);
        let (first, rest, flag) = choose|first: Seq<Exchange>, rest: Seq<Exchange>, flag: bool|
            #![trigger crate::hal::joins(rest_of, first, rest), crate::devices::judges_in_scope(device, scope, first, flag)]
            crate::hal::joins(rest_of, first, rest) && crate::devices::judges_in_scope(
                device,
                scope,
                first,
                flag,
            ) && match spec_default_write(device, scope, flag) {
                Some(request) => crate::hal::asked(rest, request) && r == written(rest[0].reply),
                None => rest.len() == 0 && r == Ok::<bool, PropertyError>(false),
            };
        crate::devices::lemma_judgement_is_determined(
            device,
            scope,
            rest_of,
            judgement,
            false,
            first,
            flag,
        );
        crate::devices::lemma_judgement_only_reads(device, scope, first, flag);
    }
}

/// `i` is the first place of `device` in `devices`.
pub open spec fn is_first_index(devices: Seq<ObjectId>, device: ObjectId, i: int) -> bool {
    &&& 0 <= i < devices.len()
    &&& devices[i] == device
    &&& forall|j: int| 0 <= j < i ==> devices[j] != device
}

/// The first place of `device` in `devices`, for a device that occurs there.
pub open spec fn first_index(devices: Seq<ObjectId>, device: ObjectId) -> int {
    choose|i: int| is_first_index(devices, device, i)
}

/// The place that follows place `i` in a list of `n` places, the first
/// following the last: `(i + 1) mod n`.
pub open spec fn next_place(i: int, n: int) -> int {
    if i + 1 == n {
        0
    } else {
        i + 1
    }
}

/// The following place is the place plus one, modulo the number of places.
pub proof fn lemma_next_place_is_modular(i: int, n: int)
    requires
        0 <= i < n,
    ensures
        next_place(i, n) == (i + 1) % n,
{
    if i + 1 == n {
        assert(n % n == 0) by (nonlinear_arith)
            requires
                0 < n,
        ;
    } else {
        assert((i + 1) % n == i + 1) by (nonlinear_arith)
            requires
                0 <= i + 1 < n,
        ;
    }
}

/// The device that follows the first occurrence of `device` in `devices`,
/// the first device following the last; `None` for a device that does not
/// occur.
pub open spec fn successor(devices: Seq<ObjectId>, device: ObjectId) -> Option<ObjectId> {
    if devices.contains(device) {
        Some(devices[next_place(first_index(devices, device), devices.len() as int)])
    } else {
        None
    }
}

/// Gives the device that follows `device` in `devices`, wrapping at the end.
pub fn next_device(devices: &Vec<ObjectId>, device: ObjectId) -> (r: Option<ObjectId>)
    ensures
        r == successor(devices@, device),
        r matches Some(next) ==> devices@.contains(next),
{
    let mut i: usize = 0;
    while i < devices.len()
        invariant
            i <= devices@.len(),
            forall|j: int| 0 <= j < i ==> devices@[j] != device,
        decreases devices@.len() - i,
    {
        if devices[i] == device {
            let n: usize = (i + 1) % devices.len();
            proof {
                assert(is_first_index(devices@, device, i as int));
                assert(first_index(devices@, device) == i);
                lemma_next_place_is_modular(i as int, devices@.len() as int);
            }
            return Some(devices[n]);
        }
        i += 1;
    }
    None
}

/// Cycles the default device of a scope through the devices that were in
/// that scope when the switcher was made. The list is not refreshed.
#[derive(Debug)]
pub struct DeviceSwitcher {
    pub scope: Scope,
    pub devices: Vec<ObjectId>,
}

/// `steps` is one step of a switcher over `devices`, with the result `r`.
///
/// The current default is read first. Where there is none, or it is not
/// among `devices`, nothing more is asked and the step fails with
/// `PluginResolutionError`. Else its successor in `devices` is made the
/// default.
pub open spec fn switches(
    scope: Scope,
    devices: Seq<ObjectId>,
    steps: Seq<Exchange>,
    r: Result<bool, PropertyError>,
) -> bool {
    &&& steps.len() >= 1
    &&& steps[0].request == (HalRequest::ReadWord {
        object: SYSTEM_OBJECT,
        address: PropertyAddress::default_device(scope),
    })
    &&& match default_outcome(steps[0].reply) {
        None => steps.len() == 1 && r == Err::<bool, PropertyError>(
            PropertyError::PluginResolutionError,
        ),
        Some(current) => match successor(devices, current) {
            None => steps.len() == 1 && r == Err::<bool, PropertyError>(
                PropertyError::PluginResolutionError,
            ),
            Some(next) => sets_default(next, scope, steps.skip(1), r),
        },
    }
}

impl DeviceSwitcher {
    /// Makes a switcher for a directional scope from the devices that are
    /// in that scope now.
    pub fn new<H: Fn(HalRequest) -> HalReply>(platform: &mut Platform<H>, scope: Scope) -> (r:
        Result<DeviceSwitcher, PropertyError>)
        requires
            scope.is_directional(),
        ensures
            final(platform).follows(old(platform)),
            crate::devices::lists_devices_in_scope(
                scope,
                final(platform).since(old(platform)),
                match r {
                    Ok(switcher) => Ok(switcher.devices@),
                    Err(e) => Err(e),
                },
            ),
            r matches Ok(switcher) ==> switcher.scope == scope,
    {
        match list_devices_in_scope(platform, scope) {
            Ok(devices) => Ok(DeviceSwitcher { scope, devices }),
            Err(e) => Err(e),
        }
    }

    /// Moves the default device on to the device that follows it in the
    /// switcher's list, the first following the last.
    pub fn next<H: Fn(HalRequest) -> HalReply>(&self, platform: &mut Platform<H>) -> (r: Result<
        bool,
        PropertyError,
    >)
        requires
            self.scope.is_directional(),
        ensures
            final(platform).follows(old(platform)),
            switches(self.scope, self.devices@, final(platform).since(old(platform)), r),
    {
        let ghost start = *platform;
        let current = get_default_device(platform, self.scope);
        let ghost read = *platform;
        match current {
            None => Err(PropertyError::PluginResolutionError),
            Some(current) => match next_device(&self.devices, current) {
                None => Err(PropertyError::PluginResolutionError),
                Some(next) => {
                    let r = set_default_device(platform, next, self.scope);
                    proof {
                        platform.lemma_follows(&read, &start);
                        assert(platform.since(&start).skip(1) =~= platform.since(&read));
                    }
                    r
                },
            },
        }
    }
}

/// The device that a switcher over `devices` reaches from `device` in
/// `steps` steps, each step succeeding.
pub open spec fn after_steps(devices: Seq<ObjectId>, device: ObjectId, steps: nat) -> ObjectId
    decreases steps,
{
    if steps == 0 {
        device
    } else {
        match successor(devices, after_steps(devices, device, (steps - 1) as nat)) {
            Some(next) => next,
            None => device,
        }
    }
}

/// In a list without repetition, a device is the first at its place.
pub proof fn lemma_place_is_first_index(devices: Seq<ObjectId>, i: int)
    requires
        devices.no_duplicates(),
        0 <= i < devices.len(),
    ensures
        devices.contains(devices[i]),
        first_index(devices, devices[i]) == i,
{
    assert(is_first_index(devices, devices[i], i));
}

/// In a list without repetition, `steps` steps from the device at place `i`
/// lead to the device at place `i + steps`, counted round the list.
pub proof fn lemma_steps_advance(devices: Seq<ObjectId>, i: int, steps: nat)
    requires
        devices.no_duplicates(),
        0 <= i < devices.len(),
    ensures
        after_steps(devices, devices[i], steps) == devices[(i + steps) % (devices.len() as int)],
    decreases steps,
{
    let n = devices.len() as int;
    if steps == 0 {
        assert(i % n == i) by (nonlinear_arith)
            requires
                0 <= i < n,
        ;
    } else {
        let before = (steps - 1) as nat;
        lemma_steps_advance(devices, i, before);
        let at = (i + before) % n;
        assert(0 <= at < n) by (nonlinear_arith)
            requires
                at == (i + before) % n,
                0 < n,
        ;
        lemma_place_is_first_index(devices, at);
        lemma_next_place_is_modular(at, n);
        assert((at + 1) % n == (i + steps) % n) by (nonlinear_arith)
            requires
                at == (i + before) % n,
                before + 1 == steps,
                0 < n,
        ;
    }
}

/// Cycling wraps round the list: in a list of distinct devices, as many
/// steps as the list is long lead from any of its devices back to that
/// device.
pub proof fn law_full_cycle_returns(devices: Seq<ObjectId>, device: ObjectId)
    requires
        devices.no_duplicates(),
        devices.contains(device),
    ensures
        after_steps(devices, device, devices.len()) == device,
{
    let i = choose|i: int| 0 <= i < devices.len() && devices[i] == device;
    let n = devices.len() as int;
    lemma_steps_advance(devices, i, devices.len());
    assert((i + n) % n == i) by (nonlinear_arith)
        requires
            0 <= i < n,
    ;
}

} // verus!
