//! Enumeration of the devices that the system knows, and the channels that
//! a device offers in a scope.

use vstd::prelude::*;
use crate::address::{
    device_address, system_address, PropertyAddress, SELECTOR_DEVICES,
    SELECTOR_STREAM_CONFIGURATION,
};
use crate::hal::{read_size, ChannelGroup, Exchange, HalReply, HalRequest, HalValue, Platform};
use crate::object::{ObjectId, PropertyError, NO_ERR, OBJECT_UNKNOWN, SYSTEM_OBJECT};
use crate::scope::Scope;

verus! {

/// The size in bytes of one object handle in the system's device list.
pub const OBJECT_ID_SIZE: usize = 4;

/// The view of a list of handles, or the error in its place.
pub open spec fn handles(r: Result<Vec<ObjectId>, PropertyError>) -> Result<
    Seq<ObjectId>,
    PropertyError,
> {
    match r {
        Ok(list) => Ok(list@),
        Err(e) => Err(e),
    }
}

/// What the reply to a read of `count` handles means: the handles in the
/// platform's order, where there are `count` of them and none is the
/// reserved handle; a contract violation else.
pub open spec fn device_list_outcome(count: usize, reply: HalReply) -> Result<
    Seq<ObjectId>,
    PropertyError,
> {
    if reply.status != NO_ERR {
        Err(PropertyError::PlatformStatusError(reply.status))
    } else {
        match reply.value {
            HalValue::Words(list) => if list@.len() == count && !list@.contains(OBJECT_UNKNOWN) {
                Ok(list@)
            } else {
                Err(PropertyError::ContractViolation)
            },
            _ => Err(PropertyError::ContractViolation),
        }
    }
}

/// `steps` is a read of `count` device handles, with the result `r`.
pub open spec fn fetches_devices(
    count: usize,
    steps: Seq<Exchange>,
    r: Result<Seq<ObjectId>, PropertyError>,
) -> bool {
    crate::hal::asked(
        steps,
        HalRequest::ReadWords {
            object: SYSTEM_OBJECT,
            address: PropertyAddress::system(SELECTOR_DEVICES),
            count,
        },
    ) && r == device_list_outcome(count, steps[0].reply)
}

/// `steps` is the enumeration of all devices, with the result `r`.
///
/// The size of the list is asked for first. A size of zero is an empty list
/// and nothing more is asked; a size that is no multiple of a handle's size
/// is a contract violation; any other size is followed by one read of as
/// many handles as the size holds.
pub open spec fn lists_devices(
    steps: Seq<Exchange>,
    r: Result<Seq<ObjectId>, PropertyError>,
) -> bool {
    &&& steps.len() >= 1
    &&& steps[0].request == (HalRequest::PropertySize {
        object: SYSTEM_OBJECT,
        address: PropertyAddress::system(SELECTOR_DEVICES),
    })
    &&& match crate::hal::size_outcome(steps[0].reply) {
        Err(e) => steps.len() == 1 && r == Err::<Seq<ObjectId>, PropertyError>(e),
        Ok(bytes) => if bytes == 0 {
            steps.len() == 1 && r == Ok::<Seq<ObjectId>, PropertyError>(Seq::empty())
        } else if bytes % OBJECT_ID_SIZE != 0 {
            steps.len() == 1 && r == Err::<Seq<ObjectId>, PropertyError>(
                PropertyError::ContractViolation,
            )
        } else {
            fetches_devices(bytes / OBJECT_ID_SIZE, steps.skip(1), r)
        },
    }
}

/// Reads the reply to a read of `count` device handles.
pub fn devices_from_reply(count: usize, reply: HalReply) -> (r: Result<
    Vec<ObjectId>,
    PropertyError,
>)
    ensures
        handles(r) == device_list_outcome(count, reply),
        r matches Ok(list) ==> forall|i: int| 0 <= i < list@.len() ==> list@[i] != OBJECT_UNKNOWN,
{
    if reply.status != NO_ERR {
        return Err(PropertyError::PlatformStatusError(reply.status));
    }
    match reply.value {
        HalValue::Words(list) => {
            if list.len() != count {
                return Err(PropertyError::ContractViolation);
            }
            let mut i: usize = 0;
            while i < list.len()
                invariant
                    i <= list@.len(),
                    forall|j: int| 0 <= j < i ==> list@[j] != OBJECT_UNKNOWN,
                    reply.status == NO_ERR,
                    reply.value == HalValue::Words(list),
                    list@.len() == count,
                decreases list@.len() - i,
            {
                if list[i] == OBJECT_UNKNOWN {
                    return Err(PropertyError::ContractViolation);
                }
                i += 1;
            }
            Ok(list)
        },
        _ => Err(PropertyError::ContractViolation),
    }
}

/// Lists the handles of all devices that the system knows, in the
/// platform's order. No device at all is an empty list, not an error.
/// No handle in the list is the reserved handle.
pub fn list_all_devices<H: Fn(HalRequest) -> HalReply>(platform: &mut Platform<H>) -> (r: Result<
    Vec<ObjectId>,
    PropertyError,
>)
    ensures
        final(platform).follows(old(platform)),
        lists_devices(final(platform).since(old(platform)), handles(r)),
        r matches Ok(list) ==> forall|i: int| 0 <= i < list@.len() ==> list@[i] != OBJECT_UNKNOWN,
{
    let ghost start = *platform;
    let address = system_address(SELECTOR_DEVICES);
    let size = read_size(platform, SYSTEM_OBJECT, address);
    match size {
        Err(e) => Err(e),
        Ok(bytes) => {
            if bytes == 0 {
                let list: Vec<ObjectId> = Vec::new();
                Ok(list)
            } else if bytes % OBJECT_ID_SIZE != 0 {
                Err(PropertyError::ContractViolation)
            } else {
                let ghost mid = *platform;
                let count: usize = bytes / OBJECT_ID_SIZE;
                let reply = platform.ask(
                    HalRequest::ReadWords { object: SYSTEM_OBJECT, address, count },
                );
                proof {
                    platform.lemma_follows(&mid, &start);
                }
                devices_from_reply(count, reply)
            }
        },
    }
}

/// The number of channels in a channel buffer descriptor list: the sum of
/// the channels of its groups.
pub open spec fn total_channels(groups: Seq<ChannelGroup>) -> nat
    decreases groups.len(),
{
    if groups.len() == 0 {
        0
    } else {
        total_channels(groups.drop_last()) + groups.last().channels as nat
    }
}

/// What the reply to a read of a channel buffer descriptor list means: the
/// number of channels in the list, which has to fit in 32 bits.
pub open spec fn channels_outcome(reply: HalReply) -> Result<u32, PropertyError> {
    if reply.status != NO_ERR {
        Err(PropertyError::PlatformStatusError(reply.status))
    } else {
        match reply.value {
            HalValue::Channels(groups) => if total_channels(groups@) <= u32::MAX {
                Ok(total_channels(groups@) as u32)
            } else {
                Err(PropertyError::ContractViolation)
            },
            _ => Err(PropertyError::ContractViolation),
        }
    }
}

/// The channels of the first groups of a list are no more than those of
/// the whole list.
pub proof fn lemma_total_channels_grows(groups: Seq<ChannelGroup>, n: int)
    requires
        0 <= n <= groups.len(),
    ensures
        total_channels(groups.take(n)) <= total_channels(groups),
    decreases groups.len() - n,
{
    if n == groups.len() {
        assert(groups.take(n) =~= groups);
    } else {
        lemma_total_channels_grows(groups, n + 1);
        assert(groups.take(n + 1).drop_last() =~= groups.take(n));
    }
}

/// Adds up the channels of a channel buffer descriptor list; `None` where
/// the sum does not fit in 32 bits.
pub fn count_channels(groups: &Vec<ChannelGroup>) -> (r: Option<u32>)
    ensures
        match r {
            Some(n) => n == total_channels(groups@),
            None => total_channels(groups@) > u32::MAX,
        },
{
    let mut sum: u32 = 0;
    let mut i: usize = 0;
    while i < groups.len()
        invariant
            i <= groups@.len(),
            sum == total_channels(groups@.take(i as int)),
        decreases groups@.len() - i,
    {
        proof {
            assert(groups@.take(i + 1).drop_last() =~= groups@.take(i as int));
            lemma_total_channels_grows(groups@, i + 1);
        }
        match sum.checked_add(groups[i].channels) {
            Some(next) => {
                sum = next;
            },
            None => {
                return None;
            },
        }
        i += 1;
    }
    assert(groups@.take(i as int) =~= groups@);
    Some(sum)
}

/// Reads the reply to a read of a channel buffer descriptor list.
pub fn channels_from_reply(reply: &HalReply) -> (r: Result<u32, PropertyError>)
    ensures
        r == channels_outcome(*reply),
{
    if reply.status != NO_ERR {
        return Err(PropertyError::PlatformStatusError(reply.status));
    }
    match &reply.value {
        HalValue::Channels(groups) => match count_channels(groups) {
            Some(n) => Ok(n),
            None => Err(PropertyError::ContractViolation),
        },
        _ => Err(PropertyError::ContractViolation),
    }
}

/// `steps` is a read of the descriptor list of `id` in `scope`, `size`
/// bytes long, with the result `r`.
pub open spec fn fetches_channels(
    id: ObjectId,
    scope: Scope,
    size: usize,
    steps: Seq<Exchange>,
    r: Result<u32, PropertyError>,
) -> bool {
    crate::hal::asked(
        steps,
        HalRequest::ReadChannels {
            object: id,
            address: PropertyAddress::device(SELECTOR_STREAM_CONFIGURATION, scope),
            size,
        },
    ) && r == channels_outcome(steps[0].reply)
}

/// `steps` is the count of the channels of `id` in `scope`, with the
/// result `r`.
///
/// The size of the descriptor list is asked for first. A size of zero means
/// no channels and nothing more is asked; any other size is followed by one
/// read of a list of that size. A failed query is an error, never a count
/// of zero.
pub open spec fn counts_channels(
    id: ObjectId,
    scope: Scope,
    steps: Seq<Exchange>,
    r: Result<u32, PropertyError>,
) -> bool {
    &&& steps.len() >= 1
    &&& steps[0].request == (HalRequest::PropertySize {
        object: id,
        address: PropertyAddress::device(SELECTOR_STREAM_CONFIGURATION, scope),
    })
    &&& match crate::hal::size_outcome(steps[0].reply) {
        Err(e) => steps.len() == 1 && r == Err::<u32, PropertyError>(e),
        Ok(bytes) => if bytes == 0 {
            steps.len() == 1 && r == Ok::<u32, PropertyError>(0)
        } else {
            fetches_channels(id, scope, bytes, steps.skip(1), r)
        },
    }
}

/// Counts the channels that a device offers in a scope.
pub fn channel_count_in_scope<H: Fn(HalRequest) -> HalReply>(
    platform: &mut Platform<H>,
    id: ObjectId,
    scope: Scope,
) -> (r: Result<u32, PropertyError>)
    ensures
        final(platform).follows(old(platform)),
        counts_channels(id, scope, final(platform).since(old(platform)), r),
{
    let ghost start = *platform;
    let address = device_address(SELECTOR_STREAM_CONFIGURATION, scope);
    match read_size(platform, id, address) {
        Err(e) => Err(e),
        Ok(bytes) => {
            if bytes == 0 {
                Ok(0)
            } else {
                let ghost mid = *platform;
                let reply = platform.ask(
                    HalRequest::ReadChannels { object: id, address, size: bytes },
                );
                proof {
                    platform.lemma_follows(&mid, &start);
                }
                channels_from_reply(&reply)
            }
        },
    }
}

/// Whether a count of channels puts a device in the scope: the count was
/// read and is positive.
pub open spec fn spec_in_scope(count: Result<u32, PropertyError>) -> bool {
    count matches Ok(n) && n > 0
}

/// Tells whether a count of channels puts a device in the scope. A failed
/// count does not.
#[verifier::when_used_as_spec(spec_in_scope)]
pub fn in_scope(count: Result<u32, PropertyError>) -> (r: bool)
    ensures
        r == spec_in_scope(count),
{
    match count {
        Ok(n) => n > 0,
        Err(_) => false,
    }
}

/// `steps` is the judgement whether `id` is in `scope`, with the answer
/// `flag`: the channels are counted, and a positive count is a yes.
pub open spec fn judges_in_scope(
    id: ObjectId,
    scope: Scope,
    steps: Seq<Exchange>,
    flag: bool,
) -> bool {
    exists|count: Result<u32, PropertyError>| #[trigger]
        counts_channels(id, scope, steps, count) && flag == in_scope(count)
}

/// Tells whether a device offers at least one channel in a scope. A failed
/// query counts as "not in scope".
pub fn is_device_in_scope<H: Fn(HalRequest) -> HalReply>(
    platform: &mut Platform<H>,
    id: ObjectId,
    scope: Scope,
) -> (r: bool)
    ensures
        final(platform).follows(old(platform)),
        judges_in_scope(id, scope, final(platform).since(old(platform)), r),
{
    in_scope(channel_count_in_scope(platform, id, scope))
}

/// The devices, in their order, whose flag is set.
pub open spec fn retained(devices: Seq<ObjectId>, keep: Seq<bool>) -> Seq<ObjectId>
    recommends
        devices.len() == keep.len(),
    decreases devices.len(),
{
    if devices.len() == 0 {
        Seq::empty()
    } else if keep.last() {
        retained(devices.drop_last(), keep.drop_last()).push(devices.last())
    } else {
        retained(devices.drop_last(), keep.drop_last())
    }
}

/// The flags that a list of channel counts gives: set where the count puts
/// the device in the scope.
pub open spec fn in_scope_flags(counts: Seq<Result<u32, PropertyError>>) -> Seq<bool> {
    Seq::new(counts.len(), |i: int| in_scope(counts[i]))
}

/// `steps` is the judgement of each of `devices` against `scope`, one
/// after the other in their order, with the answers `keep`.
pub open spec fn judges_each(
    scope: Scope,
    devices: Seq<ObjectId>,
    keep: Seq<bool>,
    steps: Seq<Exchange>,
) -> bool
    decreases devices.len(),
{
    if devices.len() == 0 {
        steps.len() == 0
    } else {
        exists|first: Seq<Exchange>, rest: Seq<Exchange>| #[trigger]
            crate::hal::joins(steps, first, rest) && judges_each(
                scope,
                devices.drop_last(),
                keep.drop_last(),
                first,
            ) && judges_in_scope(devices.last(), scope, rest, keep.last())
    }
}

/// `steps` is the filter of `devices` by `scope`, which keeps `kept`:
/// each device is judged once, and those judged in scope stay, in order.
pub open spec fn selects_in_scope(
    scope: Scope,
    devices: Seq<ObjectId>,
    steps: Seq<Exchange>,
    kept: Seq<ObjectId>,
) -> bool {
    exists|keep: Seq<bool>|
        {
            &&& keep.len() == devices.len()
            &&& #[trigger] judges_each(scope, devices, keep, steps)
            &&& kept == retained(devices, keep)
        }
}

/// `steps` is the enumeration of the devices in `scope`, with the result
/// `r`: the enumeration of all devices, then the filter by `scope`. Where
/// the enumeration fails nothing more is asked.
pub open spec fn lists_devices_in_scope(
    scope: Scope,
    steps: Seq<Exchange>,
    r: Result<Seq<ObjectId>, PropertyError>,
) -> bool {
    exists|first: Seq<Exchange>, rest: Seq<Exchange>, all: Result<Seq<ObjectId>, PropertyError>|
        #![trigger crate::hal::joins(steps, first, rest), lists_devices(first, all)]
        crate::hal::joins(steps, first, rest) && lists_devices(first, all) && match all {
            Err(e) => rest.len() == 0 && r == Err::<Seq<ObjectId>, PropertyError>(e),
            Ok(devices) => r is Ok && selects_in_scope(scope, devices, rest, r->Ok_0),
        }
}

/// Picks from `devices` those that offer at least one channel in `scope`.
pub fn retain_devices_in_scope<H: Fn(HalRequest) -> HalReply>(
    platform: &mut Platform<H>,
    devices: &Vec<ObjectId>,
    scope: Scope,
) -> (kept: Vec<ObjectId>)
    ensures
        final(platform).follows(old(platform)),
        selects_in_scope(scope, devices@, final(platform).since(old(platform)), kept@),
        forall|i: int| 0 <= i < kept@.len() ==> devices@.contains(#[trigger] kept@[i]),
{
    let ghost start = *platform;
    let mut kept: Vec<ObjectId> = Vec::new();
    let ghost mut keep: Seq<bool> = Seq::empty();
    let mut i: usize = 0;
    proof {
        platform.lemma_follows_itself();
    }
    while i < devices.len()
        invariant
            i <= devices@.len(),
            keep.len() == i,
            platform.follows(&start),
            judges_each(scope, devices@.take(i as int), keep, platform.since(&start)),
            kept@ == retained(devices@.take(i as int), keep),
            forall|j: int| 0 <= j < kept@.len() ==> devices@.contains(#[trigger] kept@[j]),
        decreases devices@.len() - i,
    {
        let ghost mid = *platform;
        let device = devices[i];
        let flag = is_device_in_scope(platform, device, scope);
        proof {
            let before = keep;
            keep = keep.push(flag);
            platform.lemma_follows(&mid, &start);
            assert(keep.drop_last() =~= before);
            assert(devices@.take(i + 1).drop_last() =~= devices@.take(i as int));
        }
        if flag {
            kept.push(device);
        }
        i += 1;
    }
    assert(devices@.take(i as int) =~= devices@);
    kept
}

/// Lists the devices that offer at least one channel in `scope`, in the
/// platform's order.
pub fn list_devices_in_scope<H: Fn(HalRequest) -> HalReply>(
    platform: &mut Platform<H>,
    scope: Scope,
) -> (r: Result<Vec<ObjectId>, PropertyError>)
    ensures
        final(platform).follows(old(platform)),
        lists_devices_in_scope(scope, final(platform).since(old(platform)), handles(r)),
        r matches Ok(list) ==> forall|i: int| 0 <= i < list@.len() ==> list@[i] != OBJECT_UNKNOWN,
{
    let ghost start = *platform;
    match list_all_devices(platform) {
        Err(e) => {
            proof {
                let steps = platform.since(&start);
                assert(crate::hal::joins(steps, steps, Seq::<Exchange>::empty()));
            }
            Err(e)
        },
        Ok(devices) => {
            let ghost mid = *platform;
            let kept = retain_devices_in_scope(platform, &devices, scope);
            proof {
                platform.lemma_follows(&mid, &start);
            }
            Ok(kept)
        },
    }
}

/// The count of a device's channels asks for sizes and channels only.
pub proof fn lemma_count_only_reads(
    id: ObjectId,
    scope: Scope,
    steps: Seq<Exchange>,
    r: Result<u32, PropertyError>,
)
    requires
        counts_channels(id, scope, steps, r),
    ensures
        forall|i: int| 0 <= i < steps.len() ==> !((#[trigger] steps[i]).request is WriteWord),
{
}

/// The judgement of a device asks for sizes and channels only.
pub proof fn lemma_judgement_only_reads(
    id: ObjectId,
    scope: Scope,
    steps: Seq<Exchange>,
    flag: bool,
)
    requires
        judges_in_scope(id, scope, steps, flag),
    ensures
        forall|i: int| 0 <= i < steps.len() ==> !((#[trigger] steps[i]).request is WriteWord),
{
    let count = choose|count: Result<u32, PropertyError>| #[trigger]
        counts_channels(id, scope, steps, count) && flag == in_scope(count);
    lemma_count_only_reads(id, scope, steps, count);
}

/// The replies decide where a judgement ends and what it answers: two
/// judgements of one device that both begin `steps` are the same.
pub proof fn lemma_judgement_is_determined(
    id: ObjectId,
    scope: Scope,
    steps: Seq<Exchange>,
    a: Seq<Exchange>,
    a_flag: bool,
    b: Seq<Exchange>,
    b_flag: bool,
)
    requires
        a.is_prefix_of(steps),
        b.is_prefix_of(steps),
        judges_in_scope(id, scope, a, a_flag),
        judges_in_scope(id, scope, b, b_flag),
    ensures
        a == b,
        a_flag == b_flag,
{
}

/// A device whose flag is set is among the retained ones.
pub proof fn lemma_flagged_device_is_retained(devices: Seq<ObjectId>, keep: Seq<bool>, i: int)
    requires
        devices.len() == keep.len(),
        0 <= i < devices.len(),
        keep[i],
    ensures
        retained(devices, keep).contains(devices[i]),
    decreases devices.len(),
{
    let rest = retained(devices.drop_last(), keep.drop_last());
    if i == devices.len() - 1 {
        assert(rest.push(devices.last())[rest.len() as int] == devices[i]);
    } else {
        lemma_flagged_device_is_retained(devices.drop_last(), keep.drop_last(), i);
        let k = choose|k: int| 0 <= k < rest.len() && rest[k] == devices[i];
        if keep.last() {
            assert(rest.push(devices.last())[k] == devices[i]);
        }
    }
}

/// A device with channels on both sides is in the list of either scope: the
/// two lists may share devices.
pub proof fn law_bidirectional_device_is_in_both_lists(
    devices: Seq<ObjectId>,
    input: Seq<Result<u32, PropertyError>>,
    output: Seq<Result<u32, PropertyError>>,
    i: int,
)
    requires
        input.len() == devices.len(),
        output.len() == devices.len(),
        0 <= i < devices.len(),
        in_scope(input[i]),
        in_scope(output[i]),
    ensures
        retained(devices, in_scope_flags(input)).contains(devices[i]),
        retained(devices, in_scope_flags(output)).contains(devices[i]),
{
    lemma_flagged_device_is_retained(devices, in_scope_flags(input), i);
    lemma_flagged_device_is_retained(devices, in_scope_flags(output), i);
}

/// A device that is in the list of neither scope has no channels on either
/// side: each of its two counts, where it was read, is zero.
pub proof fn law_device_in_neither_list_has_no_channels(
    devices: Seq<ObjectId>,
    input: Seq<Result<u32, PropertyError>>,
    output: Seq<Result<u32, PropertyError>>,
    i: int,
)
    requires
        input.len() == devices.len(),
        output.len() == devices.len(),
        0 <= i < devices.len(),
        !retained(devices, in_scope_flags(input)).contains(devices[i]),
        !retained(devices, in_scope_flags(output)).contains(devices[i]),
    ensures
        input[i] is Ok ==> input[i] == Ok::<u32, PropertyError>(0),
        output[i] is Ok ==> output[i] == Ok::<u32, PropertyError>(0),
{
    if in_scope(input[i]) {
        lemma_flagged_device_is_retained(devices, in_scope_flags(input), i);
    }
    if in_scope(output[i]) {
        lemma_flagged_device_is_retained(devices, in_scope_flags(output), i);
    }
}

} // verus!
