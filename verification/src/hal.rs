//! The requests that the operations hand to the platform, the replies that
//! they take back, how a reply is read, and the handle that carries the
//! requests out and keeps the record of them.

use vstd::prelude::*;
use crate::address::PropertyAddress;
use crate::object::{ObjectId, PropertyError, Status, StringHandle, NO_ERR};

verus! {

/// One group of channels in a device's channel buffer descriptor list.
#[derive(Clone, Copy, Debug, PartialEq, Eq, Structural)]
pub struct ChannelGroup {
    pub channels: u32,
}

/// Handle of an audio processing unit. The raw value 0 refers to no unit.
#[derive(Clone, Copy, Debug, PartialEq, Eq, Structural)]
pub struct UnitHandle {
    pub raw: usize,
}

impl UnitHandle {
    pub open spec fn spec_is_null(self) -> bool {
        self.raw == 0
    }

    #[verifier::when_used_as_spec(spec_is_null)]
    pub fn is_null(self) -> (r: bool)
        ensures
            r == self.spec_is_null(),
    {
        self.raw == 0
    }
}

/// The kinds of output unit that the platform can instantiate.
#[derive(Clone, Copy, Debug, PartialEq, Eq, Structural)]
pub enum ComponentSubType {
    /// A unit that can be bound to any device.
    HALOutput,
    /// A unit that follows the system's default output.
    DefaultOutput,
}

/// The configuration of an aggregate device to create.
#[derive(Debug, PartialEq, Eq)]
pub struct AggregateDescription {
    /// Human-readable name of the device.
    pub name: String,
    /// Unique identifier of the device.
    pub uid: String,
    /// Whether the device is visible to the creating process only.
    pub is_private: bool,
    /// Whether the device is a stacked (multi-output) device rather than a
    /// combined one.
    pub is_stacked: bool,
    /// Unique identifiers of the sub-devices. The references pass to the
    /// platform layer, which releases them once the request is made.
    pub sub_devices: Vec<StringHandle>,
}

/// A request to the platform.
#[derive(Debug, PartialEq, Eq)]
pub enum HalRequest {
    /// The size in bytes of a property's value. Answered with `Size`.
    PropertySize { object: ObjectId, address: PropertyAddress },
    /// A property that holds one 32-bit value. Answered with `Word`.
    ReadWord { object: ObjectId, address: PropertyAddress },
    /// A property that holds one string. Answered with `Text`; the reference
    /// belongs to whoever reads the reply.
    ReadText { object: ObjectId, address: PropertyAddress },
    /// A property that holds `count` 32-bit values. Answered with `Words`.
    ReadWords { object: ObjectId, address: PropertyAddress, count: usize },
    /// A property that holds a channel buffer descriptor list of `size`
    /// bytes. Answered with `Channels`, one entry per group in the list.
    ReadChannels { object: ObjectId, address: PropertyAddress, size: usize },
    /// The string that a property gives for a 32-bit code. Answered with `Text`.
    TranslateCode { object: ObjectId, address: PropertyAddress, code: u32 },
    /// The object that a property gives for a text. Answered with `Word`.
    TranslateText { object: ObjectId, address: PropertyAddress, text: String },
    /// Creation of an aggregate device by a plugin, through a read of `size`
    /// bytes that is qualified by the description. Answered with `Word`, the
    /// new device.
    CreateAggregate {
        plugin: ObjectId,
        address: PropertyAddress,
        size: usize,
        description: AggregateDescription,
    },
    /// Destruction of an aggregate device by a plugin, through a read of
    /// `size` bytes whose buffer holds the device. Answered with `Nothing`.
    DestroyAggregate { plugin: ObjectId, address: PropertyAddress, size: usize, device: ObjectId },
    /// A write of one 32-bit value to a property. Answered with `Nothing`.
    WriteWord { object: ObjectId, address: PropertyAddress, value: u32 },
    /// Return of a reference to a string that an earlier reply carried.
    ReleaseText { handle: StringHandle },
    /// Registration of the process's notification entry point for changes of
    /// a property; `token` comes back with every notification.
    AddListener { object: ObjectId, address: PropertyAddress, token: u64 },
    /// Removal of a registration made with the same object, address and token.
    RemoveListener { object: ObjectId, address: PropertyAddress, token: u64 },
    /// Instantiation of an output unit. Answered with `Unit`.
    CreateUnit { subtype: ComponentSubType },
    /// Uninitialization and disposal of a unit.
    DisposeUnit { unit: UnitHandle },
    /// A write of one 32-bit value to a property of a unit.
    SetUnitWord { unit: UnitHandle, selector: u32, scope: u32, element: u32, value: u32 },
    /// A read of one 32-bit value from a property of a unit. Answered with `Word`.
    GetUnitWord { unit: UnitHandle, selector: u32, scope: u32, element: u32 },
}

/// What a reply carries besides its status.
#[derive(Debug, PartialEq, Eq)]
pub enum HalValue {
    Nothing,
    Size(usize),
    Word(u32),
    Text(StringHandle),
    Words(Vec<u32>),
    Channels(Vec<ChannelGroup>),
    Unit(UnitHandle),
}

/// The platform's answer to a request.
#[derive(Debug, PartialEq, Eq)]
pub struct HalReply {
    /// The status that the platform call returned.
    pub status: Status,
    /// What the call produced. Meaningful only where the status is `NO_ERR`.
    pub value: HalValue,
}

/// `reply` is an answer that `hal` may give to `request`.
pub open spec fn answers<H: Fn(HalRequest) -> HalReply>(
    hal: &H,
    request: HalRequest,
    reply: HalReply,
) -> bool {
    call_ensures(hal, (request,), reply)
}

/// `hal` accepts every request.
pub open spec fn serves<H: Fn(HalRequest) -> HalReply>(hal: &H) -> bool {
    forall|request: HalRequest| call_requires(hal, (request,))
}

/// One request together with the reply that it got.
pub struct Exchange {
    pub request: HalRequest,
    pub reply: HalReply,
}

/// `steps` is `first` followed by `rest`.
pub open spec fn joins(steps: Seq<Exchange>, first: Seq<Exchange>, rest: Seq<Exchange>) -> bool {
    steps == first + rest
}

/// `steps` is the one exchange in which `request` was asked.
pub open spec fn asked(steps: Seq<Exchange>, request: HalRequest) -> bool {
    steps.len() == 1 && steps[0].request == request
}

/// The handle through which every operation reaches the platform.
///
/// It owns the function that carries requests out, and it keeps a record of
/// every exchange made through it. The record exists for the contracts
/// only: an operation states which exchanges it adds to the record, so its
/// contract also says what it does not ask of the platform.
pub struct Platform<H: Fn(HalRequest) -> HalReply> {
    hal: H,
    log: Ghost<Seq<Exchange>>,
}

impl<H: Fn(HalRequest) -> HalReply> Platform<H> {
    /// The exchanges made through this handle so far, the oldest first.
    pub closed spec fn trace(&self) -> Seq<Exchange> {
        self.log@
    }

    /// The function that carries the requests out.
    pub closed spec fn hal(&self) -> H {
        self.hal
    }

    #[verifier::type_invariant]
    spec fn inv(&self) -> bool {
        serves(&self.hal)
    }

    /// The exchanges made since the handle was as `before`.
    pub open spec fn since(&self, before: &Platform<H>) -> Seq<Exchange> {
        self.trace().skip(before.trace().len() as int)
    }

    /// The handle is `before` with zero or more exchanges added: nothing
    /// that was in the record is changed or lost, and each reply that was
    /// added is one that the function gave to its request.
    pub open spec fn follows(&self, before: &Platform<H>) -> bool {
        &&& self.hal() == before.hal()
        &&& before.trace().len() <= self.trace().len()
        &&& self.trace().take(before.trace().len() as int) == before.trace()
        &&& forall|i: int|
            before.trace().len() <= i < self.trace().len() ==> answers(
                &self.hal(),
                (#[trigger] self.trace()[i]).request,
                self.trace()[i].reply,
            )
    }

    /// What was added since `before` is what was added up to `mid`,
    /// followed by what was added since `mid`.
    pub proof fn lemma_follows(&self, mid: &Platform<H>, before: &Platform<H>)
        requires
            self.follows(mid),
            mid.follows(before),
        ensures
            self.follows(before),
            joins(self.since(before), mid.since(before), self.since(mid)),
    {
        let a = before.trace().len() as int;
        let b = mid.trace().len() as int;
        assert(self.trace().take(a) =~= self.trace().take(b).take(a));
        assert(self.since(before) =~= mid.since(before) + self.since(mid));
        assert forall|i: int| a <= i < self.trace().len() implies answers(
            &self.hal(),
            (#[trigger] self.trace()[i]).request,
            self.trace()[i].reply,
        ) by {
            if i < b {
                assert(mid.trace()[i] == self.trace()[i]);
            }
        }
    }

    /// A handle follows itself, with nothing added.
    pub proof fn lemma_follows_itself(&self)
        ensures
            self.follows(self),
            self.since(self).len() == 0,
    {
        assert(self.trace().take(self.trace().len() as int) =~= self.trace());
    }

    /// Makes a handle for a function that accepts every request.
    pub fn new(hal: H) -> (platform: Platform<H>)
        requires
            serves(&hal),
        ensures
            platform.hal() == hal,
            platform.trace().len() == 0,
    {
        Platform { hal, log: Ghost(Seq::empty()) }
    }

    /// Hands one request to the platform and takes its reply.
    pub fn ask(&mut self, request: HalRequest) -> (reply: HalReply)
        ensures
            final(self).follows(old(self)),
            final(self).since(old(self)) == seq![Exchange { request, reply }],
    {
        proof {
            use_type_invariant(&*self);
        }
        let ghost asked = request;
        let reply = (self.hal)(request);
        proof {
            let ghost before = self.log@;
            self.log@ = self.log@.push(Exchange { request: asked, reply });
            assert(self.log@.take(before.len() as int) =~= before);
        }
        reply
    }
}

/// What a reply means where only the status counts.
pub open spec fn status_outcome(reply: HalReply) -> Result<(), PropertyError> {
    if reply.status == NO_ERR {
        Ok(())
    } else {
        Err(PropertyError::PlatformStatusError(reply.status))
    }
}

/// What a reply means where a size is expected.
pub open spec fn size_outcome(reply: HalReply) -> Result<usize, PropertyError> {
    if reply.status != NO_ERR {
        Err(PropertyError::PlatformStatusError(reply.status))
    } else {
        match reply.value {
            HalValue::Size(size) => Ok(size),
            _ => Err(PropertyError::ContractViolation),
        }
    }
}

/// What a reply means where one 32-bit value is expected.
pub open spec fn word_outcome(reply: HalReply) -> Result<u32, PropertyError> {
    if reply.status != NO_ERR {
        Err(PropertyError::PlatformStatusError(reply.status))
    } else {
        match reply.value {
            HalValue::Word(word) => Ok(word),
            _ => Err(PropertyError::ContractViolation),
        }
    }
}

/// What a reply means where a string is expected.
pub open spec fn text_outcome(reply: HalReply) -> Result<StringHandle, PropertyError> {
    if reply.status != NO_ERR {
        Err(PropertyError::PlatformStatusError(reply.status))
    } else {
        match reply.value {
            HalValue::Text(text) => Ok(text),
            _ => Err(PropertyError::ContractViolation),
        }
    }
}

/// Reads a reply of which only the status counts.
pub fn status_from_reply(reply: &HalReply) -> (r: Result<(), PropertyError>)
    ensures
        r == status_outcome(*reply),
{
    if reply.status == NO_ERR {
        Ok(())
    } else {
        Err(PropertyError::PlatformStatusError(reply.status))
    }
}

/// Reads a reply that should carry a size.
pub fn size_from_reply(reply: &HalReply) -> (r: Result<usize, PropertyError>)
    ensures
        r == size_outcome(*reply),
{
    if reply.status != NO_ERR {
        Err(PropertyError::PlatformStatusError(reply.status))
    } else {
        match reply.value {
            HalValue::Size(size) => Ok(size),
            _ => Err(PropertyError::ContractViolation),
        }
    }
}

/// Reads a reply that should carry one 32-bit value.
pub fn word_from_reply(reply: &HalReply) -> (r: Result<u32, PropertyError>)
    ensures
        r == word_outcome(*reply),
{
    if reply.status != NO_ERR {
        Err(PropertyError::PlatformStatusError(reply.status))
    } else {
        match reply.value {
            HalValue::Word(word) => Ok(word),
            _ => Err(PropertyError::ContractViolation),
        }
    }
}

/// Reads a reply that should carry a string.
pub fn text_from_reply(reply: &HalReply) -> (r: Result<StringHandle, PropertyError>)
    ensures
        r == text_outcome(*reply),
{
    if reply.status != NO_ERR {
        Err(PropertyError::PlatformStatusError(reply.status))
    } else {
        match reply.value {
            HalValue::Text(text) => Ok(text),
            _ => Err(PropertyError::ContractViolation),
        }
    }
}

/// `steps` is a read of one 32-bit value from `address` of `object`, with
/// the result `r`.
pub open spec fn reads_word(
    object: ObjectId,
    address: PropertyAddress,
    steps: Seq<Exchange>,
    r: Result<u32, PropertyError>,
) -> bool {
    asked(steps, HalRequest::ReadWord { object, address }) && r == word_outcome(steps[0].reply)
}

/// `steps` is a read of a string from `address` of `object`, with the
/// result `r`.
pub open spec fn reads_text(
    object: ObjectId,
    address: PropertyAddress,
    steps: Seq<Exchange>,
    r: Result<StringHandle, PropertyError>,
) -> bool {
    asked(steps, HalRequest::ReadText { object, address }) && r == text_outcome(steps[0].reply)
}

/// `steps` is a query of the size of `address` of `object`, with the
/// result `r`.
pub open spec fn reads_size(
    object: ObjectId,
    address: PropertyAddress,
    steps: Seq<Exchange>,
    r: Result<usize, PropertyError>,
) -> bool {
    asked(steps, HalRequest::PropertySize { object, address }) && r == size_outcome(steps[0].reply)
}

/// Reads one 32-bit value from a property.
pub fn read_word<H: Fn(HalRequest) -> HalReply>(
    platform: &mut Platform<H>,
    object: ObjectId,
    address: PropertyAddress,
) -> (r: Result<u32, PropertyError>)
    ensures
        final(platform).follows(old(platform)),
        reads_word(object, address, final(platform).since(old(platform)), r),
{
    let reply = platform.ask(HalRequest::ReadWord { object, address });
    word_from_reply(&reply)
}

/// Reads a string from a property. The caller owns the reference.
pub fn read_text<H: Fn(HalRequest) -> HalReply>(
    platform: &mut Platform<H>,
    object: ObjectId,
    address: PropertyAddress,
) -> (r: Result<StringHandle, PropertyError>)
    ensures
        final(platform).follows(old(platform)),
        reads_text(object, address, final(platform).since(old(platform)), r),
{
    let reply = platform.ask(HalRequest::ReadText { object, address });
    text_from_reply(&reply)
}

/// Asks for the size in bytes of a property's value: the first phase of a
/// read of variable length.
pub fn read_size<H: Fn(HalRequest) -> HalReply>(
    platform: &mut Platform<H>,
    object: ObjectId,
    address: PropertyAddress,
) -> (r: Result<usize, PropertyError>)
    ensures
        final(platform).follows(old(platform)),
        reads_size(object, address, final(platform).since(old(platform)), r),
{
    let reply = platform.ask(HalRequest::PropertySize { object, address });
    size_from_reply(&reply)
}

} // verus!
