//! Observation of property changes: a listener with safe start and stop, and
//! the validation of what the platform delivers to it.

use vstd::prelude::*;
use crate::address::PropertyAddress;
use crate::hal::{status_from_reply, Exchange, HalReply, HalRequest, Platform};
use crate::object::{ObjectId, PropertyError, Status, NO_ERR};

verus! {

/// Whether a listener is registered with the platform.
#[derive(Clone, Copy, Debug, PartialEq, Eq, Structural)]
pub enum ListenerState {
    /// Not registered.
    Idle,
    /// Registered: the platform notifies of changes.
    Active,
}

/// A listener for changes of one property of one object.
///
/// The platform knows a registration by object, address and token, and
/// hands the token back with every notification.
#[derive(Clone, Copy, Debug, PartialEq, Eq, Structural)]
pub struct PropertyListener {
    pub device: ObjectId,
    pub property: PropertyAddress,
    pub token: u64,
    pub state: ListenerState,
}

impl PropertyListener {
    /// The request that registers this listener.
    pub open spec fn registration(self) -> HalRequest {
        HalRequest::AddListener { object: self.device, address: self.property, token: self.token }
    }

    /// The request that removes this listener's registration.
    pub open spec fn removal(self) -> HalRequest {
        HalRequest::RemoveListener {
            object: self.device,
            address: self.property,
            token: self.token,
        }
    }

    /// What `start` asks of the platform: the registration from an idle
    /// listener, nothing from an active one.
    pub open spec fn spec_start_request(self) -> Option<HalRequest> {
        match self.state {
            ListenerState::Idle => Some(self.registration()),
            ListenerState::Active => None,
        }
    }

    /// What `stop` asks of the platform: the removal from an active
    /// listener, nothing from an idle one.
    pub open spec fn spec_stop_request(self) -> Option<HalRequest> {
        match self.state {
            ListenerState::Active => Some(self.removal()),
            ListenerState::Idle => None,
        }
    }

    /// The listener after the platform's reply to its registration: active
    /// where the registration succeeded, unchanged else.
    pub open spec fn after_start(self, reply: HalReply) -> PropertyListener {
        if reply.status == NO_ERR {
            PropertyListener { state: ListenerState::Active, ..self }
        } else {
            self
        }
    }

    /// The listener after the platform's reply to its removal: idle where
    /// the removal succeeded, unchanged else.
    pub open spec fn after_stop(self, reply: HalReply) -> PropertyListener {
        if reply.status == NO_ERR {
            PropertyListener { state: ListenerState::Idle, ..self }
        } else {
            self
        }
    }

    /// Whether a notification is one that this listener was registered
    /// for: it comes from the listener's object and names at least one
    /// address, each with the listener's selector.
    pub open spec fn accepts(self, device: ObjectId, addresses: Seq<PropertyAddress>) -> bool {
        &&& device == self.device
        &&& addresses.len() >= 1
        &&& forall|i: int|
            0 <= i < addresses.len() ==> (#[trigger] addresses[i]).selector
                == self.property.selector
    }

    /// Makes an idle listener.
    pub fn new(device: ObjectId, property: PropertyAddress, token: u64) -> (listener:
        PropertyListener)
        ensures
            listener == (PropertyListener { device, property, token, state: ListenerState::Idle }),
    {
        PropertyListener { device, property, token, state: ListenerState::Idle }
    }

    pub open spec fn spec_is_active(&self) -> bool {
        self.state == ListenerState::Active
    }

    /// Tells whether the listener is registered.
    #[verifier::when_used_as_spec(spec_is_active)]
    pub fn is_active(&self) -> (r: bool)
        ensures
            r == self.spec_is_active(),
    {
        match self.state {
            ListenerState::Active => true,
            ListenerState::Idle => false,
        }
    }

    /// Gives what `start` has to ask of the platform, if anything.
    pub fn start_request(&self) -> (r: Option<HalRequest>)
        ensures
            r == self.spec_start_request(),
    {
        match self.state {
            ListenerState::Idle => Some(
                HalRequest::AddListener {
                    object: self.device,
                    address: self.property,
                    token: self.token,
                },
            ),
            ListenerState::Active => None,
        }
    }

    /// Gives what `stop` has to ask of the platform, if anything.
    pub fn stop_request(&self) -> (r: Option<HalRequest>)
        ensures
            r == self.spec_stop_request(),
    {
        match self.state {
            ListenerState::Active => Some(
                HalRequest::RemoveListener {
                    object: self.device,
                    address: self.property,
                    token: self.token,
                },
            ),
            ListenerState::Idle => None,
        }
    }

    /// Takes the platform's reply to the registration.
    pub fn started(&mut self, reply: &HalReply) -> (r: Result<(), PropertyError>)
        ensures
            *final(self) == old(self).after_start(*reply),
            r == crate::hal::status_outcome(*reply),
    {
        if reply.status == NO_ERR {
            self.state = ListenerState::Active;
        }
        status_from_reply(reply)
    }

    /// Takes the platform's reply to the removal.
    pub fn stopped(&mut self, reply: &HalReply) -> (r: Result<(), PropertyError>)
        ensures
            *final(self) == old(self).after_stop(*reply),
            r == crate::hal::status_outcome(*reply),
    {
        if reply.status == NO_ERR {
            self.state = ListenerState::Idle;
        }
        status_from_reply(reply)
    }

    /// Registers the listener with the platform.
    ///
    /// Starting an active listener is accepted and does nothing: no second
    /// registration is made. A registration that fails leaves the listener
    /// idle.
    pub fn start<H: Fn(HalRequest) -> HalReply>(&mut self, platform: &mut Platform<H>) -> (r:
        Result<(), PropertyError>)
        ensures
            final(platform).follows(old(platform)),
            starts(*old(self), *final(self), final(platform).since(old(platform)), r),
    {
        match self.start_request() {
            None => {
                proof {
                    platform.lemma_follows_itself();
                }
                Ok(())
            },
            Some(request) => {
                let reply = platform.ask(request);
                self.started(&reply)
            },
        }
    }

    /// Removes the listener's registration from the platform.
    ///
    /// Stopping an idle listener is accepted and does nothing. A removal
    /// that fails leaves the listener active.
    pub fn stop<H: Fn(HalRequest) -> HalReply>(&mut self, platform: &mut Platform<H>) -> (r:
        Result<(), PropertyError>)
        ensures
            final(platform).follows(old(platform)),
            stops(*old(self), *final(self), final(platform).since(old(platform)), r),
    {
        match self.stop_request() {
            None => {
                proof {
                    platform.lemma_follows_itself();
                }
                Ok(())
            },
            Some(request) => {
                let reply = platform.ask(request);
                self.stopped(&reply)
            },
        }
    }

    /// Tells whether a notification is one that this listener was
    /// registered for.
    pub fn check(&self, device: ObjectId, addresses: &[PropertyAddress]) -> (r: bool)
        ensures
            r == self.accepts(device, addresses@),
    {
        if device != self.device || addresses.len() == 0 {
            return false;
        }
        let mut i: usize = 0;
        while i < addresses.len()
            invariant
                i <= addresses@.len(),
                forall|j: int|
                    0 <= j < i ==> (#[trigger] addresses@[j]).selector == self.property.selector,
            decreases addresses@.len() - i,
        {
            if addresses[i].selector != self.property.selector {
                return false;
            }
            i += 1;
        }
        true
    }

    /// Handles one notification from the platform.
    ///
    /// A notification that the listener was registered for is handed to
    /// `callback` whole, and the status that `callback` returns goes back
    /// unchanged. Any other notification breaks the platform's promises:
    /// `callback` does not see it.
    pub fn dispatch<F: Fn(&[PropertyAddress]) -> Status>(
        &self,
        device: ObjectId,
        addresses: &[PropertyAddress],
        callback: &F,
    ) -> (r: Result<Status, PropertyError>)
        requires
            call_requires(callback, (addresses,)),
        ensures
            forwards(*self, device, addresses, callback, r),
    {
        if self.check(device, addresses) {
            Ok(callback(addresses))
        } else {
            Err(PropertyError::ContractViolation)
        }
    }
}

/// `steps` is a start of the listener `before`, which leaves it as `after`
/// and has the result `r`: an active listener asks nothing, stays as it is
/// and succeeds; an idle one asks for its registration.
pub open spec fn starts(
    before: PropertyListener,
    after: PropertyListener,
    steps: Seq<Exchange>,
    r: Result<(), PropertyError>,
) -> bool {
    match before.spec_start_request() {
        None => steps.len() == 0 && after == before && r == Ok::<(), PropertyError>(()),
        Some(request) => crate::hal::asked(steps, request) && after == before.after_start(
            steps[0].reply,
        ) && r == crate::hal::status_outcome(steps[0].reply),
    }
}

/// `steps` is a stop of the listener `before`, which leaves it as `after`
/// and has the result `r`: an idle listener asks nothing, stays as it is
/// and succeeds; an active one asks for the removal of its registration.
pub open spec fn stops(
    before: PropertyListener,
    after: PropertyListener,
    steps: Seq<Exchange>,
    r: Result<(), PropertyError>,
) -> bool {
    match before.spec_stop_request() {
        None => steps.len() == 0 && after == before && r == Ok::<(), PropertyError>(()),
        Some(request) => crate::hal::asked(steps, request) && after == before.after_stop(
            steps[0].reply,
        ) && r == crate::hal::status_outcome(steps[0].reply),
    }
}

/// `r` is a result that the handling of a notification by `listener` may
/// have.
pub open spec fn forwards<F: Fn(&[PropertyAddress]) -> Status>(
    listener: PropertyListener,
    device: ObjectId,
    addresses: &[PropertyAddress],
    callback: &F,
    r: Result<Status, PropertyError>,
) -> bool {
    if listener.accepts(device, addresses@) {
        r matches Ok(status) && call_ensures(callback, (addresses,), status)
    } else {
        r == Err::<Status, PropertyError>(PropertyError::ContractViolation)
    }
}

/// The registrations that `steps` ask for.
pub open spec fn registrations(steps: Seq<Exchange>) -> nat
    decreases steps.len(),
{
    if steps.len() == 0 {
        0
    } else if steps.last().request is AddListener {
        registrations(steps.drop_last()) + 1
    } else {
        registrations(steps.drop_last())
    }
}

/// Starting an active listener asks nothing of the platform, leaves the
/// listener as it is and succeeds.
pub proof fn law_start_is_idempotent(
    before: PropertyListener,
    after: PropertyListener,
    steps: Seq<Exchange>,
    r: Result<(), PropertyError>,
)
    requires
        before.is_active(),
        starts(before, after, steps, r),
    ensures
        steps.len() == 0,
        after == before,
        r is Ok,
{
}

/// Two starts of a listener without a stop between them, the first of
/// which succeeds, ask for one registration, not two.
pub proof fn law_two_starts_register_once(
    listener: PropertyListener,
    second: PropertyListener,
    third: PropertyListener,
    first_steps: Seq<Exchange>,
    second_steps: Seq<Exchange>,
    first_result: Result<(), PropertyError>,
    second_result: Result<(), PropertyError>,
)
    requires
        !listener.is_active(),
        starts(listener, second, first_steps, first_result),
        first_result is Ok,
        starts(second, third, second_steps, second_result),
    ensures
        second.is_active(),
        third == second,
        second_result is Ok,
        registrations(first_steps + second_steps) == 1,
{
    reveal_with_fuel(registrations, 2);
}

/// A start and a stop that both succeed lead from an idle listener back to
/// the same idle listener.
pub proof fn law_start_then_stop_is_idle(
    listener: PropertyListener,
    start_reply: HalReply,
    stop_reply: HalReply,
)
    requires
        !listener.is_active(),
        start_reply.status == NO_ERR,
        stop_reply.status == NO_ERR,
    ensures
        listener.after_start(start_reply).after_stop(stop_reply) == listener,
{
}

} // verus!
