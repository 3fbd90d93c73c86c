//! The table of listeners, from which the notification entry point finds a
//! listener again by the token that the platform hands back.

use vstd::prelude::*;
use crate::address::PropertyAddress;
use crate::hal::{Exchange, HalReply, HalRequest, Platform};
use crate::listener::{ListenerState, PropertyListener};
use crate::object::{ObjectId, PropertyError, Status};

verus! {

/// The listeners of a process, each under a token of its own.
#[derive(Debug)]
pub struct ListenerRegistry {
    pub listeners: Vec<PropertyListener>,
    /// The token that the next listener gets.
    pub next_token: u64,
}

impl ListenerRegistry {
    /// Every token in the table was issued by it, and no two listeners
    /// share one.
    pub open spec fn wf(&self) -> bool {
        &&& forall|i: int|
            0 <= i < self.listeners@.len() ==> (#[trigger] self.listeners@[i]).token
                < self.next_token
        &&& forall|i: int, j: int|
            0 <= i < j < self.listeners@.len() ==> (#[trigger] self.listeners@[i]).token != (
            #[trigger] self.listeners@[j]).token
    }

    /// Whether the table holds a listener under `token`.
    pub open spec fn spec_contains(&self, token: u64) -> bool {
        exists|i: int| self.holds_at(token, i)
    }

    /// The listener at place `i` is the one under `token`.
    pub open spec fn holds_at(&self, token: u64, i: int) -> bool {
        0 <= i < self.listeners@.len() && self.listeners@[i].token == token
    }

    /// The place of the listener under `token`.
    pub open spec fn place(&self, token: u64) -> int {
        choose|i: int| self.holds_at(token, i)
    }

    /// The listener under `token`, for a token that the table holds.
    pub open spec fn listener(&self, token: u64) -> PropertyListener {
        self.listeners@[self.place(token)]
    }

    /// Makes an empty table.
    pub fn new() -> (registry: ListenerRegistry)
        ensures
            registry.wf(),
            registry.listeners@.len() == 0,
            registry.next_token == 0,
    {
        ListenerRegistry { listeners: Vec::new(), next_token: 0 }
    }

    /// Looks up the place of the listener under `token`.
    pub fn find(&self, token: u64) -> (r: Option<usize>)
        ensures
            match r {
                Some(i) => self.holds_at(token, i as int),
                None => !self.spec_contains(token),
            },
            self.wf() ==> (r matches Some(i) ==> i == self.place(token)),
    {
        let mut i: usize = 0;
        while i < self.listeners.len()
            invariant
                i <= self.listeners@.len(),
                forall|j: int| 0 <= j < i ==> !self.holds_at(token, j),
            decreases self.listeners@.len() - i,
        {
            if self.listeners[i].token == token {
                assert(self.holds_at(token, i as int));
                return Some(i);
            }
            i += 1;
        }
        None
    }

    /// Tells whether the table holds a listener under `token`.
    #[verifier::when_used_as_spec(spec_contains)]
    pub fn contains(&self, token: u64) -> (r: bool)
        ensures
            r == self.spec_contains(token),
    {
        self.find(token).is_some()
    }

    /// Gives the listener under `token`.
    pub fn get(&self, token: u64) -> (r: Option<PropertyListener>)
        requires
            self.wf(),
        ensures
            match r {
                Some(listener) => self.contains(token) && listener == self.listener(token),
                None => !self.contains(token),
            },
    {
        match self.find(token) {
            Some(i) => Some(self.listeners[i]),
            None => None,
        }
    }

    /// Adds an idle listener for `property` of `device` and gives its
    /// token, which no listener of this table has had before. `None`, with
    /// nothing changed, once the tokens are used up.
    pub fn create(&mut self, device: ObjectId, property: PropertyAddress) -> (r: Option<u64>)
        requires
            old(self).wf(),
        ensures
            final(self).wf(),
            match r {
                Some(token) => {
                    &&& token == old(self).next_token
                    &&& !old(self).contains(token)
                    &&& final(self).next_token == token + 1
                    &&& final(self).listeners@ == old(self).listeners@.push(
                        PropertyListener { device, property, token, state: ListenerState::Idle },
                    )
                },
                None => old(self).next_token == u64::MAX && *final(self) == *old(self),
            },
            r matches Some(token) ==> final(self).contains(token),
            forall|other: u64| old(self).contains(other) ==> final(self).contains(other),
    {
        if self.next_token == u64::MAX {
            return None;
        }
        let token: u64 = self.next_token;
        assert(!self.contains(token)) by {
            if self.contains(token) {
                assert(self.holds_at(token, self.place(token)));
            }
        }
        self.listeners.push(PropertyListener::new(device, property, token));
        self.next_token = token + 1;
        proof {
            assert(self.holds_at(token, self.listeners@.len() - 1));
            assert forall|other: u64| old(self).contains(other) implies self.contains(other) by {
                assert(self.holds_at(other, old(self).place(other)));
            }
        }
        Some(token)
    }

    /// Starts the listener under `token`; the other listeners stay as they
    /// are.
    pub fn start<H: Fn(HalRequest) -> HalReply>(
        &mut self,
        platform: &mut Platform<H>,
        token: u64,
    ) -> (r: Result<(), PropertyError>)
        requires
            old(self).wf(),
            old(self).contains(token),
        ensures
            final(platform).follows(old(platform)),
            final(self).wf(),
            final(self).next_token == old(self).next_token,
            final(self).contains(token),
            forall|other: u64| old(self).contains(other) <==> final(self).contains(other),
            crate::listener::starts(
                old(self).listener(token),
                final(self).listener(token),
                final(platform).since(old(platform)),
                r,
            ),
            final(self).listeners@ == old(self).listeners@.update(
                old(self).place(token),
                final(self).listener(token),
            ),
    {
        let found = self.find(token);
        let i: usize = found.unwrap();
        let mut listener = self.listeners[i];
        let r = listener.start(platform);
        self.listeners.set(i, listener);
        proof {
            assert(self.holds_at(token, i as int));
            assert forall|other: u64| old(self).contains(other) <==> self.contains(other) by {
                if old(self).contains(other) {
                    assert(self.holds_at(other, old(self).place(other)));
                }
                if self.contains(other) {
                    assert(old(self).holds_at(other, self.place(other)));
                }
            }
        }
        r
    }

    /// Stops the listener under `token`; the other listeners stay as they
    /// are.
    pub fn stop<H: Fn(HalRequest) -> HalReply>(
        &mut self,
        platform: &mut Platform<H>,
        token: u64,
    ) -> (r: Result<(), PropertyError>)
        requires
            old(self).wf(),
            old(self).contains(token),
        ensures
            final(platform).follows(old(platform)),
            final(self).wf(),
            final(self).next_token == old(self).next_token,
            final(self).contains(token),
            forall|other: u64| old(self).contains(other) <==> final(self).contains(other),
            crate::listener::stops(
                old(self).listener(token),
                final(self).listener(token),
                final(platform).since(old(platform)),
                r,
            ),
            final(self).listeners@ == old(self).listeners@.update(
                old(self).place(token),
                final(self).listener(token),
            ),
    {
        let found = self.find(token);
        let i: usize = found.unwrap();
        let mut listener = self.listeners[i];
        let r = listener.stop(platform);
        self.listeners.set(i, listener);
        proof {
            assert(self.holds_at(token, i as int));
            assert forall|other: u64| old(self).contains(other) <==> self.contains(other) by {
                if old(self).contains(other) {
                    assert(self.holds_at(other, old(self).place(other)));
                }
                if self.contains(other) {
                    assert(old(self).holds_at(other, self.place(other)));
                }
            }
        }
        r
    }

    /// Takes the listener under `token` out of the table, stopping it
    /// first where it is active: no registration outlives its listener.
    ///
    /// Where the stop fails the listener stays, active, and the error is
    /// returned.
    pub fn destroy<H: Fn(HalRequest) -> HalReply>(
        &mut self,
        platform: &mut Platform<H>,
        token: u64,
    ) -> (r: Result<(), PropertyError>)
        requires
            old(self).wf(),
            old(self).contains(token),
        ensures
            final(platform).follows(old(platform)),
            final(self).wf(),
            final(self).next_token == old(self).next_token,
            exists|stopped: PropertyListener|
                {
                    &&& #[trigger] crate::listener::stops(
                        old(self).listener(token),
                        stopped,
                        final(platform).since(old(platform)),
                        r,
                    )
                    &&& match r {
                        Ok(_) => {
                            &&& !stopped.is_active()
                            &&& !final(self).contains(token)
                            &&& final(self).listeners@ == old(self).listeners@.remove(
                                old(self).place(token),
                            )
                        },
                        Err(_) => *final(self) == *old(self),
                    }
                },
            forall|other: u64|
                other != token ==> (old(self).contains(other) <==> final(self).contains(other)),
    {
        let found = self.find(token);
        let i: usize = found.unwrap();
        let mut listener = self.listeners[i];
        let r = listener.stop(platform);
        match r {
            Ok(_) => {
                let ghost all = self.listeners@;
                self.listeners.remove(i);
                proof {
                    // What is left at place `a` was at place `a` or `a + 1`.
                    assert forall|a: int| 0 <= a < self.listeners@.len() implies (
                    #[trigger] self.listeners@[a]) == all[if a < i { a } else { a + 1 }] by {}
                    assert(!self.contains(token)) by {
                        if self.contains(token) {
                            assert(self.holds_at(token, self.place(token)));
                        }
                    }
                    assert forall|other: u64| other != token implies (old(self).contains(other)
                        <==> self.contains(other)) by {
                        if old(self).contains(other) {
                            let k = old(self).place(other);
                            assert(self.holds_at(other, if k < i { k } else { k - 1 }));
                        }
                        if self.contains(other) {
                            let k = self.place(other);
                            assert(old(self).holds_at(other, if k < i { k } else { k + 1 }));
                        }
                    }
                }
            },
            Err(_) => {},
        }
        r
    }

    /// Handles one notification that the platform delivers with `token`.
    ///
    /// A token that the table does not hold breaks the platform's
    /// promises. Else the listener under the token handles the notification.
    pub fn dispatch<F: Fn(&[PropertyAddress]) -> Status>(
        &self,
        token: u64,
        device: ObjectId,
        addresses: &[PropertyAddress],
        callback: &F,
    ) -> (r: Result<Status, PropertyError>)
        requires
            self.wf(),
            call_requires(callback, (addresses,)),
        ensures
            if self.contains(token) {
                crate::listener::forwards(self.listener(token), device, addresses, callback, r)
            } else {
                r == Err::<Status, PropertyError>(PropertyError::ContractViolation)
            },
    {
        match self.get(token) {
            Some(listener) => listener.dispatch(device, addresses, callback),
            None => Err(PropertyError::ContractViolation),
        }
    }
}

/// Starting a listener of the table that is active asks nothing of the
/// platform, and the table stays as it is.
pub proof fn law_registry_start_is_idempotent(
    before: ListenerRegistry,
    after: ListenerRegistry,
    token: u64,
    steps: Seq<Exchange>,
    r: Result<(), PropertyError>,
)
    requires
        before.wf(),
        before.contains(token),
        before.listener(token).is_active(),
        crate::listener::starts(before.listener(token), after.listener(token), steps, r),
        after.listeners@ == before.listeners@.update(before.place(token), after.listener(token)),
    ensures
        r is Ok,
        steps.len() == 0,
        after.listeners@ == before.listeners@,
{
    assert(before.holds_at(token, before.place(token)));
    assert(after.listeners@ =~= before.listeners@);
}

} // verus!
