use audio_hal_harness::address::{
    system_address, PropertyAddress, SELECTOR_DEFAULT_INPUT_DEVICE, SELECTOR_DEFAULT_OUTPUT_DEVICE,
};
use audio_hal_harness::hal::{HalReply, HalRequest, HalValue, Platform};
use audio_hal_harness::listener::{ListenerState, PropertyListener};
use audio_hal_harness::object::{PropertyError, SYSTEM_OBJECT};
use audio_hal_harness::registry::ListenerRegistry;
use std::cell::{Cell, RefCell};

fn on<H: Fn(HalRequest) -> HalReply>(hal: H) -> Platform<H> {
    Platform::new(hal)
}

// The registrations that a platform holds, as (object, address, token).
struct Notifier {
    registered: RefCell<Vec<(u32, PropertyAddress, u64)>>,
    requests: Cell<usize>,
    status: Cell<i32>,
}

impl Notifier {
    fn new() -> Notifier {
        Notifier {
            registered: RefCell::new(Vec::new()),
            requests: Cell::new(0),
            status: Cell::new(0),
        }
    }

    fn perform(&self, request: HalRequest) -> HalReply {
        self.requests.set(self.requests.get() + 1);
        if self.status.get() != 0 {
            return HalReply { status: self.status.get(), value: HalValue::Nothing };
        }
        match request {
            HalRequest::AddListener { object, address, token } => {
                self.registered.borrow_mut().push((object, address, token));
                HalReply { status: 0, value: HalValue::Nothing }
            }
            HalRequest::RemoveListener { object, address, token } => {
                let mut registered = self.registered.borrow_mut();
                match registered.iter().position(|r| *r == (object, address, token)) {
                    Some(i) => {
                        registered.remove(i);
                        HalReply { status: 0, value: HalValue::Nothing }
                    }
                    None => HalReply { status: -50, value: HalValue::Nothing },
                }
            }
            _ => HalReply { status: -1, value: HalValue::Nothing },
        }
    }
}

fn output_changes() -> PropertyAddress {
    system_address(SELECTOR_DEFAULT_OUTPUT_DEVICE)
}

fn input_changes() -> PropertyAddress {
    system_address(SELECTOR_DEFAULT_INPUT_DEVICE)
}

#[test]
fn new_listener_is_idle() {
    let listener = PropertyListener::new(SYSTEM_OBJECT, output_changes(), 7);
    assert_eq!(
        listener,
        PropertyListener {
            device: 1,
            property: PropertyAddress { selector: 0x644f7574, scope: 0x676c6f62, element: 0 },
            token: 7,
            state: ListenerState::Idle,
        }
    );
    assert!(!listener.is_active());
}

#[test]
fn start_registers_and_stop_removes() {
    let platform = Notifier::new();
    let hal = |request: HalRequest| platform.perform(request);
    let mut listener = PropertyListener::new(SYSTEM_OBJECT, output_changes(), 7);
    assert_eq!(listener.start(&mut on(&hal)), Ok(()));
    assert!(listener.is_active());
    assert_eq!(*platform.registered.borrow(), vec![(1, output_changes(), 7)]);
    assert_eq!(listener.stop(&mut on(&hal)), Ok(()));
    assert!(!listener.is_active());
    assert!(platform.registered.borrow().is_empty());
}

#[test]
fn second_start_makes_no_second_registration() {
    let platform = Notifier::new();
    let hal = |request: HalRequest| platform.perform(request);
    let mut listener = PropertyListener::new(SYSTEM_OBJECT, output_changes(), 7);
    assert_eq!(listener.start(&mut on(&hal)), Ok(()));
    assert_eq!(listener.start(&mut on(&hal)), Ok(()));
    assert!(listener.is_active());
    assert_eq!(platform.registered.borrow().len(), 1);
    assert_eq!(platform.requests.get(), 1);
    assert_eq!(listener.start_request(), None);
}

#[test]
fn stop_of_an_idle_listener_asks_nothing() {
    let platform = Notifier::new();
    let hal = |request: HalRequest| platform.perform(request);
    let mut listener = PropertyListener::new(SYSTEM_OBJECT, output_changes(), 7);
    assert_eq!(listener.stop(&mut on(&hal)), Ok(()));
    assert_eq!(platform.requests.get(), 0);
    assert_eq!(listener.stop_request(), None);
    assert_eq!(listener.start(&mut on(&hal)), Ok(()));
    assert_eq!(listener.stop(&mut on(&hal)), Ok(()));
    assert_eq!(listener.stop(&mut on(&hal)), Ok(()));
    assert_eq!(platform.requests.get(), 2);
}

#[test]
fn requests_name_the_object_the_address_and_the_token() {
    let mut listener = PropertyListener::new(SYSTEM_OBJECT, input_changes(), 9);
    assert_eq!(
        listener.start_request(),
        Some(HalRequest::AddListener { object: 1, address: input_changes(), token: 9 })
    );
    let accepted = HalReply { status: 0, value: HalValue::Nothing };
    assert_eq!(listener.started(&accepted), Ok(()));
    assert_eq!(
        listener.stop_request(),
        Some(HalRequest::RemoveListener { object: 1, address: input_changes(), token: 9 })
    );
}

#[test]
fn failed_start_leaves_the_listener_idle() {
    let platform = Notifier::new();
    platform.status.set(-12);
    let hal = |request: HalRequest| platform.perform(request);
    let mut listener = PropertyListener::new(SYSTEM_OBJECT, output_changes(), 7);
    assert_eq!(listener.start(&mut on(&hal)), Err(PropertyError::PlatformStatusError(-12)));
    assert!(!listener.is_active());
}

#[test]
fn failed_stop_leaves_the_listener_active() {
    let platform = Notifier::new();
    let hal = |request: HalRequest| platform.perform(request);
    let mut listener = PropertyListener::new(SYSTEM_OBJECT, output_changes(), 7);
    assert_eq!(listener.start(&mut on(&hal)), Ok(()));
    platform.status.set(-13);
    assert_eq!(listener.stop(&mut on(&hal)), Err(PropertyError::PlatformStatusError(-13)));
    assert!(listener.is_active());
}

#[test]
fn notification_is_forwarded_whole_and_the_status_comes_back_unchanged() {
    let listener = PropertyListener::new(SYSTEM_OBJECT, output_changes(), 7);
    let seen = RefCell::new(Vec::new());
    let callback = |addresses: &[PropertyAddress]| {
        seen.borrow_mut().extend_from_slice(addresses);
        1234
    };
    let other_element = PropertyAddress { element: 3, ..output_changes() };
    let delivered = [output_changes(), other_element];
    assert_eq!(listener.dispatch(SYSTEM_OBJECT, &delivered, &callback), Ok(1234));
    assert_eq!(*seen.borrow(), vec![output_changes(), other_element]);
}

#[test]
fn notification_from_another_object_is_a_contract_violation() {
    let listener = PropertyListener::new(SYSTEM_OBJECT, output_changes(), 7);
    let called = Cell::new(false);
    let callback = |_addresses: &[PropertyAddress]| {
        called.set(true);
        0
    };
    assert_eq!(
        listener.dispatch(55, &[output_changes()], &callback),
        Err(PropertyError::ContractViolation)
    );
    assert!(!called.get());
}

#[test]
fn notification_for_another_selector_is_a_contract_violation() {
    let listener = PropertyListener::new(SYSTEM_OBJECT, output_changes(), 7);
    let callback = |_addresses: &[PropertyAddress]| 0;
    assert_eq!(
        listener.dispatch(SYSTEM_OBJECT, &[output_changes(), input_changes()], &callback),
        Err(PropertyError::ContractViolation)
    );
    assert!(!listener.check(SYSTEM_OBJECT, &[input_changes()]));
    assert!(listener.check(SYSTEM_OBJECT, &[output_changes()]));
}

#[test]
fn notification_without_addresses_is_a_contract_violation() {
    let listener = PropertyListener::new(SYSTEM_OBJECT, output_changes(), 7);
    let callback = |_addresses: &[PropertyAddress]| 0;
    assert_eq!(
        listener.dispatch(SYSTEM_OBJECT, &[], &callback),
        Err(PropertyError::ContractViolation)
    );
}

#[test]
fn registry_gives_each_listener_a_token_of_its_own() {
    let mut registry = ListenerRegistry::new();
    assert_eq!(registry.create(SYSTEM_OBJECT, output_changes()), Some(0));
    assert_eq!(registry.create(SYSTEM_OBJECT, output_changes()), Some(1));
    assert_eq!(registry.create(SYSTEM_OBJECT, input_changes()), Some(2));
    assert!(registry.contains(0) && registry.contains(1) && registry.contains(2));
    assert!(!registry.contains(3));
    assert_eq!(registry.find(2), Some(2));
    assert_eq!(registry.find(9), None);
    assert_eq!(
        registry.get(1),
        Some(PropertyListener {
            device: 1,
            property: output_changes(),
            token: 1,
            state: ListenerState::Idle,
        })
    );
    assert_eq!(registry.get(5), None);
}

#[test]
fn registry_is_full_once_the_tokens_are_used_up() {
    let mut registry = ListenerRegistry { listeners: Vec::new(), next_token: u64::MAX - 1 };
    assert_eq!(registry.create(SYSTEM_OBJECT, output_changes()), Some(u64::MAX - 1));
    assert_eq!(registry.create(SYSTEM_OBJECT, output_changes()), None);
    assert_eq!(registry.listeners.len(), 1);
    assert_eq!(registry.next_token, u64::MAX);
}

#[test]
fn registry_starts_and_stops_by_token() {
    let platform = Notifier::new();
    let hal = |request: HalRequest| platform.perform(request);
    let mut registry = ListenerRegistry::new();
    let first = registry.create(SYSTEM_OBJECT, output_changes()).unwrap();
    let second = registry.create(SYSTEM_OBJECT, input_changes()).unwrap();
    assert_eq!(registry.start(&mut on(&hal), second), Ok(()));
    assert!(registry.get(second).unwrap().is_active());
    assert!(!registry.get(first).unwrap().is_active());
    assert_eq!(*platform.registered.borrow(), vec![(1, input_changes(), second)]);
    assert_eq!(registry.start(&mut on(&hal), second), Ok(()));
    assert_eq!(platform.registered.borrow().len(), 1);
    assert_eq!(registry.stop(&mut on(&hal), second), Ok(()));
    assert!(!registry.get(second).unwrap().is_active());
    assert!(platform.registered.borrow().is_empty());
}

#[test]
fn destroying_an_active_listener_stops_it_first() {
    let platform = Notifier::new();
    let hal = |request: HalRequest| platform.perform(request);
    let mut registry = ListenerRegistry::new();
    let first = registry.create(SYSTEM_OBJECT, output_changes()).unwrap();
    let second = registry.create(SYSTEM_OBJECT, input_changes()).unwrap();
    assert_eq!(registry.start(&mut on(&hal), first), Ok(()));
    assert_eq!(registry.start(&mut on(&hal), second), Ok(()));
    assert_eq!(registry.destroy(&mut on(&hal), first), Ok(()));
    assert!(!registry.contains(first));
    assert!(registry.contains(second));
    assert_eq!(*platform.registered.borrow(), vec![(1, input_changes(), second)]);
    // A token is not given out again.
    assert_eq!(registry.create(SYSTEM_OBJECT, output_changes()), Some(2));
}

#[test]
fn destroying_an_idle_listener_asks_nothing() {
    let platform = Notifier::new();
    let hal = |request: HalRequest| platform.perform(request);
    let mut registry = ListenerRegistry::new();
    let token = registry.create(SYSTEM_OBJECT, output_changes()).unwrap();
    assert_eq!(registry.destroy(&mut on(&hal), token), Ok(()));
    assert_eq!(platform.requests.get(), 0);
    assert!(!registry.contains(token));
}

#[test]
fn listener_whose_stop_fails_stays_in_the_registry() {
    let platform = Notifier::new();
    let hal = |request: HalRequest| platform.perform(request);
    let mut registry = ListenerRegistry::new();
    let token = registry.create(SYSTEM_OBJECT, output_changes()).unwrap();
    assert_eq!(registry.start(&mut on(&hal), token), Ok(()));
    platform.status.set(-14);
    assert_eq!(
        registry.destroy(&mut on(&hal), token),
        Err(PropertyError::PlatformStatusError(-14)),
    );
    assert!(registry.get(token).unwrap().is_active());
}

#[test]
fn registry_dispatches_to_the_listener_under_the_token() {
    let mut registry = ListenerRegistry::new();
    let output = registry.create(SYSTEM_OBJECT, output_changes()).unwrap();
    let input = registry.create(SYSTEM_OBJECT, input_changes()).unwrap();
    let callback = |addresses: &[PropertyAddress]| addresses.len() as i32;
    assert_eq!(registry.dispatch(output, 1, &[output_changes()], &callback), Ok(1));
    assert_eq!(
        registry.dispatch(input, 1, &[input_changes(), input_changes()], &callback),
        Ok(2)
    );
    assert_eq!(
        registry.dispatch(input, 1, &[output_changes()], &callback),
        Err(PropertyError::ContractViolation)
    );
}

#[test]
fn notification_with_an_unknown_token_is_a_contract_violation() {
    let mut registry = ListenerRegistry::new();
    registry.create(SYSTEM_OBJECT, output_changes());
    let callback = |_addresses: &[PropertyAddress]| 0;
    assert_eq!(
        registry.dispatch(41, 1, &[output_changes()], &callback),
        Err(PropertyError::ContractViolation)
    );
}
