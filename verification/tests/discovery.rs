use std::collections::BTreeMap;

use fpga::accelerator::Accelerator;
use fpga::attribute::{AcceleratorState, Attribute, Guid, ObjectType, Value, Version};
use fpga::device::Device;
use fpga::enumeration::TokenIter;
use fpga::errors::{Error, Status};
use fpga::filter::Filter;
use fpga::native::{Call, Machine, Next, Payload, Release, Reply, Turn};
use fpga::opae::Opae;
use fpga::properties::{Properties, ResourceProperties};
use fpga::resource::Resource;
use fpga::token::Token;

/// A runtime in memory: the resources of a system, and the native objects
/// that have been handed out and not destroyed yet.
struct System {
    resources: Vec<Vec<Value>>,
    properties: BTreeMap<usize, Vec<Value>>,
    tokens: BTreeMap<usize, usize>,
    next: usize,
    calls: Vec<Call>,
    released: Vec<Release>,
    refuse: Vec<Attribute>,
    shrink_after_probe: bool,
}

impl System {
    fn new(resources: Vec<Vec<Value>>) -> System {
        System {
            resources,
            properties: BTreeMap::new(),
            tokens: BTreeMap::new(),
            next: 0x1000,
            calls: Vec::new(),
            released: Vec::new(),
            refuse: Vec::new(),
            shrink_after_probe: false,
        }
    }

    fn fresh(&mut self) -> usize {
        self.next += 8;
        self.next
    }

    fn failure(status: Status) -> Reply {
        Reply { status, payload: Payload::Empty }
    }

    fn matches(&self, wanted: &[Value]) -> Vec<usize> {
        (0..self.resources.len())
            .filter(|&index| wanted.iter().all(|value| self.resources[index].contains(value)))
            .collect()
    }

    fn perform(&mut self, call: &Call) -> Reply {
        self.calls.push(call.clone());
        match call {
            Call::NewProperties => {
                let raw = self.fresh();
                self.properties.insert(raw, Vec::new());
                Reply { status: Status::Success, payload: Payload::Properties(raw) }
            }
            Call::GetProperties { token } => match self.tokens.get(token) {
                Some(&index) => {
                    let raw = self.fresh();
                    self.properties.insert(raw, self.resources[index].clone());
                    Reply { status: Status::Success, payload: Payload::Properties(raw) }
                }
                None => System::failure(Status::InvalidParam),
            },
            Call::CloneProperties { properties } => match self.properties.get(properties).cloned() {
                Some(values) => {
                    let raw = self.fresh();
                    self.properties.insert(raw, values);
                    Reply { status: Status::Success, payload: Payload::Properties(raw) }
                }
                None => System::failure(Status::InvalidParam),
            },
            Call::CloneToken { token } => match self.tokens.get(token).copied() {
                Some(index) => {
                    let raw = self.fresh();
                    self.tokens.insert(raw, index);
                    Reply { status: Status::Success, payload: Payload::Token(raw) }
                }
                None => System::failure(Status::InvalidParam),
            },
            Call::Read { properties, attribute } => match self.properties.get(properties) {
                Some(values) => match values.iter().find(|value| value.attribute() == *attribute) {
                    Some(value) => {
                        Reply { status: Status::Success, payload: Payload::Value(value.clone()) }
                    }
                    None => System::failure(Status::NotFound),
                },
                None => System::failure(Status::InvalidParam),
            },
            Call::Write { properties, value } => {
                if self.refuse.contains(&value.attribute()) {
                    return System::failure(Status::InvalidParam);
                }
                match self.properties.get_mut(properties) {
                    Some(values) => {
                        values.retain(|held| held.attribute() != value.attribute());
                        values.push(value.clone());
                        Reply { status: Status::Success, payload: Payload::Empty }
                    }
                    None => System::failure(Status::InvalidParam),
                }
            }
            Call::Enumerate { properties, capacity } => {
                let wanted = match self.properties.get(properties) {
                    Some(values) => values.clone(),
                    None => return System::failure(Status::InvalidParam),
                };
                if *capacity > 0 && self.shrink_after_probe {
                    self.resources.pop();
                }
                let found = self.matches(&wanted);
                let mut tokens = vec![0usize; *capacity as usize];
                for place in 0..found.len().min(*capacity as usize) {
                    let raw = self.fresh();
                    self.tokens.insert(raw, found[place]);
                    tokens[place] = raw;
                }
                Reply {
                    status: Status::Success,
                    payload: Payload::Matches { tokens, total: found.len() as u32 },
                }
            }
        }
    }

    fn release(&mut self, release: Release) {
        let known = match release {
            Release::Properties(raw) => self.properties.remove(&raw).is_some(),
            Release::Token(raw) => self.tokens.remove(&raw).is_some(),
        };
        assert!(known, "released twice, or never handed out: {:?}", release);
        self.released.push(release);
    }

    fn live(&self) -> usize {
        self.properties.len() + self.tokens.len()
    }
}

/// Runs an operation to its end against the system.
fn run<M: Machine>(system: &mut System, turn: Turn<M, M::Output>) -> M::Output {
    let mut turn = turn;
    loop {
        for release in turn.releases {
            system.release(release);
        }
        match turn.next {
            Next::Done(output) => return output,
            Next::Call(state, call) => {
                let reply = system.perform(&call);
                turn = state.resume(reply);
            }
        }
    }
}

fn read_all(system: &mut System, calls: Vec<Call>) -> Vec<Reply> {
    calls.iter().map(|call| system.perform(call)).collect()
}

fn guid() -> Guid {
    Guid { bytes: [1, 2, 3, 4, 5, 6, 7, 8, 9, 10, 11, 12, 13, 14, 15, 16] }
}

fn device(device_id: u16) -> Vec<Value> {
    vec![
        Value::ObjectType(ObjectType::Device),
        Value::DeviceId(device_id),
        Value::VendorId(0x8086),
        Value::PciBusNr(0x5e),
        Value::Model(String::from("pac")),
        Value::NumSlots(1),
        Value::BbsVersion(Version { major: 1, minor: 2, patch: 3 }),
    ]
}

fn accelerator(device_id: u16) -> Vec<Value> {
    vec![
        Value::ObjectType(ObjectType::Accelerator),
        Value::DeviceId(device_id),
        Value::VendorId(0x8086),
        Value::Guid(guid()),
        Value::PciBusNr(0x5e),
        Value::AcceleratorState(AcceleratorState::Unassigned),
        Value::NumMmioSpaces(2),
    ]
}

#[test]
fn bad_filter() {
    let turn = Opae::from_filter(Filter::new().with_device_object());
    assert!(matches!(turn.next, Next::Done(Err(_))));
}

#[test]
fn device_query_is_refused_before_any_native_call() {
    let mut system = System::new(vec![device(7), accelerator(7)]);
    let turn = Opae::from_filter(Filter::new().with_device_object());
    assert!(turn.releases.is_empty());
    let result = run(&mut system, turn);
    assert_eq!(result, Err(Error { status: Status::InvalidParam }));
    assert!(result.unwrap_err().is_invalid_parameter());
    assert!(system.calls.is_empty());
}

#[test]
fn discover_finds_accelerator_and_its_device() {
    let mut system = System::new(vec![device(7), accelerator(7)]);
    let opae = run(&mut system, Opae::new()).expect("an accelerator");
    assert!(opae.device.is_some());

    let reads = opae.accelerator_info_reads();
    assert_eq!(reads.len(), 13);
    let replies = read_all(&mut system, reads);
    let info = opae.accelerator_info(&replies);
    assert_eq!(info.resource.guid, Some(guid()));
    assert_eq!(info.resource.device_id, Some(7));
    assert_eq!(info.resource.vendor_id, Some(0x8086));
    assert_eq!(info.assigned, Some(false));
    assert_eq!(info.num_mmio_spaces, Some(2));
    assert_eq!(info.num_interrupts, None);

    let reads = opae.device_info_reads().expect("a device");
    assert_eq!(reads.len(), 15);
    let replies = read_all(&mut system, reads);
    let info = opae.device_info(&replies).expect("a device");
    assert_eq!(info.resource.vendor_id, Some(0x8086));
    assert_eq!(info.model, Some(String::from("pac")));
    assert_eq!(info.bbs_version, Some(Version { major: 1, minor: 2, patch: 3 }));
    assert_eq!(info.bbs_id, None);
    assert_eq!(info.resource.guid, None);

    // What is still alive is what the platform owns.
    assert_eq!(system.live(), 4);
}

#[test]
fn discover_without_accelerator_is_not_found() {
    let mut system = System::new(vec![device(7)]);
    let result = run(&mut system, Opae::new());
    assert_eq!(result, Err(Error { status: Status::NotFound }));
    assert!(result.unwrap_err().is_not_found());
    assert_eq!(system.live(), 0);
}

#[test]
fn discover_on_empty_system_is_not_found() {
    let mut system = System::new(Vec::new());
    assert_eq!(run(&mut system, Opae::new()), Err(Error { status: Status::NotFound }));
    assert_eq!(system.live(), 0);
}

#[test]
fn query_without_kind_selects_accelerators() {
    let mut system = System::new(vec![device(7), accelerator(7)]);
    let opae = run(&mut system, Opae::from_filter(Filter::new().with_pci_bus_nr(0x5e)))
        .expect("an accelerator");
    assert_eq!(
        system.calls[1],
        Call::Write {
            properties: 0x1008,
            value: Value::ObjectType(ObjectType::Accelerator)
        }
    );
    assert_eq!(
        system.calls[2],
        Call::Write { properties: 0x1008, value: Value::PciBusNr(0x5e) }
    );
    assert!(opae.device.is_some());
}

#[test]
fn accelerator_without_device_is_tolerated() {
    let mut system = System::new(vec![accelerator(9)]);
    let opae = run(&mut system, Opae::new()).expect("an accelerator");
    assert_eq!(opae.device, None);
    assert_eq!(opae.device_info_reads(), None);
    assert_eq!(opae.device_info(&Vec::new()), None);
    assert_eq!(system.live(), 2);
}

#[test]
fn accelerator_whose_device_id_cannot_be_read_has_no_device() {
    let mut system = System::new(vec![vec![Value::ObjectType(ObjectType::Accelerator)]]);
    let opae = run(&mut system, Opae::new()).expect("an accelerator");
    assert_eq!(opae.device, None);
    // The failed read is the last call: no lookup follows it.
    assert!(matches!(
        system.calls.last(),
        Some(Call::Read { attribute: Attribute::DeviceId, .. })
    ));
}

#[test]
fn first_match_is_taken_and_the_rest_released() {
    let mut system = System::new(vec![accelerator(1), accelerator(2), accelerator(3)]);
    let opae = run(&mut system, Opae::new()).expect("an accelerator");
    let reply = system.perform(&opae.accelerator.read(Attribute::DeviceId));
    assert_eq!(opae.accelerator.device_id(&reply), Ok(1));
    assert_eq!(system.live(), 2);
    let tokens = system
        .released
        .iter()
        .filter(|release| matches!(release, Release::Token(_)))
        .count();
    assert_eq!(tokens, 2);
}

#[test]
fn compiled_query_reads_back_what_was_set() {
    let mut system = System::new(Vec::new());
    let query = Filter::new().with_vendor_id(0x8086).with_accelerator_assigned();
    let properties = run(&mut system, Properties::from_filter(query)).expect("a property set");
    let reply = system.perform(&properties.read(Attribute::VendorId));
    assert_eq!(reply.vendor_id(), Ok(0x8086));
    let reply = system.perform(&properties.read(Attribute::AcceleratorState));
    assert_eq!(reply.accelerator_state(), Ok(AcceleratorState::Assigned));
    let reply = system.perform(&properties.read(Attribute::DeviceId));
    assert_eq!(reply.device_id(), Err(Error { status: Status::NotFound }));
}

#[test]
fn every_attribute_reads_back() {
    let query = Filter::new()
        .with_accelerator_unassigned()
        .with_bbs_id(11)
        .with_bbs_version(1, 2, 3)
        .with_capabilities(12)
        .with_device_id(13)
        .with_guid(guid())
        .with_local_memory_size(14)
        .with_model("model")
        .with_num_error_registers(15)
        .with_num_interrupts(16)
        .with_num_mmio_spaces(17)
        .with_num_slots(18)
        .with_accelerator_object()
        .with_object_id(19)
        .with_pci_bus_nr(20)
        .with_pci_device_nr(21)
        .with_pci_function_nr(22)
        .with_pci_segment_nr(23)
        .with_socket_id(24)
        .with_vendor_id(25);
    let values = query.assignments();
    assert_eq!(values.len(), 20);
    let mut system = System::new(Vec::new());
    let properties = run(&mut system, Properties::from_filter(query)).expect("a property set");
    assert_eq!(system.calls.len(), 21);
    for value in values {
        let reply = system.perform(&properties.read(value.attribute()));
        assert_eq!(reply.value(value.attribute()), Ok(value));
    }
}

#[test]
fn first_refused_write_ends_compilation() {
    let mut system = System::new(Vec::new());
    system.refuse.push(Attribute::DeviceId);
    let query = Filter::new().with_vendor_id(1).with_device_id(2).with_pci_bus_nr(3);
    let result = run(&mut system, Properties::from_filter(query));
    assert_eq!(result, Err(Error { status: Status::InvalidParam }));
    // Made, bus written, device identifier refused: the vendor is never tried.
    assert_eq!(
        system.calls,
        vec![
            Call::NewProperties,
            Call::Write { properties: 0x1008, value: Value::PciBusNr(3) },
            Call::Write { properties: 0x1008, value: Value::DeviceId(2) },
        ]
    );
    assert_eq!(system.released, vec![Release::Properties(0x1008)]);
    assert_eq!(system.live(), 0);
}

#[test]
fn failed_allocation_ends_compilation() {
    let turn = Properties::from_filter(Filter::new().with_vendor_id(1));
    let state = match turn.next {
        Next::Call(state, call) => {
            assert_eq!(call, Call::NewProperties);
            state
        }
        Next::Done(_) => panic!("no call"),
    };
    let turn = state.resume(Reply { status: Status::NoMemory, payload: Payload::Empty });
    assert!(turn.releases.is_empty());
    assert_eq!(turn.next, Next::Done(Err(Error { status: Status::NoMemory })));
}

#[test]
fn null_property_set_is_no_success() {
    let turn = Properties::from_filter(Filter::new());
    let state = match turn.next {
        Next::Call(state, _) => state,
        Next::Done(_) => panic!("no call"),
    };
    let turn = state.resume(Reply { status: Status::Success, payload: Payload::Properties(0) });
    assert_eq!(turn.next, Next::Done(Err(Error { status: Status::Exception })));
}

#[test]
fn enumeration_probes_then_fetches_what_it_counted() {
    let mut system = System::new(vec![accelerator(1), device(1), accelerator(2)]);
    let tokens = run(&mut system, Filter::new().with_accelerator_object().into_iter()).expect("a fetch");
    assert_eq!(tokens.remaining(), 2);
    let enumerations: Vec<&Call> = system
        .calls
        .iter()
        .filter(|call| matches!(call, Call::Enumerate { .. }))
        .collect();
    assert_eq!(
        enumerations,
        vec![
            &Call::Enumerate { properties: 0x1008, capacity: 0 },
            &Call::Enumerate { properties: 0x1008, capacity: 2 },
        ]
    );
    // The query's property set is gone, the two tokens are alive.
    assert_eq!(system.released, vec![Release::Properties(0x1008)]);
    assert_eq!(system.live(), 2);
    for release in tokens.abandon() {
        system.release(release);
    }
    assert_eq!(system.live(), 0);
}

#[test]
fn fetch_count_is_authoritative_when_the_system_shrinks() {
    let mut system = System::new(vec![accelerator(1), accelerator(2), accelerator(3)]);
    system.shrink_after_probe = true;
    let tokens = run(&mut system, Filter::new().with_accelerator_object().into_iter()).expect("a fetch");
    assert!(system.calls.contains(&Call::Enumerate { properties: 0x1008, capacity: 3 }));
    assert_eq!(tokens.remaining(), 2);
}

#[test]
fn fetch_never_takes_more_than_was_asked_for() {
    let state = fpga::enumeration::Enumeration::Fetching {
        properties: Properties::from_raw(8),
        capacity: 2,
    };
    let turn = state.resume(Reply {
        status: Status::Success,
        payload: Payload::Matches { tokens: vec![16, 24, 32], total: 5 },
    });
    assert_eq!(turn.releases, vec![Release::Properties(8)]);
    match turn.next {
        Next::Done(Ok(tokens)) => {
            assert_eq!(tokens.remaining(), 2);
            assert_eq!(tokens.abandon(), vec![Release::Token(16), Release::Token(24)]);
        }
        _ => panic!("the fetch succeeded"),
    }
}

#[test]
fn failed_probe_counts_as_no_match() {
    let state = fpga::enumeration::Enumeration::Probing { properties: Properties::from_raw(8) };
    let turn = state.resume(Reply { status: Status::Exception, payload: Payload::Empty });
    match turn.next {
        Next::Call(_, call) => assert_eq!(call, Call::Enumerate { properties: 8, capacity: 0 }),
        Next::Done(_) => panic!("the fetch is still made"),
    }
}

#[test]
fn failed_fetch_leaves_nothing() {
    let state = fpga::enumeration::Enumeration::Fetching {
        properties: Properties::from_raw(8),
        capacity: 2,
    };
    let turn = state.resume(Reply { status: Status::NoDriver, payload: Payload::Empty });
    assert_eq!(turn.releases, vec![Release::Properties(8)]);
    assert_eq!(turn.next, Next::Done(Err(Error { status: Status::NoDriver })));
}

#[test]
fn query_that_does_not_compile_enumerates_nothing() {
    let mut system = System::new(vec![accelerator(1)]);
    system.refuse.push(Attribute::ObjectType);
    let tokens = run(&mut system, Filter::new().with_accelerator_object().into_iter());
    assert_eq!(tokens, Err(Error { status: Status::InvalidParam }));
    assert_eq!(system.live(), 0);
}

#[test]
fn fetch_without_a_match_leaves_an_empty_buffer() {
    let mut system = System::new(vec![device(1)]);
    let tokens = run(&mut system, Filter::new().with_accelerator_object().into_iter())
        .expect("a fetch");
    assert_eq!(tokens, TokenIter { tokens: Vec::new(), limit: 0, cursor: 0 });
    assert_eq!(tokens.remaining(), 0);
    assert_eq!(tokens.next().next, Next::Done(None));
}

/// Feeds `replies` to an operation, one after the other.
fn feed<M: Machine>(turn: Turn<M, M::Output>, replies: Vec<Reply>) -> (Vec<Release>, M::Output) {
    let mut replies = replies.into_iter();
    let mut released = Vec::new();
    let mut turn = turn;
    loop {
        released.extend(turn.releases);
        match turn.next {
            Next::Done(output) => return (released, output),
            Next::Call(state, _) => turn = state.resume(replies.next().expect("a reply")),
        }
    }
}

fn done() -> Reply {
    Reply { status: Status::Success, payload: Payload::Empty }
}

#[test]
fn failed_allocation_comes_out_of_the_selection() {
    for status in [Status::NoMemory, Status::NoDriver, Status::Busy, Status::NotFound] {
        let (released, result) =
            feed(Opae::new(), vec![Reply { status, payload: Payload::Empty }]);
        assert_eq!(result, Err(Error { status }));
        assert!(released.is_empty());
    }
}

#[test]
fn refused_write_comes_out_of_the_selection() {
    let mut system = System::new(vec![accelerator(1)]);
    system.refuse.push(Attribute::PciBusNr);
    let result = run(&mut system, Opae::from_filter(Filter::new().with_pci_bus_nr(1)));
    assert_eq!(result, Err(Error { status: Status::InvalidParam }));
    assert_eq!(system.live(), 0);

    let replies = vec![
        Reply { status: Status::Success, payload: Payload::Properties(8) },
        Reply { status: Status::NotSupported, payload: Payload::Empty },
    ];
    let (released, result) = feed(Opae::new(), replies);
    assert_eq!(result, Err(Error { status: Status::NotSupported }));
    assert_eq!(released, vec![Release::Properties(8)]);
}

#[test]
fn failed_fetch_comes_out_of_the_selection() {
    let replies = vec![
        Reply { status: Status::Success, payload: Payload::Properties(8) },
        done(),
        Reply { status: Status::Success, payload: Payload::Matches { tokens: vec![], total: 1 } },
        Reply { status: Status::Busy, payload: Payload::Empty },
    ];
    let (released, result) = feed(Opae::new(), replies);
    assert_eq!(result, Err(Error { status: Status::Busy }));
    assert_eq!(released, vec![Release::Properties(8)]);
}

#[test]
fn failed_probe_does_not_end_the_selection() {
    // The probe only sizes the buffer: its failure counts as no match.
    let replies = vec![
        Reply { status: Status::Success, payload: Payload::Properties(8) },
        done(),
        Reply { status: Status::Exception, payload: Payload::Empty },
        Reply { status: Status::Success, payload: Payload::Matches { tokens: vec![], total: 3 } },
    ];
    let (released, result) = feed(Opae::new(), replies);
    assert_eq!(result, Err(Error { status: Status::NotFound }));
    assert_eq!(released, vec![Release::Properties(8)]);
}

#[test]
fn failed_lookup_of_the_device_leaves_the_platform_without_one() {
    let replies = vec![
        Reply { status: Status::Success, payload: Payload::Properties(8) },
        done(),
        Reply { status: Status::Success, payload: Payload::Matches { tokens: vec![], total: 1 } },
        Reply { status: Status::Success, payload: Payload::Matches { tokens: vec![40], total: 1 } },
        Reply { status: Status::Success, payload: Payload::Properties(48) },
        Reply {
            status: Status::Success,
            payload: Payload::Value(Value::ObjectType(ObjectType::Accelerator)),
        },
        Reply { status: Status::Success, payload: Payload::Value(Value::DeviceId(3)) },
        // The lookup of the device cannot even make its property set.
        Reply { status: Status::NoMemory, payload: Payload::Empty },
    ];
    let (released, result) = feed(Opae::new(), replies);
    let opae = result.expect("a platform");
    assert_eq!(opae.device, None);
    assert_eq!(opae.accelerator.token.raw(), 40);
    assert_eq!(opae.accelerator.properties.raw(), 48);
    assert_eq!(released, vec![Release::Properties(8)]);
}

#[test]
fn every_resource_is_of_the_kind_that_its_property_set_records() {
    let mut system = System::new(vec![accelerator(1), device(1), accelerator(2), device(2)]);
    let mut tokens = run(&mut system, Filter::new().into_iter()).expect("a fetch");
    assert_eq!(tokens.remaining(), 4);
    let mut kinds = Vec::new();
    loop {
        match run(&mut system, tokens.next()) {
            Some((resource, rest)) => {
                let properties = match &resource {
                    Resource::Device(device) => device.properties(),
                    Resource::Accelerator(accelerator) => accelerator.properties(),
                };
                let reply = system.perform(&properties.read(Attribute::ObjectType));
                assert_eq!(reply.object_type(), Ok(resource.object_type()));
                assert_eq!(resource.is_device(), resource.object_type() == ObjectType::Device);
                kinds.push(resource.object_type());
                tokens = rest;
            }
            None => break,
        }
    }
    assert_eq!(
        kinds,
        vec![
            ObjectType::Accelerator,
            ObjectType::Device,
            ObjectType::Accelerator,
            ObjectType::Device
        ]
    );
}

#[test]
fn token_that_cannot_be_classified_is_dropped() {
    // The second resource records no kind: its token is released and passed over.
    let mut system = System::new(vec![
        accelerator(1),
        vec![Value::DeviceId(5)],
        accelerator(3),
    ]);
    let mut tokens = run(&mut system, Filter::new().into_iter()).expect("a fetch");
    assert_eq!(tokens.remaining(), 3);
    let mut found = 0;
    loop {
        match run(&mut system, tokens.next()) {
            Some((resource, rest)) => {
                assert!(!resource.is_device());
                for release in resource.release() {
                    system.release(release);
                }
                found += 1;
                tokens = rest;
            }
            None => break,
        }
    }
    assert_eq!(found, 2);
    assert_eq!(system.live(), 0);
}

#[test]
fn null_entries_are_passed_over() {
    let tokens = TokenIter { tokens: vec![0, 0, 40, 0], limit: 4, cursor: 0 };
    assert_eq!(tokens.remaining(), 4);
    let turn = tokens.next();
    assert!(turn.releases.is_empty());
    match turn.next {
        Next::Call(scan, call) => {
            assert_eq!(call, Call::GetProperties { token: 40 });
            assert_eq!(scan.rest.remaining(), 1);
            assert_eq!(scan.rest, TokenIter { tokens: vec![0, 0, 40, 0], limit: 4, cursor: 3 });
        }
        Next::Done(_) => panic!("a token is left"),
    }
    let tokens = TokenIter { tokens: vec![0, 0], limit: 2, cursor: 0 };
    assert_eq!(tokens.next().next, Next::Done(None));
    // Entries behind the limit or behind the end of the buffer are no matches.
    let tokens = TokenIter { tokens: vec![0, 40], limit: 1, cursor: 0 };
    assert_eq!(tokens.remaining(), 1);
    assert_eq!(tokens.next().next, Next::Done(None));
    let tokens = TokenIter { tokens: vec![40], limit: 5, cursor: 1 };
    assert_eq!(tokens.remaining(), 0);
    assert_eq!(tokens.abandon(), Vec::new());
}

#[test]
fn classification_releases_what_it_holds_when_it_fails() {
    let turn = Resource::from_token(Token::from_raw(40));
    let state = match turn.next {
        Next::Call(state, call) => {
            assert_eq!(call, Call::GetProperties { token: 40 });
            state
        }
        Next::Done(_) => panic!("no call"),
    };
    let turn = state.resume(Reply { status: Status::Success, payload: Payload::Properties(48) });
    let state = match turn.next {
        Next::Call(state, call) => {
            assert_eq!(call, Call::Read { properties: 48, attribute: Attribute::ObjectType });
            state
        }
        Next::Done(_) => panic!("no call"),
    };
    let turn = state.resume(Reply { status: Status::NotFound, payload: Payload::Empty });
    assert_eq!(turn.releases, vec![Release::Properties(48), Release::Token(40)]);
    assert_eq!(turn.next, Next::Done(Err(Error { status: Status::NotFound })));

    let turn = Resource::from_token(Token::from_raw(40));
    let state = match turn.next {
        Next::Call(state, _) => state,
        Next::Done(_) => panic!("no call"),
    };
    let turn = state.resume(Reply { status: Status::Busy, payload: Payload::Empty });
    assert_eq!(turn.releases, vec![Release::Token(40)]);
    assert_eq!(turn.next, Next::Done(Err(Error { status: Status::Busy })));
}

#[test]
fn kind_of_the_wrong_attribute_is_no_kind() {
    let state = fpga::resource::Classification::Reading {
        token: Token::from_raw(40),
        properties: Properties::from_raw(48),
    };
    let turn = state.resume(Reply {
        status: Status::Success,
        payload: Payload::Value(Value::DeviceId(1)),
    });
    assert_eq!(turn.next, Next::Done(Err(Error { status: Status::Exception })));
}

#[test]
fn device_lookup_asks_for_devices_with_the_accelerators_id() {
    let mut system = System::new(vec![device(1), device(2), accelerator(2)]);
    let opae = run(&mut system, Opae::new()).expect("an accelerator");
    let device = opae.device.expect("a device");
    let reply = system.perform(&device.read(Attribute::DeviceId));
    assert_eq!(device.device_id(&reply), Ok(2));
    let writes: Vec<&Call> = system
        .calls
        .iter()
        .filter(|call| matches!(call, Call::Write { .. }))
        .collect();
    assert_eq!(writes.len(), 3);
    assert!(matches!(
        writes[1],
        Call::Write { value: Value::ObjectType(ObjectType::Device), .. }
    ));
    assert!(matches!(writes[2], Call::Write { value: Value::DeviceId(2), .. }));
}

#[test]
fn clone_is_released_on_its_own() {
    let mut system = System::new(vec![accelerator(1)]);
    let opae = run(&mut system, Opae::new()).expect("an accelerator");
    let Accelerator { token, properties } = opae.accelerator;

    let reply = system.perform(&token.duplicate());
    assert!(reply.token().is_ok());
    let second = token.cloned(&reply);
    assert_ne!(second.raw(), token.raw());
    system.release(second.release());
    assert!(system.perform(&token.get_properties()).status.is_ok());

    let reply = system.perform(&properties.duplicate());
    let second = properties.cloned(&reply).expect("a second property set");
    assert_ne!(second.raw(), properties.raw());
    let reply = system.perform(&second.read(Attribute::DeviceId));
    assert_eq!(reply.device_id(), Ok(1));
    system.release(second.release());
    let reply = system.perform(&properties.read(Attribute::DeviceId));
    assert_eq!(reply.device_id(), Ok(1));
}

#[test]
fn failed_clone_of_a_property_set_is_an_error() {
    let properties = Properties::from_raw(8);
    let reply = Reply { status: Status::NoMemory, payload: Payload::Empty };
    assert_eq!(properties.cloned(&reply), Err(Error { status: Status::NoMemory }));
}

#[test]
fn property_set_of_a_token() {
    let token = Token::from_raw(40);
    assert_eq!(token.get_properties(), Call::GetProperties { token: 40 });
    let reply = Reply { status: Status::Success, payload: Payload::Properties(48) };
    let properties = Properties::from_token(&token, &reply).expect("a property set");
    assert_eq!(properties.raw(), 48);
    let reply = Reply { status: Status::NoAccess, payload: Payload::Empty };
    assert_eq!(Properties::from_token(&token, &reply), Err(Error { status: Status::NoAccess }));
}

#[test]
fn num_matches_is_zero_on_failure() {
    let properties = Properties::from_raw(8);
    assert_eq!(properties.probe(), Call::Enumerate { properties: 8, capacity: 0 });
    let reply = Reply {
        status: Status::Success,
        payload: Payload::Matches { tokens: Vec::new(), total: 3 },
    };
    assert_eq!(properties.num_matches(&reply), 3);
    let reply = Reply {
        status: Status::Exception,
        payload: Payload::Matches { tokens: Vec::new(), total: 3 },
    };
    assert_eq!(properties.num_matches(&reply), 0);
    let reply = Reply { status: Status::Success, payload: Payload::Empty };
    assert_eq!(properties.num_matches(&reply), 0);
}

#[test]
fn unwrap_device_gives_the_device() {
    let resource = Resource::Device(Device::new(Token::from_raw(40), Properties::from_raw(48)));
    assert!(resource.is_device());
    let device = resource.unwrap_device();
    assert_eq!(device.token.raw(), 40);
    assert_eq!(device.properties.raw(), 48);
    let resource =
        Resource::Accelerator(Accelerator::new(Token::from_raw(40), Properties::from_raw(48)));
    assert!(!resource.is_device());
    assert_eq!(resource.release(), vec![Release::Properties(48), Release::Token(40)]);
}

#[test]
fn first_match_that_is_no_accelerator_is_an_exception() {
    // A runtime that answers a query for accelerators with a device.
    let turn = Opae::new();
    let mut replies = vec![
        Reply { status: Status::Success, payload: Payload::Properties(8) },
        Reply { status: Status::Success, payload: Payload::Empty },
        Reply { status: Status::Success, payload: Payload::Matches { tokens: vec![], total: 1 } },
        Reply { status: Status::Success, payload: Payload::Matches { tokens: vec![40], total: 1 } },
        Reply { status: Status::Success, payload: Payload::Properties(48) },
        Reply {
            status: Status::Success,
            payload: Payload::Value(Value::ObjectType(ObjectType::Device)),
        },
    ]
    .into_iter();
    let mut released = Vec::new();
    let mut turn = turn;
    let result = loop {
        released.extend(turn.releases);
        match turn.next {
            Next::Done(result) => break result,
            Next::Call(state, _) => turn = state.resume(replies.next().expect("a reply")),
        }
    };
    assert_eq!(result, Err(Error { status: Status::Exception }));
    assert_eq!(
        released,
        vec![Release::Properties(8), Release::Properties(48), Release::Token(40)]
    );
}
