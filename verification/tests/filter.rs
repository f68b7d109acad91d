use fpga::attribute::{AcceleratorState, Attribute, Guid, ObjectType, Value, Version};
use fpga::filter::{Filter, ATTRIBUTES};

#[test]
fn new_filter_constrains_nothing() {
    let filter = Filter::new();
    assert_eq!(filter, Filter::default());
    assert!(filter.assignments().is_empty());
    assert_eq!(filter.next_present(0), ATTRIBUTES);
    for place in 0..ATTRIBUTES {
        assert_eq!(filter.get(Attribute::at(place)), None);
    }
}

#[test]
fn each_setter_sets_its_own_field() {
    let empty = Filter::new();
    assert_eq!(
        Filter::new().with_accelerator_assigned(),
        Filter { accelerator_state: Some(AcceleratorState::Assigned), ..empty.clone() }
    );
    assert_eq!(
        Filter::new().with_accelerator_unassigned(),
        Filter { accelerator_state: Some(AcceleratorState::Unassigned), ..empty.clone() }
    );
    assert_eq!(Filter::new().with_bbs_id(1), Filter { bbs_id: Some(1), ..empty.clone() });
    assert_eq!(
        Filter::new().with_bbs_version(1, 2, 3),
        Filter {
            bbs_version: Some(Version { major: 1, minor: 2, patch: 3 }),
            ..empty.clone()
        }
    );
    assert_eq!(
        Filter::new().with_capabilities(2),
        Filter { capabilities: Some(2), ..empty.clone() }
    );
    assert_eq!(Filter::new().with_device_id(3), Filter { device_id: Some(3), ..empty.clone() });
    let guid = Guid { bytes: [9; 16] };
    assert_eq!(Filter::new().with_guid(guid), Filter { guid: Some(guid), ..empty.clone() });
    assert_eq!(
        Filter::new().with_local_memory_size(4),
        Filter { local_memory_size: Some(4), ..empty.clone() }
    );
    assert_eq!(
        Filter::new().with_model("a10"),
        Filter { model: Some(String::from("a10")), ..empty.clone() }
    );
    assert_eq!(
        Filter::new().with_num_error_registers(5),
        Filter { num_error_registers: Some(5), ..empty.clone() }
    );
    assert_eq!(
        Filter::new().with_num_interrupts(6),
        Filter { num_interrupts: Some(6), ..empty.clone() }
    );
    assert_eq!(
        Filter::new().with_num_mmio_spaces(7),
        Filter { num_mmio_spaces: Some(7), ..empty.clone() }
    );
    assert_eq!(Filter::new().with_num_slots(8), Filter { num_slots: Some(8), ..empty.clone() });
    assert_eq!(
        Filter::new().with_accelerator_object(),
        Filter { obj_type: Some(ObjectType::Accelerator), ..empty.clone() }
    );
    assert_eq!(
        Filter::new().with_device_object(),
        Filter { obj_type: Some(ObjectType::Device), ..empty.clone() }
    );
    assert_eq!(Filter::new().with_object_id(9), Filter { object_id: Some(9), ..empty.clone() });
    assert_eq!(
        Filter::new().with_pci_bus_nr(10),
        Filter { pci_bus_nr: Some(10), ..empty.clone() }
    );
    assert_eq!(
        Filter::new().with_pci_device_nr(11),
        Filter { pci_device_nr: Some(11), ..empty.clone() }
    );
    assert_eq!(
        Filter::new().with_pci_function_nr(12),
        Filter { pci_function_nr: Some(12), ..empty.clone() }
    );
    assert_eq!(
        Filter::new().with_pci_segment_nr(13),
        Filter { pci_segment_nr: Some(13), ..empty.clone() }
    );
    assert_eq!(Filter::new().with_socket_id(14), Filter { socket_id: Some(14), ..empty.clone() });
    assert_eq!(Filter::new().with_vendor_id(15), Filter { vendor_id: Some(15), ..empty });
}

#[test]
fn later_setter_replaces_earlier() {
    let filter = Filter::new().with_device_object().with_accelerator_object();
    assert_eq!(filter.obj_type, Some(ObjectType::Accelerator));
    let filter = Filter::new().with_accelerator_assigned().with_accelerator_unassigned();
    assert_eq!(filter.accelerator_state, Some(AcceleratorState::Unassigned));
    let filter = Filter::new().with_vendor_id(1).with_vendor_id(2);
    assert_eq!(filter.assignments(), vec![Value::VendorId(2)]);
}

#[test]
fn vendor_and_assignment_compile_to_two_writes() {
    let filter = Filter::new().with_vendor_id(0x8086).with_accelerator_assigned();
    assert_eq!(
        filter.assignments(),
        vec![
            Value::VendorId(0x8086),
            Value::AcceleratorState(AcceleratorState::Assigned)
        ]
    );
    assert_eq!(filter.get(Attribute::VendorId), Some(Value::VendorId(0x8086)));
    assert_eq!(
        filter.get(Attribute::AcceleratorState),
        Some(Value::AcceleratorState(AcceleratorState::Assigned))
    );
    assert_eq!(filter.get(Attribute::DeviceId), None);
}

#[test]
fn kind_is_written_first() {
    let filter = Filter::new()
        .with_vendor_id(1)
        .with_pci_bus_nr(2)
        .with_accelerator_unassigned()
        .with_device_object();
    assert_eq!(
        filter.assignments(),
        vec![
            Value::ObjectType(ObjectType::Device),
            Value::PciBusNr(2),
            Value::VendorId(1),
            Value::AcceleratorState(AcceleratorState::Unassigned),
        ]
    );
}

#[test]
fn order_of_writing_covers_every_attribute_once() {
    let expected = [
        Attribute::ObjectType,
        Attribute::PciBusNr,
        Attribute::Guid,
        Attribute::BbsId,
        Attribute::Model,
        Attribute::PciDeviceNr,
        Attribute::NumMmioSpaces,
        Attribute::PciSegmentNr,
        Attribute::DeviceId,
        Attribute::PciFunctionNr,
        Attribute::NumSlots,
        Attribute::ObjectId,
        Attribute::SocketId,
        Attribute::VendorId,
        Attribute::NumErrorRegisters,
        Attribute::BbsVersion,
        Attribute::Capabilities,
        Attribute::NumInterrupts,
        Attribute::LocalMemorySize,
        Attribute::AcceleratorState,
    ];
    assert_eq!(ATTRIBUTES, 20);
    for (place, attribute) in expected.iter().enumerate() {
        assert_eq!(Attribute::at(place), *attribute);
        assert_eq!(attribute.index(), place);
    }
}

#[test]
fn next_present_finds_the_next_constrained_place() {
    let filter = Filter::new().with_pci_bus_nr(1).with_device_id(2);
    assert_eq!(filter.next_present(0), 1);
    assert_eq!(filter.next_present(1), 1);
    assert_eq!(filter.next_present(2), 8);
    assert_eq!(filter.next_present(9), 20);
    assert_eq!(filter.next_present(20), 20);
    assert_eq!(filter.next_present(25), 20);
}

#[test]
fn model_with_a_zero_byte_is_not_accepted() {
    assert!(Filter::accepts_model("Intel PAC"));
    assert!(Filter::accepts_model(""));
    assert!(Filter::accepts_model("gr\u{fc}n"));
    assert!(!Filter::accepts_model("a\0b"));
    assert!(!Filter::accepts_model("\0"));
}

#[test]
fn value_knows_its_attribute() {
    assert_eq!(Value::DeviceId(1).attribute(), Attribute::DeviceId);
    assert_eq!(Value::VendorId(1).attribute(), Attribute::VendorId);
    assert_eq!(Value::PciSegmentNr(1).attribute(), Attribute::PciSegmentNr);
    assert_eq!(Value::Model(String::new()).attribute(), Attribute::Model);
    assert_eq!(
        Value::ObjectType(ObjectType::Device).attribute(),
        Attribute::ObjectType
    );
}

#[test]
fn fields_are_shown_in_the_order_of_their_names() {
    let filter = Filter::new()
        .with_vendor_id(1)
        .with_pci_bus_nr(2)
        .with_object_id(3)
        .with_accelerator_unassigned()
        .with_device_object()
        .with_model("a10");
    let fields = filter.fields();
    assert_eq!(
        fields,
        vec![
            Value::AcceleratorState(AcceleratorState::Unassigned),
            Value::Model(String::from("a10")),
            Value::ObjectType(ObjectType::Device),
            Value::ObjectId(3),
            Value::PciBusNr(2),
            Value::VendorId(1),
        ]
    );
    let names: Vec<&str> = fields.iter().map(|value| value.attribute().name()).collect();
    assert_eq!(
        names,
        vec!["accelerator_state", "model", "obj_type", "object_id", "pci_bus_nr", "vendor_id"]
    );
    assert!(Filter::new().fields().is_empty());
}

#[test]
fn names_are_those_of_the_fields_in_their_order() {
    let names: Vec<&str> = (0..ATTRIBUTES).map(|place| Attribute::named(place).name()).collect();
    assert_eq!(
        names,
        vec![
            "accelerator_state",
            "bbs_id",
            "bbs_version",
            "capabilities",
            "device_id",
            "guid",
            "local_memory_size",
            "model",
            "num_error_registers",
            "num_interrupts",
            "num_mmio_spaces",
            "num_slots",
            "obj_type",
            "object_id",
            "pci_bus_nr",
            "pci_device_nr",
            "pci_function_nr",
            "pci_segment_nr",
            "socket_id",
            "vendor_id",
        ]
    );
    let mut sorted = names.clone();
    sorted.sort();
    assert_eq!(names, sorted);
}

#[test]
fn fields_and_assignments_hold_the_same_values() {
    let filter = Filter::new()
        .with_guid(Guid { bytes: [1; 16] })
        .with_bbs_version(1, 2, 3)
        .with_socket_id(4)
        .with_accelerator_object();
    let mut fields = filter.fields();
    let mut assignments = filter.assignments();
    assert_eq!(fields.len(), 4);
    fields.sort_by_key(|value| value.attribute().index());
    assignments.sort_by_key(|value| value.attribute().index());
    assert_eq!(fields, assignments);
    assert_eq!(filter.get(Attribute::Guid), Some(Value::Guid(Guid { bytes: [1; 16] })));
    assert_eq!(
        filter.get(Attribute::BbsVersion),
        Some(Value::BbsVersion(Version { major: 1, minor: 2, patch: 3 }))
    );
}
