use fpga::accelerator::{Accelerator, AcceleratorInfo};
use fpga::attribute::{AcceleratorState, Attribute, Guid, ObjectType, Value, Version};
use fpga::device::{Device, DeviceInfo};
use fpga::errors::{Error, Status};
use fpga::native::{Call, Payload, Reply};
use fpga::properties::{AcceleratorProperties, DeviceProperties, Properties, ResourceProperties};
use fpga::resource::ResourceInfo;
use fpga::token::Token;

fn ok(value: Value) -> Reply {
    Reply { status: Status::Success, payload: Payload::Value(value) }
}

fn failed(status: Status) -> Reply {
    Reply { status, payload: Payload::Empty }
}

fn accelerator() -> Accelerator {
    Accelerator::new(Token::from_raw(40), Properties::from_raw(48))
}

fn device() -> Device {
    Device::new(Token::from_raw(56), Properties::from_raw(64))
}

#[test]
fn accelerator_reads_follow_the_attributes() {
    let attributes = AcceleratorInfo::attributes();
    assert_eq!(
        attributes,
        vec![
            Attribute::DeviceId,
            Attribute::Guid,
            Attribute::ObjectId,
            Attribute::PciBusNr,
            Attribute::PciDeviceNr,
            Attribute::PciFunctionNr,
            Attribute::PciSegmentNr,
            Attribute::SocketId,
            Attribute::VendorId,
            Attribute::AcceleratorState,
            Attribute::NumErrorRegisters,
            Attribute::NumInterrupts,
            Attribute::NumMmioSpaces,
        ]
    );
    assert_eq!(AcceleratorInfo::READS, 13);
    let reads = accelerator().info_reads();
    assert_eq!(reads.len(), 13);
    for (place, call) in reads.iter().enumerate() {
        assert_eq!(*call, Call::Read { properties: 48, attribute: attributes[place] });
    }
}

#[test]
fn device_reads_follow_the_attributes() {
    let attributes = DeviceInfo::attributes();
    assert_eq!(attributes[..9], ResourceInfo::attributes()[..]);
    assert_eq!(attributes[8], Attribute::VendorId);
    assert_eq!(
        attributes[9..],
        [
            Attribute::BbsId,
            Attribute::BbsVersion,
            Attribute::Capabilities,
            Attribute::LocalMemorySize,
            Attribute::Model,
            Attribute::NumSlots,
        ]
    );
    assert_eq!(DeviceInfo::READS, 15);
    assert_eq!(ResourceInfo::READS, 9);
    let reads = device().info_reads();
    for (place, call) in reads.iter().enumerate() {
        assert_eq!(*call, Call::Read { properties: 64, attribute: attributes[place] });
    }
}

#[test]
fn snapshot_holds_every_read_that_succeeded() {
    let guid = Guid { bytes: [7; 16] };
    let replies = vec![
        ok(Value::DeviceId(0x9c4)),
        ok(Value::Guid(guid)),
        ok(Value::ObjectId(77)),
        ok(Value::PciBusNr(1)),
        ok(Value::PciDeviceNr(2)),
        ok(Value::PciFunctionNr(3)),
        ok(Value::PciSegmentNr(4)),
        ok(Value::SocketId(5)),
        ok(Value::VendorId(0x8086)),
        ok(Value::AcceleratorState(AcceleratorState::Assigned)),
        ok(Value::NumErrorRegisters(6)),
        ok(Value::NumInterrupts(7)),
        ok(Value::NumMmioSpaces(8)),
    ];
    let info = accelerator().info(&replies);
    assert_eq!(
        info,
        AcceleratorInfo {
            resource: ResourceInfo {
                device_id: Some(0x9c4),
                guid: Some(guid),
                object_id: Some(77),
                pci_bus_nr: Some(1),
                pci_device_nr: Some(2),
                pci_function_nr: Some(3),
                pci_segment_nr: Some(4),
                socket_id: Some(5),
                vendor_id: Some(0x8086),
            },
            assigned: Some(true),
            num_error_registers: Some(6),
            num_interrupts: Some(7),
            num_mmio_spaces: Some(8),
        }
    );
}

#[test]
fn failed_reads_leave_only_their_own_fields_empty() {
    let replies = vec![
        ok(Value::DeviceId(1)),
        failed(Status::NotFound),
        ok(Value::ObjectId(3)),
        failed(Status::Exception),
        ok(Value::PciDeviceNr(5)),
        ok(Value::PciFunctionNr(6)),
        failed(Status::NoAccess),
        ok(Value::SocketId(8)),
        ok(Value::VendorId(15)),
        ok(Value::BbsId(9)),
        failed(Status::NotSupported),
        ok(Value::Capabilities(11)),
        ok(Value::LocalMemorySize(12)),
        failed(Status::NotFound),
        ok(Value::NumSlots(14)),
    ];
    let info = device().info(&replies);
    assert_eq!(
        info,
        DeviceInfo {
            resource: ResourceInfo {
                device_id: Some(1),
                guid: None,
                object_id: Some(3),
                pci_bus_nr: None,
                pci_device_nr: Some(5),
                pci_function_nr: Some(6),
                pci_segment_nr: None,
                socket_id: Some(8),
                vendor_id: Some(15),
            },
            bbs_id: Some(9),
            bbs_version: None,
            capabilities: Some(11),
            local_memory_size: Some(12),
            model: None,
            num_slots: Some(14),
        }
    );
    assert_eq!(
        info.fields(),
        vec![
            Value::DeviceId(1),
            Value::ObjectId(3),
            Value::PciDeviceNr(5),
            Value::PciFunctionNr(6),
            Value::SocketId(8),
            Value::VendorId(15),
            Value::BbsId(9),
            Value::Capabilities(11),
            Value::LocalMemorySize(12),
            Value::NumSlots(14),
        ]
    );
    assert_eq!(info.resource.fields().len(), 6);
}

#[test]
fn snapshot_of_nothing_but_failures_is_empty_not_an_error() {
    let replies: Vec<Reply> = (0..15).map(|_| failed(Status::Exception)).collect();
    let info = device().info(&replies);
    assert_eq!(info.resource, ResourceInfo::from_replies(&Vec::new(), 0));
    assert_eq!(info.bbs_id, None);
    assert_eq!(info.resource.vendor_id, None);
    assert!(info.fields().is_empty());
    assert_eq!(device().info(&Vec::new()), info);
    let info = accelerator().info(&replies[..3].to_vec());
    assert_eq!(info.assigned, None);
    assert_eq!(info.resource.device_id, None);
}

#[test]
fn value_of_another_attribute_leaves_the_field_empty() {
    // A vendor identifier where the device identifier was asked for.
    let replies = vec![ok(Value::VendorId(1))];
    assert_eq!(accelerator().info(&replies).resource.device_id, None);
}

#[test]
fn accessors_give_the_value_or_the_failure() {
    let accelerator = accelerator();
    assert_eq!(
        accelerator.read(Attribute::Guid),
        Call::Read { properties: 48, attribute: Attribute::Guid }
    );
    assert_eq!(accelerator.properties().raw(), 48);
    assert_eq!(accelerator.device_id(&ok(Value::DeviceId(3))), Ok(3));
    assert_eq!(
        accelerator.device_id(&failed(Status::NotFound)),
        Err(Error { status: Status::NotFound })
    );
    assert_eq!(
        accelerator.device_id(&ok(Value::VendorId(3))),
        Err(Error { status: Status::Exception })
    );
    assert_eq!(accelerator.pci_bus_nr(&ok(Value::PciBusNr(4))), Ok(4));
    assert_eq!(accelerator.pci_device_nr(&ok(Value::PciDeviceNr(5))), Ok(5));
    assert_eq!(accelerator.pci_function_nr(&ok(Value::PciFunctionNr(6))), Ok(6));
    assert_eq!(accelerator.pci_segment_nr(&ok(Value::PciSegmentNr(7))), Ok(7));
    assert_eq!(accelerator.socket_id(&ok(Value::SocketId(8))), Ok(8));
    assert_eq!(accelerator.object_id(&ok(Value::ObjectId(9))), Ok(9));
    let guid = Guid { bytes: [3; 16] };
    assert_eq!(accelerator.guid(&ok(Value::Guid(guid))), Ok(guid));
    assert_eq!(accelerator.num_error_registers(&ok(Value::NumErrorRegisters(1))), Ok(1));
    assert_eq!(accelerator.num_interrupts(&ok(Value::NumInterrupts(2))), Ok(2));
    assert_eq!(accelerator.num_mmio_spaces(&ok(Value::NumMmioSpaces(3))), Ok(3));

    let device = device();
    assert_eq!(device.bbs_id(&ok(Value::BbsId(1))), Ok(1));
    assert_eq!(
        device.bbs_version(&ok(Value::BbsVersion(Version { major: 1, minor: 0, patch: 9 }))),
        Ok(Version { major: 1, minor: 0, patch: 9 })
    );
    assert_eq!(device.capabilities(&ok(Value::Capabilities(2))), Ok(2));
    assert_eq!(device.local_memory_size(&ok(Value::LocalMemorySize(3))), Ok(3));
    assert_eq!(device.model(&ok(Value::Model(String::from("x")))), Ok(String::from("x")));
    assert_eq!(device.num_slots(&ok(Value::NumSlots(4))), Ok(4));
    assert_eq!(device.vendor_id(&ok(Value::VendorId(5))), Ok(5));
    assert_eq!(accelerator.vendor_id(&ok(Value::VendorId(0x8086))), Ok(0x8086));
    assert_eq!(
        device.vendor_id(&Reply {
            status: Status::Busy,
            payload: Payload::Value(Value::VendorId(5))
        }),
        Err(Error { status: Status::Busy })
    );
}

#[test]
fn assigned_and_unassigned_are_complements() {
    let accelerator = accelerator();
    let assigned = ok(Value::AcceleratorState(AcceleratorState::Assigned));
    let unassigned = ok(Value::AcceleratorState(AcceleratorState::Unassigned));
    assert_eq!(accelerator.is_assigned(&assigned), Ok(true));
    assert_eq!(accelerator.is_unassigned(&assigned), Ok(false));
    assert_eq!(accelerator.is_assigned(&unassigned), Ok(false));
    assert_eq!(accelerator.is_unassigned(&unassigned), Ok(true));
    let failure = failed(Status::NotFound);
    assert_eq!(accelerator.is_assigned(&failure), Err(Error { status: Status::NotFound }));
    assert_eq!(accelerator.is_unassigned(&failure), Err(Error { status: Status::NotFound }));
}

#[test]
fn reply_is_read_as_what_was_asked_for() {
    let reply = Reply { status: Status::Success, payload: Payload::Properties(8) };
    assert_eq!(reply.properties(), Ok(8));
    assert_eq!(reply.token(), Err(Error { status: Status::Exception }));
    assert_eq!(reply.total(), Err(Error { status: Status::Exception }));
    assert_eq!(reply.written(), Ok(()));
    let reply = Reply { status: Status::Success, payload: Payload::Token(0) };
    assert_eq!(reply.token(), Err(Error { status: Status::Exception }));
    let reply = Reply { status: Status::Success, payload: Payload::Token(16) };
    assert_eq!(reply.token(), Ok(16));
    let reply = Reply { status: Status::NoMemory, payload: Payload::Token(16) };
    assert_eq!(reply.token(), Err(Error { status: Status::NoMemory }));
    assert_eq!(reply.written(), Err(Error { status: Status::NoMemory }));
    assert_eq!(reply.error(), Error { status: Status::NoMemory });
    let reply = Reply {
        status: Status::Success,
        payload: Payload::Matches { tokens: vec![1, 2], total: 7 },
    };
    assert_eq!(reply.total(), Ok(7));
    assert_eq!(reply.tokens(), Ok(vec![1, 2]));
    let reply = ok(Value::ObjectType(ObjectType::Accelerator));
    assert_eq!(reply.object_type(), Ok(ObjectType::Accelerator));
    assert_eq!(
        reply.value(Attribute::DeviceId),
        Err(Error { status: Status::Exception })
    );
}

#[test]
fn accelerator_snapshot_holds_the_vendor() {
    let mut replies: Vec<Reply> = (0..13).map(|_| failed(Status::NotFound)).collect();
    replies[8] = ok(Value::VendorId(0x8086));
    replies[9] = ok(Value::AcceleratorState(AcceleratorState::Unassigned));
    let info = accelerator().info(&replies);
    assert_eq!(info.resource.vendor_id, Some(0x8086));
    assert_eq!(info.assigned, Some(false));
    assert_eq!(
        info.fields(),
        vec![
            Value::VendorId(0x8086),
            Value::AcceleratorState(AcceleratorState::Unassigned)
        ]
    );
}

#[test]
fn model_that_is_no_text_is_a_question_mark() {
    assert_eq!(Value::model(Some(String::from("pac"))), Value::Model(String::from("pac")));
    assert_eq!(Value::model(None), Value::Model(String::from("?")));
}
