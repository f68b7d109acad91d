//! The attributes that a property set holds, and their values.

use vstd::prelude::*;

verus! {

/// The kind of a resource: a whole device, or one accelerator on a device.
#[derive(Clone, Copy, Debug, PartialEq, Eq, Structural)]
pub enum ObjectType {
    Device,
    Accelerator,
}

/// Whether an accelerator is claimed by somebody.
#[derive(Clone, Copy, Debug, PartialEq, Eq, Structural)]
pub enum AcceleratorState {
    Assigned,
    Unassigned,
}

impl AcceleratorState {
    /// The state of an accelerator that is assigned, or is not.
    pub open spec fn spec_of(assigned: bool) -> AcceleratorState {
        if assigned {
            AcceleratorState::Assigned
        } else {
            AcceleratorState::Unassigned
        }
    }

    /// The state of an accelerator that is assigned, or is not.
    #[verifier::when_used_as_spec(spec_of)]
    pub fn of(assigned: bool) -> (state: AcceleratorState)
        ensures
            state == AcceleratorState::spec_of(assigned),
    {
        if assigned {
            AcceleratorState::Assigned
        } else {
            AcceleratorState::Unassigned
        }
    }
}

/// Version of a device's board support.
#[derive(Clone, Copy, Debug, PartialEq, Eq, Structural)]
pub struct Version {
    pub major: u8,
    pub minor: u8,
    pub patch: u16,
}

/// A globally unique identifier, as its sixteen bytes.
#[derive(Clone, Copy, Debug, PartialEq, Eq)]
pub struct Guid {
    pub bytes: [u8; 16],
}

/// The attributes that the runtime knows of a resource.
#[derive(Clone, Copy, Debug, PartialEq, Eq, Structural)]
pub enum Attribute {
    ObjectType,
    PciBusNr,
    Guid,
    BbsId,
    Model,
    PciDeviceNr,
    NumMmioSpaces,
    PciSegmentNr,
    DeviceId,
    PciFunctionNr,
    NumSlots,
    ObjectId,
    SocketId,
    VendorId,
    NumErrorRegisters,
    BbsVersion,
    Capabilities,
    NumInterrupts,
    LocalMemorySize,
    AcceleratorState,
}

/// An attribute together with a value for it.
#[derive(Clone, Debug, PartialEq, Eq)]
pub enum Value {
    ObjectType(ObjectType),
    PciBusNr(u8),
    Guid(Guid),
    BbsId(u64),
    Model(String),
    PciDeviceNr(u8),
    NumMmioSpaces(u32),
    PciSegmentNr(u16),
    DeviceId(u16),
    PciFunctionNr(u8),
    NumSlots(u32),
    ObjectId(u64),
    SocketId(u8),
    VendorId(u16),
    NumErrorRegisters(u32),
    BbsVersion(Version),
    Capabilities(u64),
    NumInterrupts(u32),
    LocalMemorySize(u64),
    AcceleratorState(AcceleratorState),
}

impl Value {
    /// The model name as a value: the name that the runtime wrote, or `?`
    /// where what it wrote is no text.
    pub fn model(name: Option<String>) -> (value: Value)
        ensures
            value matches Value::Model(model) && match name {
                Some(name) => model == name,
                None => model@ == "?"@,
            },
    {
        match name {
            Some(name) => Value::Model(name),
            None => Value::Model("?".to_owned()),
        }
    }

    /// The attribute that this is a value of.
    pub open spec fn spec_attribute(&self) -> Attribute {
        match self {
            Value::ObjectType(_) => Attribute::ObjectType,
            Value::PciBusNr(_) => Attribute::PciBusNr,
            Value::Guid(_) => Attribute::Guid,
            Value::BbsId(_) => Attribute::BbsId,
            Value::Model(_) => Attribute::Model,
            Value::PciDeviceNr(_) => Attribute::PciDeviceNr,
            Value::NumMmioSpaces(_) => Attribute::NumMmioSpaces,
            Value::PciSegmentNr(_) => Attribute::PciSegmentNr,
            Value::DeviceId(_) => Attribute::DeviceId,
            Value::PciFunctionNr(_) => Attribute::PciFunctionNr,
            Value::NumSlots(_) => Attribute::NumSlots,
            Value::ObjectId(_) => Attribute::ObjectId,
            Value::SocketId(_) => Attribute::SocketId,
            Value::VendorId(_) => Attribute::VendorId,
            Value::NumErrorRegisters(_) => Attribute::NumErrorRegisters,
            Value::BbsVersion(_) => Attribute::BbsVersion,
            Value::Capabilities(_) => Attribute::Capabilities,
            Value::NumInterrupts(_) => Attribute::NumInterrupts,
            Value::LocalMemorySize(_) => Attribute::LocalMemorySize,
            Value::AcceleratorState(_) => Attribute::AcceleratorState,
        }
    }

    /// The attribute that this is a value of.
    #[verifier::when_used_as_spec(spec_attribute)]
    pub fn attribute(&self) -> (attribute: Attribute)
        ensures
            attribute == self.spec_attribute(),
    {
        match self {
            Value::ObjectType(_) => Attribute::ObjectType,
            Value::PciBusNr(_) => Attribute::PciBusNr,
            Value::Guid(_) => Attribute::Guid,
            Value::BbsId(_) => Attribute::BbsId,
            Value::Model(_) => Attribute::Model,
            Value::PciDeviceNr(_) => Attribute::PciDeviceNr,
            Value::NumMmioSpaces(_) => Attribute::NumMmioSpaces,
            Value::PciSegmentNr(_) => Attribute::PciSegmentNr,
            Value::DeviceId(_) => Attribute::DeviceId,
            Value::PciFunctionNr(_) => Attribute::PciFunctionNr,
            Value::NumSlots(_) => Attribute::NumSlots,
            Value::ObjectId(_) => Attribute::ObjectId,
            Value::SocketId(_) => Attribute::SocketId,
            Value::VendorId(_) => Attribute::VendorId,
            Value::NumErrorRegisters(_) => Attribute::NumErrorRegisters,
            Value::BbsVersion(_) => Attribute::BbsVersion,
            Value::Capabilities(_) => Attribute::Capabilities,
            Value::NumInterrupts(_) => Attribute::NumInterrupts,
            Value::LocalMemorySize(_) => Attribute::LocalMemorySize,
            Value::AcceleratorState(_) => Attribute::AcceleratorState,
        }
    }
}

} // verus!
