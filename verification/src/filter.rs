//! Queries: which resources to look for.

use vstd::prelude::*;
use vstd::string::StringSliceAdditionalSpecFns;
use crate::attribute::{AcceleratorState, Attribute, Guid, ObjectType, Value, Version};

verus! {

/// The number of attributes that a query can constrain.
pub const ATTRIBUTES: usize = 20;

impl Attribute {
    /// The place of this attribute in the order in which a query is
    /// written into a property set. The kind of resource comes first: it
    /// decides which of the other attributes the runtime accepts.
    pub open spec fn spec_index(&self) -> usize {
        match self {
            Attribute::ObjectType => 0,
            Attribute::PciBusNr => 1,
            Attribute::Guid => 2,
            Attribute::BbsId => 3,
            Attribute::Model => 4,
            Attribute::PciDeviceNr => 5,
            Attribute::NumMmioSpaces => 6,
            Attribute::PciSegmentNr => 7,
            Attribute::DeviceId => 8,
            Attribute::PciFunctionNr => 9,
            Attribute::NumSlots => 10,
            Attribute::ObjectId => 11,
            Attribute::SocketId => 12,
            Attribute::VendorId => 13,
            Attribute::NumErrorRegisters => 14,
            Attribute::BbsVersion => 15,
            Attribute::Capabilities => 16,
            Attribute::NumInterrupts => 17,
            Attribute::LocalMemorySize => 18,
            Attribute::AcceleratorState => 19,
        }
    }

    /// The place of this attribute in the order of writing.
    #[verifier::when_used_as_spec(spec_index)]
    pub fn index(&self) -> (index: usize)
        ensures
            index == self.spec_index(),
            index < ATTRIBUTES,
            Attribute::spec_at(index as int) == *self,
    {
        match self {
            Attribute::ObjectType => 0,
            Attribute::PciBusNr => 1,
            Attribute::Guid => 2,
            Attribute::BbsId => 3,
            Attribute::Model => 4,
            Attribute::PciDeviceNr => 5,
            Attribute::NumMmioSpaces => 6,
            Attribute::PciSegmentNr => 7,
            Attribute::DeviceId => 8,
            Attribute::PciFunctionNr => 9,
            Attribute::NumSlots => 10,
            Attribute::ObjectId => 11,
            Attribute::SocketId => 12,
            Attribute::VendorId => 13,
            Attribute::NumErrorRegisters => 14,
            Attribute::BbsVersion => 15,
            Attribute::Capabilities => 16,
            Attribute::NumInterrupts => 17,
            Attribute::LocalMemorySize => 18,
            Attribute::AcceleratorState => 19,
        }
    }

    /// The attribute at place `index` of the order of writing. Beyond the
    /// last place it is the last attribute.
    pub open spec fn spec_at(index: int) -> Attribute {
        if index == 0 {
            Attribute::ObjectType
        } else if index == 1 {
            Attribute::PciBusNr
        } else if index == 2 {
            Attribute::Guid
        } else if index == 3 {
            Attribute::BbsId
        } else if index == 4 {
            Attribute::Model
        } else if index == 5 {
            Attribute::PciDeviceNr
        } else if index == 6 {
            Attribute::NumMmioSpaces
        } else if index == 7 {
            Attribute::PciSegmentNr
        } else if index == 8 {
            Attribute::DeviceId
        } else if index == 9 {
            Attribute::PciFunctionNr
        } else if index == 10 {
            Attribute::NumSlots
        } else if index == 11 {
            Attribute::ObjectId
        } else if index == 12 {
            Attribute::SocketId
        } else if index == 13 {
            Attribute::VendorId
        } else if index == 14 {
            Attribute::NumErrorRegisters
        } else if index == 15 {
            Attribute::BbsVersion
        } else if index == 16 {
            Attribute::Capabilities
        } else if index == 17 {
            Attribute::NumInterrupts
        } else if index == 18 {
            Attribute::LocalMemorySize
        } else {
            Attribute::AcceleratorState
        }
    }

    /// The attribute at place `index` of the order of writing.
    pub fn at(index: usize) -> (attribute: Attribute)
        requires
            index < ATTRIBUTES,
        ensures
            attribute == Attribute::spec_at(index as int),
            attribute.spec_index() == index,
    {
        if index == 0 {
            Attribute::ObjectType
        } else if index == 1 {
            Attribute::PciBusNr
        } else if index == 2 {
            Attribute::Guid
        } else if index == 3 {
            Attribute::BbsId
        } else if index == 4 {
            Attribute::Model
        } else if index == 5 {
            Attribute::PciDeviceNr
        } else if index == 6 {
            Attribute::NumMmioSpaces
        } else if index == 7 {
            Attribute::PciSegmentNr
        } else if index == 8 {
            Attribute::DeviceId
        } else if index == 9 {
            Attribute::PciFunctionNr
        } else if index == 10 {
            Attribute::NumSlots
        } else if index == 11 {
            Attribute::ObjectId
        } else if index == 12 {
            Attribute::SocketId
        } else if index == 13 {
            Attribute::VendorId
        } else if index == 14 {
            Attribute::NumErrorRegisters
        } else if index == 15 {
            Attribute::BbsVersion
        } else if index == 16 {
            Attribute::Capabilities
        } else if index == 17 {
            Attribute::NumInterrupts
        } else if index == 18 {
            Attribute::LocalMemorySize
        } else {
            Attribute::AcceleratorState
        }
    }
}


impl Attribute {
    /// The name of the field that a query has for this attribute.
    pub open spec fn spec_name(&self) -> Seq<char> {
        match self {
            Attribute::ObjectType => "obj_type"@,
            Attribute::PciBusNr => "pci_bus_nr"@,
            Attribute::Guid => "guid"@,
            Attribute::BbsId => "bbs_id"@,
            Attribute::Model => "model"@,
            Attribute::PciDeviceNr => "pci_device_nr"@,
            Attribute::NumMmioSpaces => "num_mmio_spaces"@,
            Attribute::PciSegmentNr => "pci_segment_nr"@,
            Attribute::DeviceId => "device_id"@,
            Attribute::PciFunctionNr => "pci_function_nr"@,
            Attribute::NumSlots => "num_slots"@,
            Attribute::ObjectId => "object_id"@,
            Attribute::SocketId => "socket_id"@,
            Attribute::VendorId => "vendor_id"@,
            Attribute::NumErrorRegisters => "num_error_registers"@,
            Attribute::BbsVersion => "bbs_version"@,
            Attribute::Capabilities => "capabilities"@,
            Attribute::NumInterrupts => "num_interrupts"@,
            Attribute::LocalMemorySize => "local_memory_size"@,
            Attribute::AcceleratorState => "accelerator_state"@,
        }
    }

    /// The name of the field that a query has for this attribute.
    pub fn name(&self) -> (name: &'static str)
        ensures
            name@ == self.spec_name(),
    {
        match self {
            Attribute::ObjectType => "obj_type",
            Attribute::PciBusNr => "pci_bus_nr",
            Attribute::Guid => "guid",
            Attribute::BbsId => "bbs_id",
            Attribute::Model => "model",
            Attribute::PciDeviceNr => "pci_device_nr",
            Attribute::NumMmioSpaces => "num_mmio_spaces",
            Attribute::PciSegmentNr => "pci_segment_nr",
            Attribute::DeviceId => "device_id",
            Attribute::PciFunctionNr => "pci_function_nr",
            Attribute::NumSlots => "num_slots",
            Attribute::ObjectId => "object_id",
            Attribute::SocketId => "socket_id",
            Attribute::VendorId => "vendor_id",
            Attribute::NumErrorRegisters => "num_error_registers",
            Attribute::BbsVersion => "bbs_version",
            Attribute::Capabilities => "capabilities",
            Attribute::NumInterrupts => "num_interrupts",
            Attribute::LocalMemorySize => "local_memory_size",
            Attribute::AcceleratorState => "accelerator_state",
        }
    }

    /// The attribute at place `index` when the attributes stand in the
    /// order of their names. Beyond the last place it is the last
    /// attribute.
    pub open spec fn spec_named(index: int) -> Attribute {
        if index == 0 {
            Attribute::AcceleratorState
        } else if index == 1 {
            Attribute::BbsId
        } else if index == 2 {
            Attribute::BbsVersion
        } else if index == 3 {
            Attribute::Capabilities
        } else if index == 4 {
            Attribute::DeviceId
        } else if index == 5 {
            Attribute::Guid
        } else if index == 6 {
            Attribute::LocalMemorySize
        } else if index == 7 {
            Attribute::Model
        } else if index == 8 {
            Attribute::NumErrorRegisters
        } else if index == 9 {
            Attribute::NumInterrupts
        } else if index == 10 {
            Attribute::NumMmioSpaces
        } else if index == 11 {
            Attribute::NumSlots
        } else if index == 12 {
            Attribute::ObjectType
        } else if index == 13 {
            Attribute::ObjectId
        } else if index == 14 {
            Attribute::PciBusNr
        } else if index == 15 {
            Attribute::PciDeviceNr
        } else if index == 16 {
            Attribute::PciFunctionNr
        } else if index == 17 {
            Attribute::PciSegmentNr
        } else if index == 18 {
            Attribute::SocketId
        } else {
            Attribute::VendorId
        }
    }

    /// The attribute at place `index` when the attributes stand in the
    /// order of their names.
    pub fn named(index: usize) -> (attribute: Attribute)
        requires
            index < ATTRIBUTES,
        ensures
            attribute == Attribute::spec_named(index as int),
    {
        if index == 0 {
            Attribute::AcceleratorState
        } else if index == 1 {
            Attribute::BbsId
        } else if index == 2 {
            Attribute::BbsVersion
        } else if index == 3 {
            Attribute::Capabilities
        } else if index == 4 {
            Attribute::DeviceId
        } else if index == 5 {
            Attribute::Guid
        } else if index == 6 {
            Attribute::LocalMemorySize
        } else if index == 7 {
            Attribute::Model
        } else if index == 8 {
            Attribute::NumErrorRegisters
        } else if index == 9 {
            Attribute::NumInterrupts
        } else if index == 10 {
            Attribute::NumMmioSpaces
        } else if index == 11 {
            Attribute::NumSlots
        } else if index == 12 {
            Attribute::ObjectType
        } else if index == 13 {
            Attribute::ObjectId
        } else if index == 14 {
            Attribute::PciBusNr
        } else if index == 15 {
            Attribute::PciDeviceNr
        } else if index == 16 {
            Attribute::PciFunctionNr
        } else if index == 17 {
            Attribute::PciSegmentNr
        } else if index == 18 {
            Attribute::SocketId
        } else {
            Attribute::VendorId
        }
    }
}

/// Whether `text` can be handed to the runtime as a string: it holds no
/// zero byte.
pub open spec fn is_native_text(text: &str) -> bool {
    forall|i: int| 0 <= i < text.spec_bytes().len() ==> text.spec_bytes()[i] != 0
}

/// A description of the resources to look for: for each attribute either a
/// value that a resource must have, or nothing. A field once set stays set.
#[derive(Clone, Debug, PartialEq)]
pub struct Filter {
    pub accelerator_state: Option<AcceleratorState>,
    pub bbs_id: Option<u64>,
    pub bbs_version: Option<Version>,
    pub capabilities: Option<u64>,
    pub device_id: Option<u16>,
    pub guid: Option<Guid>,
    pub local_memory_size: Option<u64>,
    pub model: Option<String>,
    pub num_error_registers: Option<u32>,
    pub num_interrupts: Option<u32>,
    pub num_mmio_spaces: Option<u32>,
    pub num_slots: Option<u32>,
    pub obj_type: Option<ObjectType>,
    pub object_id: Option<u64>,
    pub pci_bus_nr: Option<u8>,
    pub pci_device_nr: Option<u8>,
    pub pci_function_nr: Option<u8>,
    pub pci_segment_nr: Option<u16>,
    pub socket_id: Option<u8>,
    pub vendor_id: Option<u16>,
}

impl Filter {
    /// The query that constrains nothing.
    pub open spec fn spec_new() -> Filter {
        Filter {
            accelerator_state: None,
            bbs_id: None,
            bbs_version: None,
            capabilities: None,
            device_id: None,
            guid: None,
            local_memory_size: None,
            model: None,
            num_error_registers: None,
            num_interrupts: None,
            num_mmio_spaces: None,
            num_slots: None,
            obj_type: None,
            object_id: None,
            pci_bus_nr: None,
            pci_device_nr: None,
            pci_function_nr: None,
            pci_segment_nr: None,
            socket_id: None,
            vendor_id: None,
        }
    }

    /// The query that constrains nothing.
    pub fn new() -> (filter: Filter)
        ensures
            filter == Filter::spec_new(),
    {
        Filter {
            accelerator_state: None,
            bbs_id: None,
            bbs_version: None,
            capabilities: None,
            device_id: None,
            guid: None,
            local_memory_size: None,
            model: None,
            num_error_registers: None,
            num_interrupts: None,
            num_mmio_spaces: None,
            num_slots: None,
            obj_type: None,
            object_id: None,
            pci_bus_nr: None,
            pci_device_nr: None,
            pci_function_nr: None,
            pci_segment_nr: None,
            socket_id: None,
            vendor_id: None,
        }
    }

    /// What the query asks of `attribute`, if anything.
    pub open spec fn spec_get(&self, attribute: Attribute) -> Option<Value> {
        match attribute {
            Attribute::ObjectType => match self.obj_type {
                Some(value) => Some(Value::ObjectType(value)),
                None => None,
            },
            Attribute::PciBusNr => match self.pci_bus_nr {
                Some(value) => Some(Value::PciBusNr(value)),
                None => None,
            },
            Attribute::Guid => match self.guid {
                Some(value) => Some(Value::Guid(value)),
                None => None,
            },
            Attribute::BbsId => match self.bbs_id {
                Some(value) => Some(Value::BbsId(value)),
                None => None,
            },
            Attribute::Model => match self.model {
                Some(value) => Some(Value::Model(value)),
                None => None,
            },
            Attribute::PciDeviceNr => match self.pci_device_nr {
                Some(value) => Some(Value::PciDeviceNr(value)),
                None => None,
            },
            Attribute::NumMmioSpaces => match self.num_mmio_spaces {
                Some(value) => Some(Value::NumMmioSpaces(value)),
                None => None,
            },
            Attribute::PciSegmentNr => match self.pci_segment_nr {
                Some(value) => Some(Value::PciSegmentNr(value)),
                None => None,
            },
            Attribute::DeviceId => match self.device_id {
                Some(value) => Some(Value::DeviceId(value)),
                None => None,
            },
            Attribute::PciFunctionNr => match self.pci_function_nr {
                Some(value) => Some(Value::PciFunctionNr(value)),
                None => None,
            },
            Attribute::NumSlots => match self.num_slots {
                Some(value) => Some(Value::NumSlots(value)),
                None => None,
            },
            Attribute::ObjectId => match self.object_id {
                Some(value) => Some(Value::ObjectId(value)),
                None => None,
            },
            Attribute::SocketId => match self.socket_id {
                Some(value) => Some(Value::SocketId(value)),
                None => None,
            },
            Attribute::VendorId => match self.vendor_id {
                Some(value) => Some(Value::VendorId(value)),
                None => None,
            },
            Attribute::NumErrorRegisters => match self.num_error_registers {
                Some(value) => Some(Value::NumErrorRegisters(value)),
                None => None,
            },
            Attribute::BbsVersion => match self.bbs_version {
                Some(value) => Some(Value::BbsVersion(value)),
                None => None,
            },
            Attribute::Capabilities => match self.capabilities {
                Some(value) => Some(Value::Capabilities(value)),
                None => None,
            },
            Attribute::NumInterrupts => match self.num_interrupts {
                Some(value) => Some(Value::NumInterrupts(value)),
                None => None,
            },
            Attribute::LocalMemorySize => match self.local_memory_size {
                Some(value) => Some(Value::LocalMemorySize(value)),
                None => None,
            },
            Attribute::AcceleratorState => match self.accelerator_state {
                Some(value) => Some(Value::AcceleratorState(value)),
                None => None,
            },
        }
    }

    /// What the query asks of `attribute`, if anything.
    pub fn get(&self, attribute: Attribute) -> (value: Option<Value>)
        ensures
            value == self.spec_get(attribute),
    {
        match attribute {
            Attribute::ObjectType => match &self.obj_type {
                Some(value) => Some(Value::ObjectType(*value)),
                None => None,
            },
            Attribute::PciBusNr => match &self.pci_bus_nr {
                Some(value) => Some(Value::PciBusNr(*value)),
                None => None,
            },
            Attribute::Guid => match &self.guid {
                Some(value) => Some(Value::Guid(*value)),
                None => None,
            },
            Attribute::BbsId => match &self.bbs_id {
                Some(value) => Some(Value::BbsId(*value)),
                None => None,
            },
            Attribute::Model => match &self.model {
                Some(value) => Some(Value::Model(value.clone())),
                None => None,
            },
            Attribute::PciDeviceNr => match &self.pci_device_nr {
                Some(value) => Some(Value::PciDeviceNr(*value)),
                None => None,
            },
            Attribute::NumMmioSpaces => match &self.num_mmio_spaces {
                Some(value) => Some(Value::NumMmioSpaces(*value)),
                None => None,
            },
            Attribute::PciSegmentNr => match &self.pci_segment_nr {
                Some(value) => Some(Value::PciSegmentNr(*value)),
                None => None,
            },
            Attribute::DeviceId => match &self.device_id {
                Some(value) => Some(Value::DeviceId(*value)),
                None => None,
            },
            Attribute::PciFunctionNr => match &self.pci_function_nr {
                Some(value) => Some(Value::PciFunctionNr(*value)),
                None => None,
            },
            Attribute::NumSlots => match &self.num_slots {
                Some(value) => Some(Value::NumSlots(*value)),
                None => None,
            },
            Attribute::ObjectId => match &self.object_id {
                Some(value) => Some(Value::ObjectId(*value)),
                None => None,
            },
            Attribute::SocketId => match &self.socket_id {
                Some(value) => Some(Value::SocketId(*value)),
                None => None,
            },
            Attribute::VendorId => match &self.vendor_id {
                Some(value) => Some(Value::VendorId(*value)),
                None => None,
            },
            Attribute::NumErrorRegisters => match &self.num_error_registers {
                Some(value) => Some(Value::NumErrorRegisters(*value)),
                None => None,
            },
            Attribute::BbsVersion => match &self.bbs_version {
                Some(value) => Some(Value::BbsVersion(*value)),
                None => None,
            },
            Attribute::Capabilities => match &self.capabilities {
                Some(value) => Some(Value::Capabilities(*value)),
                None => None,
            },
            Attribute::NumInterrupts => match &self.num_interrupts {
                Some(value) => Some(Value::NumInterrupts(*value)),
                None => None,
            },
            Attribute::LocalMemorySize => match &self.local_memory_size {
                Some(value) => Some(Value::LocalMemorySize(*value)),
                None => None,
            },
            Attribute::AcceleratorState => match &self.accelerator_state {
                Some(value) => Some(Value::AcceleratorState(*value)),
                None => None,
            },
        }
    }

    /// Asks for accelerators that somebody has claimed.
    pub fn with_accelerator_assigned(self) -> (filter: Filter)
        ensures
            filter == (Filter { accelerator_state: Some(AcceleratorState::Assigned), ..self }),
    {
        Filter { accelerator_state: Some(AcceleratorState::Assigned), ..self }
    }

    /// Asks for accelerators that nobody has claimed.
    pub fn with_accelerator_unassigned(self) -> (filter: Filter)
        ensures
            filter == (Filter { accelerator_state: Some(AcceleratorState::Unassigned), ..self }),
    {
        Filter { accelerator_state: Some(AcceleratorState::Unassigned), ..self }
    }

    /// Asks for this board support identifier.
    pub fn with_bbs_id(self, bbs_id: u64) -> (filter: Filter)
        ensures
            filter == (Filter { bbs_id: Some(bbs_id), ..self }),
    {
        Filter { bbs_id: Some(bbs_id), ..self }
    }

    /// Asks for this board support version.
    pub fn with_bbs_version(
        self,
        bbs_major_version: u8,
        bbs_minor_version: u8,
        bbs_patch_version: u16,
    ) -> (filter: Filter)
        ensures
            filter == (Filter {
                bbs_version: Some(
                    Version {
                        major: bbs_major_version,
                        minor: bbs_minor_version,
                        patch: bbs_patch_version,
                    },
                ),
                ..self
            }),
    {
        Filter {
            bbs_version: Some(
                Version {
                    major: bbs_major_version,
                    minor: bbs_minor_version,
                    patch: bbs_patch_version,
                },
            ),
            ..self
        }
    }

    /// Asks for these capability bits.
    pub fn with_capabilities(self, capabilities: u64) -> (filter: Filter)
        ensures
            filter == (Filter { capabilities: Some(capabilities), ..self }),
    {
        Filter { capabilities: Some(capabilities), ..self }
    }

    /// Asks for this device identifier.
    pub fn with_device_id(self, device_id: u16) -> (filter: Filter)
        ensures
            filter == (Filter { device_id: Some(device_id), ..self }),
    {
        Filter { device_id: Some(device_id), ..self }
    }

    /// Asks for this identifier of what is loaded.
    pub fn with_guid(self, guid: Guid) -> (filter: Filter)
        ensures
            filter == (Filter { guid: Some(guid), ..self }),
    {
        Filter { guid: Some(guid), ..self }
    }

    /// Asks for this size of the local memory.
    pub fn with_local_memory_size(self, local_memory_size: u64) -> (filter: Filter)
        ensures
            filter == (Filter { local_memory_size: Some(local_memory_size), ..self }),
    {
        Filter { local_memory_size: Some(local_memory_size), ..self }
    }

    /// Asks for this model name. The name goes to the runtime as a native
    /// string, so it may hold no zero byte.
    pub fn with_model(self, model: &str) -> (filter: Filter)
        requires
            is_native_text(model),
        ensures
            filter.model matches Some(name) && name@ == model@,
            filter == (Filter { model: filter.model, ..self }),
    {
        Filter { model: Some(model.to_owned()), ..self }
    }

    /// Whether `with_model` takes `model`.
    pub fn accepts_model(model: &str) -> (accepted: bool)
        ensures
            accepted == is_native_text(model),
    {
        let bytes = model.as_bytes();
        let mut i: usize = 0;
        while i < bytes.len()
            invariant
                bytes@ == model.spec_bytes(),
                i <= bytes.len(),
                forall|j: int| 0 <= j < i ==> bytes@[j] != 0,
            decreases bytes.len() - i,
        {
            if bytes[i] == 0 {
                return false;
            }
            i += 1;
        }
        true
    }

    /// Asks for this number of error registers.
    pub fn with_num_error_registers(self, num_error_registers: u32) -> (filter: Filter)
        ensures
            filter == (Filter { num_error_registers: Some(num_error_registers), ..self }),
    {
        Filter { num_error_registers: Some(num_error_registers), ..self }
    }

    /// Asks for this number of interrupts.
    pub fn with_num_interrupts(self, num_interrupts: u32) -> (filter: Filter)
        ensures
            filter == (Filter { num_interrupts: Some(num_interrupts), ..self }),
    {
        Filter { num_interrupts: Some(num_interrupts), ..self }
    }

    /// Asks for this number of MMIO spaces.
    pub fn with_num_mmio_spaces(self, num_mmio_spaces: u32) -> (filter: Filter)
        ensures
            filter == (Filter { num_mmio_spaces: Some(num_mmio_spaces), ..self }),
    {
        Filter { num_mmio_spaces: Some(num_mmio_spaces), ..self }
    }

    /// Asks for this number of slots.
    pub fn with_num_slots(self, num_slots: u32) -> (filter: Filter)
        ensures
            filter == (Filter { num_slots: Some(num_slots), ..self }),
    {
        Filter { num_slots: Some(num_slots), ..self }
    }

    /// Asks for accelerators.
    pub fn with_accelerator_object(self) -> (filter: Filter)
        ensures
            filter == (Filter { obj_type: Some(ObjectType::Accelerator), ..self }),
    {
        Filter { obj_type: Some(ObjectType::Accelerator), ..self }
    }

    /// Asks for devices.
    pub fn with_device_object(self) -> (filter: Filter)
        ensures
            filter == (Filter { obj_type: Some(ObjectType::Device), ..self }),
    {
        Filter { obj_type: Some(ObjectType::Device), ..self }
    }

    /// Asks for this object identifier.
    pub fn with_object_id(self, object_id: u64) -> (filter: Filter)
        ensures
            filter == (Filter { object_id: Some(object_id), ..self }),
    {
        Filter { object_id: Some(object_id), ..self }
    }

    /// Asks for this PCI bus number.
    pub fn with_pci_bus_nr(self, pci_bus_nr: u8) -> (filter: Filter)
        ensures
            filter == (Filter { pci_bus_nr: Some(pci_bus_nr), ..self }),
    {
        Filter { pci_bus_nr: Some(pci_bus_nr), ..self }
    }

    /// Asks for this PCI device number.
    pub fn with_pci_device_nr(self, pci_device_nr: u8) -> (filter: Filter)
        ensures
            filter == (Filter { pci_device_nr: Some(pci_device_nr), ..self }),
    {
        Filter { pci_device_nr: Some(pci_device_nr), ..self }
    }

    /// Asks for this PCI function number.
    pub fn with_pci_function_nr(self, pci_function_nr: u8) -> (filter: Filter)
        ensures
            filter == (Filter { pci_function_nr: Some(pci_function_nr), ..self }),
    {
        Filter { pci_function_nr: Some(pci_function_nr), ..self }
    }

    /// Asks for this PCI segment number.
    pub fn with_pci_segment_nr(self, pci_segment_nr: u16) -> (filter: Filter)
        ensures
            filter == (Filter { pci_segment_nr: Some(pci_segment_nr), ..self }),
    {
        Filter { pci_segment_nr: Some(pci_segment_nr), ..self }
    }

    /// Asks for this socket identifier.
    pub fn with_socket_id(self, socket_id: u8) -> (filter: Filter)
        ensures
            filter == (Filter { socket_id: Some(socket_id), ..self }),
    {
        Filter { socket_id: Some(socket_id), ..self }
    }

    /// Asks for this vendor identifier.
    pub fn with_vendor_id(self, vendor_id: u16) -> (filter: Filter)
        ensures
            filter == (Filter { vendor_id: Some(vendor_id), ..self }),
    {
        Filter { vendor_id: Some(vendor_id), ..self }
    }

    /// The first place at or after `from` in the order of writing whose
    /// attribute the query constrains, or `ATTRIBUTES` if there is none.
    pub open spec fn spec_next_present(&self, from: int) -> int
        decreases ATTRIBUTES - from,
    {
        if from >= ATTRIBUTES {
            ATTRIBUTES as int
        } else if self.spec_get(Attribute::spec_at(from)) is Some {
            from
        } else {
            self.spec_next_present(from + 1)
        }
    }

    /// The first place at or after `from` in the order of writing whose
    /// attribute the query constrains, or `ATTRIBUTES` if there is none.
    pub fn next_present(&self, from: usize) -> (place: usize)
        ensures
            place == self.spec_next_present(from as int),
            from <= place || place == ATTRIBUTES,
            place <= ATTRIBUTES,
            place < ATTRIBUTES ==> self.spec_get(Attribute::spec_at(place as int)) is Some,
    {
        let mut place: usize = from;
        while place < ATTRIBUTES
            invariant
                from <= place,
                self.spec_next_present(place as int) == self.spec_next_present(from as int),
            decreases ATTRIBUTES - place,
        {
            if self.get(Attribute::at(place)).is_some() {
                return place;
            }
            place += 1;
        }
        ATTRIBUTES
    }

    /// The values that the query holds for the attributes from place
    /// `from` on, where the attributes stand in the order of their names.
    pub open spec fn spec_fields_from(&self, from: int) -> Seq<Value>
        decreases ATTRIBUTES - from,
    {
        if from >= ATTRIBUTES {
            Seq::empty()
        } else {
            match self.spec_get(Attribute::spec_named(from)) {
                Some(value) => seq![value] + self.spec_fields_from(from + 1),
                None => self.spec_fields_from(from + 1),
            }
        }
    }

    /// What `fields` returns.
    pub open spec fn spec_fields(&self) -> Seq<Value> {
        self.spec_fields_from(0)
    }

    /// What there is to show of the query: the values that it holds, one
    /// for each field that is set and nothing for the others, in the order
    /// of the fields' names.
    pub fn fields(&self) -> (values: Vec<Value>)
        ensures
            values@ == self.spec_fields(),
    {
        let mut values: Vec<Value> = Vec::new();
        let mut place: usize = 0;
        while place < ATTRIBUTES
            invariant
                place <= ATTRIBUTES,
                values@ + self.spec_fields_from(place as int) == self.spec_fields(),
            decreases ATTRIBUTES - place,
        {
            match self.get(Attribute::named(place)) {
                Some(value) => {
                    assert(self.spec_fields_from(place as int) == seq![value]
                        + self.spec_fields_from(place + 1));
                    assert((values@ + seq![value]) + self.spec_fields_from(place + 1)
                        == values@ + (seq![value] + self.spec_fields_from(place + 1)));
                    values.push(value);
                },
                None => {},
            }
            place += 1;
        }
        assert(self.spec_fields_from(ATTRIBUTES as int) == Seq::<Value>::empty());
        assert(values@ + Seq::<Value>::empty() == values@);
        values
    }

    /// The values that the query holds from place `from` on, in the order
    /// of writing.
    pub open spec fn spec_assignments_from(&self, from: int) -> Seq<Value>
        decreases ATTRIBUTES - from,
    {
        if from >= ATTRIBUTES {
            Seq::empty()
        } else {
            match self.spec_get(Attribute::spec_at(from)) {
                Some(value) => seq![value] + self.spec_assignments_from(from + 1),
                None => self.spec_assignments_from(from + 1),
            }
        }
    }

    /// The values that the query holds, in the order in which they are
    /// written into a property set.
    pub open spec fn spec_assignments(&self) -> Seq<Value> {
        self.spec_assignments_from(0)
    }

    /// The values that the query holds, in the order in which they are
    /// written into a property set: one for each attribute that is set, and
    /// nothing for the others.
    pub fn assignments(&self) -> (values: Vec<Value>)
        ensures
            values@ == self.spec_assignments(),
    {
        let mut values: Vec<Value> = Vec::new();
        let mut place: usize = 0;
        while place < ATTRIBUTES
            invariant
                place <= ATTRIBUTES,
                values@ + self.spec_assignments_from(place as int) == self.spec_assignments(),
            decreases ATTRIBUTES - place,
        {
            match self.get(Attribute::at(place)) {
                Some(value) => {
                    assert(self.spec_assignments_from(place as int) == seq![value]
                        + self.spec_assignments_from(place + 1));
                    assert((values@ + seq![value]) + self.spec_assignments_from(place + 1)
                        == values@ + (seq![value] + self.spec_assignments_from(place + 1)));
                    values.push(value);
                },
                None => {},
            }
            place += 1;
        }
        assert(self.spec_assignments_from(ATTRIBUTES as int) == Seq::<Value>::empty());
        assert(values@ + Seq::<Value>::empty() == values@);
        values
    }
}

/// What a property set holds after the writes `values`, as far as the
/// writes decide it: for each attribute that was written, the value of the
/// last write.
pub open spec fn written(values: Seq<Value>) -> Map<Attribute, Value>
    decreases values.len(),
{
    if values.len() == 0 {
        Map::empty()
    } else {
        let later = written(values.drop_first());
        if later.dom().contains(values[0].spec_attribute()) {
            later
        } else {
            later.insert(values[0].spec_attribute(), values[0])
        }
    }
}

impl Filter {
    /// The query as a map: each attribute that it constrains, with the
    /// value that it asks for.
    pub open spec fn spec_record(&self) -> Map<Attribute, Value> {
        Map::new(
            |attribute: Attribute| self.spec_get(attribute) is Some,
            |attribute: Attribute| self.spec_get(attribute)->0,
        )
    }

    /// The part of `spec_record` from place `from` of the order of writing
    /// on.
    pub open spec fn spec_record_from(&self, from: int) -> Map<Attribute, Value> {
        Map::new(
            |attribute: Attribute|
                attribute.spec_index() >= from && self.spec_get(attribute) is Some,
            |attribute: Attribute| self.spec_get(attribute)->0,
        )
    }
}

/// Every attribute has a place of its own in the order of writing.
pub proof fn lemma_places(attribute: Attribute)
    ensures
        attribute.spec_index() < ATTRIBUTES,
        Attribute::spec_at(attribute.spec_index() as int) == attribute,
{
}

/// Every place of the order of writing holds the attribute of that place.
pub proof fn lemma_attribute_at(place: int)
    requires
        0 <= place < ATTRIBUTES,
    ensures
        Attribute::spec_at(place).spec_index() == place,
{
}

/// What a query holds for an attribute is a value of that attribute.
pub proof fn lemma_get_is_of_attribute(filter: Filter, attribute: Attribute)
    ensures
        filter.spec_get(attribute) matches Some(value) ==> value.spec_attribute() == attribute,
{
}

/// From any place on, writing the values that a query holds leaves in the
/// property set what the query asks of the attributes from that place on.
pub proof fn lemma_written_from(filter: Filter, from: int)
    requires
        0 <= from,
    ensures
        written(filter.spec_assignments_from(from)) == filter.spec_record_from(from),
    decreases ATTRIBUTES - from,
{
    let values = filter.spec_assignments_from(from);
    if from >= ATTRIBUTES {
        assert forall|attribute: Attribute|
            !filter.spec_record_from(from).dom().contains(attribute) by {
            lemma_places(attribute);
        }
        assert(written(values) =~= filter.spec_record_from(from));
    } else {
        lemma_written_from(filter, from + 1);
        let here = Attribute::spec_at(from);
        lemma_attribute_at(from);
        let later = filter.spec_assignments_from(from + 1);
        match filter.spec_get(here) {
            Some(value) => {
                lemma_get_is_of_attribute(filter, here);
                assert(values == seq![value] + later);
                assert(values.drop_first() =~= later);
                assert(values[0] == value);
                assert forall|attribute: Attribute|
                    filter.spec_record_from(from).dom().contains(attribute) <==> (attribute == here
                        || filter.spec_record_from(from + 1).dom().contains(attribute)) by {
                    lemma_places(attribute);
                }
                assert(written(values) =~= filter.spec_record_from(from));
            },
            None => {
                assert(values == later);
                assert forall|attribute: Attribute|
                    filter.spec_record_from(from).dom().contains(attribute)
                        <==> filter.spec_record_from(from + 1).dom().contains(attribute) by {
                    lemma_places(attribute);
                }
                assert(filter.spec_record_from(from) =~= filter.spec_record_from(from + 1));
            },
        }
    }
}

/// Writing a query into a property set and reading it back gives what was
/// set: after the writes of `assignments()`, the property set holds for
/// every attribute that the query constrains the value that the query asks
/// for, and the writes touch no other attribute.
pub proof fn lemma_round_trip(filter: Filter)
    ensures
        written(filter.spec_assignments()) == filter.spec_record(),
        forall|attribute: Attribute|
            filter.spec_get(attribute) is Some ==> written(filter.spec_assignments())[attribute]
                == filter.spec_get(attribute)->0,
        forall|attribute: Attribute|
            filter.spec_get(attribute) is None ==> !written(
                filter.spec_assignments(),
            ).dom().contains(attribute),
{
    lemma_written_from(filter, 0);
    assert(filter.spec_record_from(0) =~= filter.spec_record());
}

/// The kind of resource, where a query names one, is the first thing
/// written.
pub proof fn lemma_kind_is_written_first(filter: Filter)
    requires
        filter.obj_type is Some,
    ensures
        filter.spec_assignments().len() > 0,
        filter.spec_assignments()[0] == Value::ObjectType(filter.obj_type->0),
{
}

impl Default for Filter {
    fn default() -> (filter: Filter)
        ensures
            filter == Filter::spec_new(),
    {
        Filter::new()
    }
}

} // verus!
