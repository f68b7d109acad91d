//! Devices.

use vstd::multiset::Multiset;
use vstd::prelude::*;
use crate::attribute::{Attribute, Value, Version};
use crate::native::{Call, Release, Reply};
use crate::properties::{DeviceProperties, Properties, ResourceProperties};
use crate::resource::{field, reads, reply_at, show, shown, ResourceInfo};
use crate::token::Token;

verus! {

/// A whole device, with its token and its property set.
#[derive(Debug, PartialEq, Eq)]
pub struct Device {
    pub token: Token,
    pub properties: Properties,
}

impl Device {
    /// The device that owns `token` and `properties`.
    pub fn new(token: Token, properties: Properties) -> (device: Device)
        ensures
            device == (Device { token, properties }),
    {
        Device { token, properties }
    }

    /// The native objects that this device owns.
    pub open spec fn spec_holds(&self) -> Multiset<Release> {
        self.properties.spec_holds().add(self.token.spec_holds())
    }

    /// The calls that read what a snapshot holds, in the order of
    /// `DeviceInfo::attributes()`.
    pub fn info_reads(&self) -> (calls: Vec<Call>)
        ensures
            calls@ == reads(self.properties.spec_raw(), DeviceInfo::spec_attributes()),
    {
        let attributes = DeviceInfo::attributes();
        let mut calls: Vec<Call> = Vec::new();
        let mut place: usize = 0;
        while place < attributes.len()
            invariant
                place <= attributes.len(),
                attributes@ == DeviceInfo::spec_attributes(),
                calls@ == reads(self.properties.spec_raw(), attributes@.take(place as int)),
            decreases attributes.len() - place,
        {
            calls.push(self.properties.read(attributes[place]));
            place += 1;
            assert(calls@ =~= reads(self.properties.spec_raw(), attributes@.take(place as int)));
        }
        assert(attributes@.take(place as int) =~= attributes@);
        calls
    }

    /// A snapshot of the device: what the replies to `info_reads()` give.
    /// The snapshot never fails as a whole. A field holds a value exactly
    /// where the read of it succeeded, and is empty where it failed or where
    /// `replies` is too short to hold an answer.
    pub fn info(&self, replies: &Vec<Reply>) -> (info: DeviceInfo)
        ensures
            info == DeviceInfo::spec_from_replies(replies@),
    {
        DeviceInfo::from_replies(replies)
    }
}

impl ResourceProperties for Device {
    open spec fn spec_properties(&self) -> Properties {
        self.properties
    }

    fn properties(&self) -> (properties: &Properties) {
        &self.properties
    }
}

impl DeviceProperties for Device {
}

/// What could be read of a device. A field is empty where the read of
/// it failed.
#[derive(Clone, Debug, PartialEq, Eq)]
pub struct DeviceInfo {
    pub resource: ResourceInfo,
    pub bbs_id: Option<u64>,
    pub bbs_version: Option<Version>,
    pub capabilities: Option<u64>,
    pub local_memory_size: Option<u64>,
    pub model: Option<String>,
    pub num_slots: Option<u32>,
}

impl DeviceInfo {
    /// The number of attributes in this snapshot.
    pub const READS: usize = 15;

    /// The attribute that is read at place `place` of this snapshot: first
    /// those that every resource has, then those of a device alone.
    pub open spec fn spec_attribute(place: int) -> Attribute {
        if place < 9 {
            ResourceInfo::spec_attribute(place)
        } else if place == 9 {
            Attribute::BbsId
        } else if place == 10 {
            Attribute::BbsVersion
        } else if place == 11 {
            Attribute::Capabilities
        } else if place == 12 {
            Attribute::LocalMemorySize
        } else if place == 13 {
            Attribute::Model
        } else {
            Attribute::NumSlots
        }
    }

    /// The attributes of this snapshot, in the order in which they are
    /// read.
    pub open spec fn spec_attributes() -> Seq<Attribute> {
        Seq::new(15, |place: int| DeviceInfo::spec_attribute(place))
    }

    /// The attributes of this snapshot, in the order in which they are
    /// read.
    pub fn attributes() -> (attributes: Vec<Attribute>)
        ensures
            attributes@ == DeviceInfo::spec_attributes(),
    {
        let mut attributes = ResourceInfo::attributes();
        attributes.push(Attribute::BbsId);
        attributes.push(Attribute::BbsVersion);
        attributes.push(Attribute::Capabilities);
        attributes.push(Attribute::LocalMemorySize);
        attributes.push(Attribute::Model);
        attributes.push(Attribute::NumSlots);
        assert(attributes@ =~= DeviceInfo::spec_attributes());
        attributes
    }

    /// The snapshot that `replies` give: each field holds the value that
    /// the reply at its place carries, and is empty where that reply reports
    /// a failure or is missing.
    pub open spec fn spec_from_replies(replies: Seq<Reply>) -> DeviceInfo {
        DeviceInfo {
            resource: ResourceInfo::spec_from_replies(replies, 0),
            bbs_id: match reply_at(replies, 9) {
                Some(reply) => field(reply.spec_bbs_id()),
                None => None,
            },
            bbs_version: match reply_at(replies, 10) {
                Some(reply) => field(reply.spec_bbs_version()),
                None => None,
            },
            capabilities: match reply_at(replies, 11) {
                Some(reply) => field(reply.spec_capabilities()),
                None => None,
            },
            local_memory_size: match reply_at(replies, 12) {
                Some(reply) => field(reply.spec_local_memory_size()),
                None => None,
            },
            model: match reply_at(replies, 13) {
                Some(reply) => field(reply.spec_model()),
                None => None,
            },
            num_slots: match reply_at(replies, 14) {
                Some(reply) => field(reply.spec_num_slots()),
                None => None,
            },
        }
    }

    /// Packs the replies to the reads of `attributes()` into a snapshot.
    pub fn from_replies(replies: &Vec<Reply>) -> (info: DeviceInfo)
        ensures
            info == DeviceInfo::spec_from_replies(replies@),
    {
        DeviceInfo {
            resource: ResourceInfo::from_replies(replies, 0),
            bbs_id: if 9 < replies.len() {
                (&replies[9]).bbs_id().ok()
            } else {
                None
            },
            bbs_version: if 10 < replies.len() {
                (&replies[10]).bbs_version().ok()
            } else {
                None
            },
            capabilities: if 11 < replies.len() {
                (&replies[11]).capabilities().ok()
            } else {
                None
            },
            local_memory_size: if 12 < replies.len() {
                (&replies[12]).local_memory_size().ok()
            } else {
                None
            },
            model: if 13 < replies.len() {
                (&replies[13]).model().ok()
            } else {
                None
            },
            num_slots: if 14 < replies.len() {
                (&replies[14]).num_slots().ok()
            } else {
                None
            },
        }
    }

    /// What `fields` returns.
    pub open spec fn spec_fields(&self) -> Seq<Value> {
        self.resource.spec_fields() + shown(
            match self.bbs_id {
                Some(value) => Some(Value::BbsId(value)),
                None => None,
            },
        ) + shown(
            match self.bbs_version {
                Some(value) => Some(Value::BbsVersion(value)),
                None => None,
            },
        ) + shown(
            match self.capabilities {
                Some(value) => Some(Value::Capabilities(value)),
                None => None,
            },
        ) + shown(
            match self.local_memory_size {
                Some(value) => Some(Value::LocalMemorySize(value)),
                None => None,
            },
        ) + shown(
            match self.model {
                Some(value) => Some(Value::Model(value)),
                None => None,
            },
        ) + shown(
            match self.num_slots {
                Some(value) => Some(Value::NumSlots(value)),
                None => None,
            },
        )
    }

    /// What there is to show of the snapshot: the values that it holds,
    /// one for each field that is not empty, in the order of the fields.
    pub fn fields(&self) -> (values: Vec<Value>)
        ensures
            values@ == self.spec_fields(),
    {
        let mut values = self.resource.fields();
        show(
            &mut values,
            match &self.bbs_id {
                Some(value) => Some(Value::BbsId(*value)),
                None => None,
            },
        );
        show(
            &mut values,
            match &self.bbs_version {
                Some(value) => Some(Value::BbsVersion(*value)),
                None => None,
            },
        );
        show(
            &mut values,
            match &self.capabilities {
                Some(value) => Some(Value::Capabilities(*value)),
                None => None,
            },
        );
        show(
            &mut values,
            match &self.local_memory_size {
                Some(value) => Some(Value::LocalMemorySize(*value)),
                None => None,
            },
        );
        show(
            &mut values,
            match &self.model {
                Some(value) => Some(Value::Model(value.clone())),
                None => None,
            },
        );
        show(
            &mut values,
            match &self.num_slots {
                Some(value) => Some(Value::NumSlots(*value)),
                None => None,
            },
        );
        assert(values@ =~= self.spec_fields());
        values
    }

}

} // verus!
