//! Accelerators.

use vstd::multiset::Multiset;
use vstd::prelude::*;
use crate::attribute::{AcceleratorState, Attribute, Value};
use crate::errors::Error;
use crate::native::{Call, Release, Reply};
use crate::properties::{AcceleratorProperties, Properties, ResourceProperties, spec_is_assigned};
use crate::resource::{field, reads, reply_at, show, shown, ResourceInfo};
use crate::token::Token;

verus! {

/// One accelerator on a device, with its token and its property set.
#[derive(Debug, PartialEq, Eq)]
pub struct Accelerator {
    pub token: Token,
    pub properties: Properties,
}

impl Accelerator {
    /// The accelerator that owns `token` and `properties`.
    pub fn new(token: Token, properties: Properties) -> (accelerator: Accelerator)
        ensures
            accelerator == (Accelerator { token, properties }),
    {
        Accelerator { token, properties }
    }

    /// The native objects that this accelerator owns.
    pub open spec fn spec_holds(&self) -> Multiset<Release> {
        self.properties.spec_holds().add(self.token.spec_holds())
    }

    /// The calls that read what a snapshot holds, in the order of
    /// `AcceleratorInfo::attributes()`.
    pub fn info_reads(&self) -> (calls: Vec<Call>)
        ensures
            calls@ == reads(self.properties.spec_raw(), AcceleratorInfo::spec_attributes()),
    {
        let attributes = AcceleratorInfo::attributes();
        let mut calls: Vec<Call> = Vec::new();
        let mut place: usize = 0;
        while place < attributes.len()
            invariant
                place <= attributes.len(),
                attributes@ == AcceleratorInfo::spec_attributes(),
                calls@ == reads(self.properties.spec_raw(), attributes@.take(place as int)),
            decreases attributes.len() - place,
        {
            calls.push(self.properties.read(attributes[place]));
            place += 1;
            assert(calls@ =~= reads(self.properties.spec_raw(), attributes@.take(place as int)));
        }
        assert(attributes@.take(place as int) =~= attributes@);
        calls
    }

    /// A snapshot of the accelerator: what the replies to `info_reads()` give.
    /// The snapshot never fails as a whole. A field holds a value exactly
    /// where the read of it succeeded, and is empty where it failed or where
    /// `replies` is too short to hold an answer.
    pub fn info(&self, replies: &Vec<Reply>) -> (info: AcceleratorInfo)
        ensures
            info == AcceleratorInfo::spec_from_replies(replies@),
    {
        AcceleratorInfo::from_replies(replies)
    }
}

impl ResourceProperties for Accelerator {
    open spec fn spec_properties(&self) -> Properties {
        self.properties
    }

    fn properties(&self) -> (properties: &Properties) {
        &self.properties
    }
}

impl AcceleratorProperties for Accelerator {
}

/// Whether the reply to a read of the assignment state says that somebody
/// has claimed the accelerator.
fn read_assigned(reply: &Reply) -> (result: Result<bool, Error>)
    ensures
        result == spec_is_assigned(reply),
{
    match reply.accelerator_state() {
        Ok(AcceleratorState::Assigned) => Ok(true),
        Ok(AcceleratorState::Unassigned) => Ok(false),
        Err(error) => Err(error),
    }
}

/// What could be read of an accelerator. A field is empty where the read of
/// it failed.
#[derive(Clone, Debug, PartialEq, Eq)]
pub struct AcceleratorInfo {
    pub resource: ResourceInfo,
    pub assigned: Option<bool>,
    pub num_error_registers: Option<u32>,
    pub num_interrupts: Option<u32>,
    pub num_mmio_spaces: Option<u32>,
}

impl AcceleratorInfo {
    /// The number of attributes in this snapshot.
    pub const READS: usize = 13;

    /// The attribute that is read at place `place` of this snapshot: first
    /// those that every resource has, then those of an accelerator alone.
    pub open spec fn spec_attribute(place: int) -> Attribute {
        if place < 9 {
            ResourceInfo::spec_attribute(place)
        } else if place == 9 {
            Attribute::AcceleratorState
        } else if place == 10 {
            Attribute::NumErrorRegisters
        } else if place == 11 {
            Attribute::NumInterrupts
        } else {
            Attribute::NumMmioSpaces
        }
    }

    /// The attributes of this snapshot, in the order in which they are
    /// read.
    pub open spec fn spec_attributes() -> Seq<Attribute> {
        Seq::new(13, |place: int| AcceleratorInfo::spec_attribute(place))
    }

    /// The attributes of this snapshot, in the order in which they are
    /// read.
    pub fn attributes() -> (attributes: Vec<Attribute>)
        ensures
            attributes@ == AcceleratorInfo::spec_attributes(),
    {
        let mut attributes = ResourceInfo::attributes();
        attributes.push(Attribute::AcceleratorState);
        attributes.push(Attribute::NumErrorRegisters);
        attributes.push(Attribute::NumInterrupts);
        attributes.push(Attribute::NumMmioSpaces);
        assert(attributes@ =~= AcceleratorInfo::spec_attributes());
        attributes
    }

    /// The snapshot that `replies` give: each field holds the value that
    /// the reply at its place carries, and is empty where that reply reports
    /// a failure or is missing.
    pub open spec fn spec_from_replies(replies: Seq<Reply>) -> AcceleratorInfo {
        AcceleratorInfo {
            resource: ResourceInfo::spec_from_replies(replies, 0),
            assigned: match reply_at(replies, 9) {
                Some(reply) => field(spec_is_assigned(&reply)),
                None => None,
            },
            num_error_registers: match reply_at(replies, 10) {
                Some(reply) => field(reply.spec_num_error_registers()),
                None => None,
            },
            num_interrupts: match reply_at(replies, 11) {
                Some(reply) => field(reply.spec_num_interrupts()),
                None => None,
            },
            num_mmio_spaces: match reply_at(replies, 12) {
                Some(reply) => field(reply.spec_num_mmio_spaces()),
                None => None,
            },
        }
    }

    /// Packs the replies to the reads of `attributes()` into a snapshot.
    pub fn from_replies(replies: &Vec<Reply>) -> (info: AcceleratorInfo)
        ensures
            info == AcceleratorInfo::spec_from_replies(replies@),
    {
        AcceleratorInfo {
            resource: ResourceInfo::from_replies(replies, 0),
            assigned: if 9 < replies.len() {
                read_assigned((&replies[9])).ok()
            } else {
                None
            },
            num_error_registers: if 10 < replies.len() {
                (&replies[10]).num_error_registers().ok()
            } else {
                None
            },
            num_interrupts: if 11 < replies.len() {
                (&replies[11]).num_interrupts().ok()
            } else {
                None
            },
            num_mmio_spaces: if 12 < replies.len() {
                (&replies[12]).num_mmio_spaces().ok()
            } else {
                None
            },
        }
    }

    /// What `fields` returns.
    pub open spec fn spec_fields(&self) -> Seq<Value> {
        self.resource.spec_fields() + shown(
            match self.assigned {
                Some(value) => Some(Value::AcceleratorState(AcceleratorState::of(value))),
                None => None,
            },
        ) + shown(
            match self.num_error_registers {
                Some(value) => Some(Value::NumErrorRegisters(value)),
                None => None,
            },
        ) + shown(
            match self.num_interrupts {
                Some(value) => Some(Value::NumInterrupts(value)),
                None => None,
            },
        ) + shown(
            match self.num_mmio_spaces {
                Some(value) => Some(Value::NumMmioSpaces(value)),
                None => None,
            },
        )
    }

    /// What there is to show of the snapshot: the values that it holds,
    /// one for each field that is not empty, in the order of the fields.
    pub fn fields(&self) -> (values: Vec<Value>)
        ensures
            values@ == self.spec_fields(),
    {
        let mut values = self.resource.fields();
        show(
            &mut values,
            match &self.assigned {
                Some(value) => Some(Value::AcceleratorState(AcceleratorState::of(*value))),
                None => None,
            },
        );
        show(
            &mut values,
            match &self.num_error_registers {
                Some(value) => Some(Value::NumErrorRegisters(*value)),
                None => None,
            },
        );
        show(
            &mut values,
            match &self.num_interrupts {
                Some(value) => Some(Value::NumInterrupts(*value)),
                None => None,
            },
        );
        show(
            &mut values,
            match &self.num_mmio_spaces {
                Some(value) => Some(Value::NumMmioSpaces(*value)),
                None => None,
            },
        );
        assert(values@ =~= self.spec_fields());
        values
    }

}

} // verus!
