//! Resources: what enumeration yields, told apart by kind.

use vstd::multiset::Multiset;
use vstd::prelude::*;
use crate::accelerator::Accelerator;
use crate::attribute::{Attribute, Guid, ObjectType, Value};
use crate::device::Device;
use crate::errors::Error;
use crate::native::{
    bag, lemma_bag_empty, lemma_bag_one, lemma_bag_two, Call, Effects, Machine, Next, Release,
    Reply, Turn,
};
use crate::properties::{gained_properties, lemma_properties_raw, Properties};
use crate::token::Token;

verus! {

/// What a reply gives for one field of a snapshot: the value that was read,
/// or nothing where the read failed.
pub open spec fn field<T>(reading: Result<T, Error>) -> Option<T> {
    match reading {
        Ok(value) => Some(value),
        Err(_) => None,
    }
}

/// A value that is there, as a sequence of one, and nothing as the empty
/// sequence.
pub open spec fn shown(value: Option<Value>) -> Seq<Value> {
    match value {
        Some(value) => seq![value],
        None => Seq::empty(),
    }
}

/// Adds a value to what is shown, if there is one.
pub fn show(values: &mut Vec<Value>, value: Option<Value>)
    ensures
        final(values)@ == old(values)@ + shown(value),
{
    match value {
        Some(value) => {
            values.push(value);
        },
        None => {
            assert(values@ + Seq::<Value>::empty() =~= values@);
        },
    }
}

/// The reply at place `place` of `replies`, if there are that many.
pub open spec fn reply_at(replies: Seq<Reply>, place: int) -> Option<Reply> {
    if 0 <= place < replies.len() {
        Some(replies[place])
    } else {
        None
    }
}

/// The calls that read `attributes` of the property set `properties`, one
/// for each attribute and in their order.
pub open spec fn reads(properties: usize, attributes: Seq<Attribute>) -> Seq<Call> {
    Seq::new(attributes.len(), |place: int| Call::Read { properties, attribute: attributes[place] })
}

/// A discovered resource: a device, or an accelerator. The kind is read
/// once, when the resource is made, and never changes.
#[derive(Debug, PartialEq, Eq)]
pub enum Resource {
    Device(Device),
    Accelerator(Accelerator),
}

impl Resource {
    /// The kind of this resource.
    pub open spec fn spec_object_type(&self) -> ObjectType {
        match self {
            Resource::Device(_) => ObjectType::Device,
            Resource::Accelerator(_) => ObjectType::Accelerator,
        }
    }

    /// The kind of this resource.
    #[verifier::when_used_as_spec(spec_object_type)]
    pub fn object_type(&self) -> (kind: ObjectType)
        ensures
            kind == self.spec_object_type(),
    {
        match self {
            Resource::Device(_) => ObjectType::Device,
            Resource::Accelerator(_) => ObjectType::Accelerator,
        }
    }

    /// The token of this resource.
    pub open spec fn spec_token(&self) -> Token {
        match self {
            Resource::Device(device) => device.token,
            Resource::Accelerator(accelerator) => accelerator.token,
        }
    }

    /// The property set of this resource.
    pub open spec fn spec_properties(&self) -> Properties {
        match self {
            Resource::Device(device) => device.properties,
            Resource::Accelerator(accelerator) => accelerator.properties,
        }
    }

    /// The resource of kind `kind` that owns `token` and `properties`.
    pub open spec fn spec_new(kind: ObjectType, token: Token, properties: Properties) -> Resource {
        match kind {
            ObjectType::Device => Resource::Device(Device { token, properties }),
            ObjectType::Accelerator => Resource::Accelerator(Accelerator { token, properties }),
        }
    }

    /// Whether this resource is a device.
    pub fn is_device(&self) -> (device: bool)
        ensures
            device == (self is Device),
    {
        match self {
            Resource::Device(_) => true,
            Resource::Accelerator(_) => false,
        }
    }

    /// The device that this resource is. A resource that is no device is
    /// left out.
    pub fn unwrap_device(self) -> (device: Device)
        requires
            self is Device,
        ensures
            self == Resource::Device(device),
    {
        match self {
            Resource::Device(device) => device,
            Resource::Accelerator(accelerator) => Device {
                token: accelerator.token,
                properties: accelerator.properties,
            },
        }
    }

    /// The native objects that this resource owns.
    pub open spec fn spec_holds(&self) -> Multiset<Release> {
        self.spec_properties().spec_holds().add(self.spec_token().spec_holds())
    }

    /// The native objects that this resource owns, in the order in which
    /// they are destroyed: the property set, then the token.
    pub open spec fn spec_release(&self) -> Seq<Release> {
        seq![
            Release::Properties(self.spec_properties().spec_raw()),
            Release::Token(self.spec_token().spec_raw()),
        ]
    }

    /// Gives the resource up: the native objects to destroy, in this
    /// order.
    pub fn release(self) -> (releases: Vec<Release>)
        ensures
            releases@ == self.spec_release(),
    {
        let (token, properties) = match self {
            Resource::Device(device) => (device.token, device.properties),
            Resource::Accelerator(accelerator) => (accelerator.token, accelerator.properties),
        };
        let mut releases: Vec<Release> = Vec::new();
        releases.push(properties.release());
        releases.push(token.release());
        assert(releases@ == seq![
            Release::Properties(properties.spec_raw()),
            Release::Token(token.spec_raw()),
        ]);
        releases
    }

    /// Starts to make the resource behind `token`: the first call asks for
    /// its property set.
    pub fn from_token(token: Token) -> (turn: Turn<Classification, Result<Resource, Error>>)
        ensures
            turn@ == Effects::<Classification, Result<Resource, Error>>::call(
                Classification::Deriving { token },
                Call::GetProperties { token: token.spec_raw() },
            ),
    {
        let call = token.get_properties();
        Turn::call(Classification::Deriving { token }, call)
    }
}

/// The making of a resource from a token, in progress.
///
/// The runtime is asked for the token's property set and then for the kind
/// that the set records. The resource is of that kind and owns both. If
/// either call fails, what was acquired so far is released, the token
/// included, and the failure is the result.
#[derive(Debug, PartialEq, Eq)]
pub enum Classification {
    /// Waiting for the property set.
    Deriving { token: Token },
    /// Waiting for the kind.
    Reading { token: Token, properties: Properties },
}

impl Classification {
    /// The token that is being made into a resource.
    pub open spec fn spec_token(&self) -> Token {
        match self {
            Classification::Deriving { token } => *token,
            Classification::Reading { token, properties } => *token,
        }
    }
}

/// A resource is of the kind that the runtime reports for the resource's own
/// property set: the kind is asked of that set and of no other, and the
/// resource that is made carries the kind that the reply names, together
/// with the token and the property set that the making held. A token that
/// is not made into a resource is released.
pub proof fn lemma_kind_invariant(state: Classification, reply: Reply)
    ensures
        state.after(reply).next matches Next::Call(
            Classification::Reading { token, properties },
            call,
        ) ==> call == (Call::Read {
            properties: properties.spec_raw(),
            attribute: Attribute::ObjectType,
        }) && token == state.spec_token(),
        state.after(reply).next matches Next::Done(Ok(resource)) ==> state
            == (Classification::Reading {
            token: resource.spec_token(),
            properties: resource.spec_properties(),
        }) && reply.spec_object_type() == Ok::<ObjectType, Error>(resource.spec_object_type()),
        state.after(reply).next matches Next::Done(Err(error)) ==> state.after(
            reply,
        ).releases.contains(Release::Token(state.spec_token().spec_raw())),
{
    match state {
        Classification::Deriving { token } => {
            if Properties::spec_from_token(&reply) is Err {
                assert(state.after(reply).releases[0] == Release::Token(token.spec_raw()));
            }
        },
        Classification::Reading { token, properties } => {
            if reply.spec_object_type() is Err {
                assert(state.after(reply).releases[1] == Release::Token(token.spec_raw()));
            }
        },
    }
}

impl Machine for Classification {
    type Output = Result<Resource, Error>;

    open spec fn after(self, reply: Reply) -> Effects<Classification, Result<Resource, Error>> {
        match self {
            Classification::Deriving { token } => match Properties::spec_from_token(&reply) {
                Ok(properties) => Effects::call(
                    Classification::Reading { token, properties },
                    Call::Read {
                        properties: properties.spec_raw(),
                        attribute: Attribute::ObjectType,
                    },
                ),
                Err(error) => Effects {
                    releases: seq![Release::Token(token.spec_raw())],
                    next: Next::Done(Err(error)),
                },
            },
            Classification::Reading { token, properties } => match reply.spec_object_type() {
                Ok(kind) => Effects::done(Ok(Resource::spec_new(kind, token, properties))),
                Err(error) => Effects {
                    releases: seq![
                        Release::Properties(properties.spec_raw()),
                        Release::Token(token.spec_raw()),
                    ],
                    next: Next::Done(Err(error)),
                },
            },
        }
    }

    open spec fn holds(self) -> Multiset<Release> {
        match self {
            Classification::Deriving { token } => token.spec_holds(),
            Classification::Reading { token, properties } => properties.spec_holds().add(
                token.spec_holds(),
            ),
        }
    }

    open spec fn gains(self, reply: Reply) -> Multiset<Release> {
        match self {
            Classification::Deriving { token } => gained_properties(reply),
            Classification::Reading { token, properties } => Multiset::empty(),
        }
    }

    open spec fn yields(output: Result<Resource, Error>) -> Multiset<Release> {
        match output {
            Ok(resource) => resource.spec_holds(),
            Err(_) => Multiset::empty(),
        }
    }

    proof fn lemma_books_balance(self, reply: Reply) {
        broadcast use lemma_properties_raw;

        lemma_bag_empty();
        match self {
            Classification::Deriving { token } => {
                lemma_bag_one(Release::Token(token.spec_raw()));
            },
            Classification::Reading { token, properties } => {
                lemma_bag_two(
                    Release::Properties(properties.spec_raw()),
                    Release::Token(token.spec_raw()),
                );
            },
        }
        let step = self.after(reply);
        let kept = match step.next {
            Next::Call(state, _) => state.holds(),
            Next::Done(output) => Self::yields(output),
        };
        assert(self.holds().add(self.gains(reply)) =~= bag(step.releases).add(kept));
    }

    fn resume(self, reply: Reply) -> (turn: Turn<Classification, Result<Resource, Error>>) {
        match self {
            Classification::Deriving { token } => match Properties::from_token(&token, &reply) {
                Ok(properties) => {
                    let call = properties.read(Attribute::ObjectType);
                    Turn::call(Classification::Reading { token, properties }, call)
                },
                Err(error) => {
                    let mut releases: Vec<Release> = Vec::new();
                    releases.push(token.release());
                    Turn { releases, next: Next::Done(Err(error)) }
                },
            },
            Classification::Reading { token, properties } => match reply.object_type() {
                Ok(ObjectType::Device) => Turn::done(
                    Ok(Resource::Device(Device::new(token, properties))),
                ),
                Ok(ObjectType::Accelerator) => Turn::done(
                    Ok(Resource::Accelerator(Accelerator::new(token, properties))),
                ),
                Err(error) => {
                    let mut releases: Vec<Release> = Vec::new();
                    releases.push(properties.release());
                    releases.push(token.release());
                    assert(releases@ == seq![
                        Release::Properties(properties.spec_raw()),
                        Release::Token(token.spec_raw()),
                    ]);
                    Turn { releases, next: Next::Done(Err(error)) }
                },
            },
        }
    }
}

/// What is released for a resource is what the resource owns.
pub proof fn lemma_release_is_what_is_held(resource: Resource)
    ensures
        bag(resource.spec_release()) == resource.spec_holds(),
{
    lemma_bag_two(
        Release::Properties(resource.spec_properties().spec_raw()),
        Release::Token(resource.spec_token().spec_raw()),
    );
}

/// What could be read of the attributes that every resource has. A field
/// is empty where the read of it failed.
#[derive(Clone, Debug, PartialEq, Eq)]
pub struct ResourceInfo {
    pub device_id: Option<u16>,
    pub guid: Option<Guid>,
    pub object_id: Option<u64>,
    pub pci_bus_nr: Option<u8>,
    pub pci_device_nr: Option<u8>,
    pub pci_function_nr: Option<u8>,
    pub pci_segment_nr: Option<u16>,
    pub socket_id: Option<u8>,
    pub vendor_id: Option<u16>,
}

impl ResourceInfo {
    /// The number of attributes in this snapshot.
    pub const READS: usize = 9;

    /// The attribute that is read at place `place` of this snapshot.
    pub open spec fn spec_attribute(place: int) -> Attribute {
        if place == 0 {
            Attribute::DeviceId
        } else if place == 1 {
            Attribute::Guid
        } else if place == 2 {
            Attribute::ObjectId
        } else if place == 3 {
            Attribute::PciBusNr
        } else if place == 4 {
            Attribute::PciDeviceNr
        } else if place == 5 {
            Attribute::PciFunctionNr
        } else if place == 6 {
            Attribute::PciSegmentNr
        } else if place == 7 {
            Attribute::SocketId
        } else {
            Attribute::VendorId
        }
    }

    /// The attributes of this snapshot, in the order in which they are
    /// read.
    pub open spec fn spec_attributes() -> Seq<Attribute> {
        Seq::new(9, |place: int| ResourceInfo::spec_attribute(place))
    }

    /// The attributes of this snapshot, in the order in which they are
    /// read.
    pub fn attributes() -> (attributes: Vec<Attribute>)
        ensures
            attributes@ == ResourceInfo::spec_attributes(),
    {
        let mut attributes: Vec<Attribute> = Vec::new();
        attributes.push(Attribute::DeviceId);
        attributes.push(Attribute::Guid);
        attributes.push(Attribute::ObjectId);
        attributes.push(Attribute::PciBusNr);
        attributes.push(Attribute::PciDeviceNr);
        attributes.push(Attribute::PciFunctionNr);
        attributes.push(Attribute::PciSegmentNr);
        attributes.push(Attribute::SocketId);
        attributes.push(Attribute::VendorId);
        assert(attributes@ =~= ResourceInfo::spec_attributes());
        attributes
    }

    /// The snapshot that the replies from place `first` on give: each field
    /// holds the value that its reply carries, and is empty where the reply
    /// reports a failure or is missing.
    pub open spec fn spec_from_replies(replies: Seq<Reply>, first: int) -> ResourceInfo {
        ResourceInfo {
            device_id: match reply_at(replies, first + 0) {
                Some(reply) => field(reply.spec_device_id()),
                None => None,
            },
            guid: match reply_at(replies, first + 1) {
                Some(reply) => field(reply.spec_guid()),
                None => None,
            },
            object_id: match reply_at(replies, first + 2) {
                Some(reply) => field(reply.spec_object_id()),
                None => None,
            },
            pci_bus_nr: match reply_at(replies, first + 3) {
                Some(reply) => field(reply.spec_pci_bus_nr()),
                None => None,
            },
            pci_device_nr: match reply_at(replies, first + 4) {
                Some(reply) => field(reply.spec_pci_device_nr()),
                None => None,
            },
            pci_function_nr: match reply_at(replies, first + 5) {
                Some(reply) => field(reply.spec_pci_function_nr()),
                None => None,
            },
            pci_segment_nr: match reply_at(replies, first + 6) {
                Some(reply) => field(reply.spec_pci_segment_nr()),
                None => None,
            },
            socket_id: match reply_at(replies, first + 7) {
                Some(reply) => field(reply.spec_socket_id()),
                None => None,
            },
            vendor_id: match reply_at(replies, first + 8) {
                Some(reply) => field(reply.spec_vendor_id()),
                None => None,
            },
        }
    }

    /// Packs the replies to the reads of `attributes()`, which stand in
    /// `replies` from place `first` on, into a snapshot. No reply makes the
    /// snapshot fail: a read that failed leaves its own field empty.
    pub fn from_replies(replies: &Vec<Reply>, first: usize) -> (info: ResourceInfo)
        requires
            first + 9 <= usize::MAX,
        ensures
            info == ResourceInfo::spec_from_replies(replies@, first as int),
    {
        ResourceInfo {
            device_id: if first + 0 < replies.len() {
                replies[first + 0].device_id().ok()
            } else {
                None
            },
            guid: if first + 1 < replies.len() {
                replies[first + 1].guid().ok()
            } else {
                None
            },
            object_id: if first + 2 < replies.len() {
                replies[first + 2].object_id().ok()
            } else {
                None
            },
            pci_bus_nr: if first + 3 < replies.len() {
                replies[first + 3].pci_bus_nr().ok()
            } else {
                None
            },
            pci_device_nr: if first + 4 < replies.len() {
                replies[first + 4].pci_device_nr().ok()
            } else {
                None
            },
            pci_function_nr: if first + 5 < replies.len() {
                replies[first + 5].pci_function_nr().ok()
            } else {
                None
            },
            pci_segment_nr: if first + 6 < replies.len() {
                replies[first + 6].pci_segment_nr().ok()
            } else {
                None
            },
            socket_id: if first + 7 < replies.len() {
                replies[first + 7].socket_id().ok()
            } else {
                None
            },
            vendor_id: if first + 8 < replies.len() {
                replies[first + 8].vendor_id().ok()
            } else {
                None
            },
        }
    }

    /// What `fields` returns.
    pub open spec fn spec_fields(&self) -> Seq<Value> {
        shown(
            match self.device_id {
                Some(value) => Some(Value::DeviceId(value)),
                None => None,
            },
        ) + shown(
            match self.guid {
                Some(value) => Some(Value::Guid(value)),
                None => None,
            },
        ) + shown(
            match self.object_id {
                Some(value) => Some(Value::ObjectId(value)),
                None => None,
            },
        ) + shown(
            match self.pci_bus_nr {
                Some(value) => Some(Value::PciBusNr(value)),
                None => None,
            },
        ) + shown(
            match self.pci_device_nr {
                Some(value) => Some(Value::PciDeviceNr(value)),
                None => None,
            },
        ) + shown(
            match self.pci_function_nr {
                Some(value) => Some(Value::PciFunctionNr(value)),
                None => None,
            },
        ) + shown(
            match self.pci_segment_nr {
                Some(value) => Some(Value::PciSegmentNr(value)),
                None => None,
            },
        ) + shown(
            match self.socket_id {
                Some(value) => Some(Value::SocketId(value)),
                None => None,
            },
        ) + shown(
            match self.vendor_id {
                Some(value) => Some(Value::VendorId(value)),
                None => None,
            },
        )
    }

    /// What there is to show of the snapshot: the values that it holds,
    /// one for each field that is not empty, in the order of the fields.
    pub fn fields(&self) -> (values: Vec<Value>)
        ensures
            values@ == self.spec_fields(),
    {
        let mut values: Vec<Value> = Vec::new();
        show(
            &mut values,
            match &self.device_id {
                Some(value) => Some(Value::DeviceId(*value)),
                None => None,
            },
        );
        show(
            &mut values,
            match &self.guid {
                Some(value) => Some(Value::Guid(*value)),
                None => None,
            },
        );
        show(
            &mut values,
            match &self.object_id {
                Some(value) => Some(Value::ObjectId(*value)),
                None => None,
            },
        );
        show(
            &mut values,
            match &self.pci_bus_nr {
                Some(value) => Some(Value::PciBusNr(*value)),
                None => None,
            },
        );
        show(
            &mut values,
            match &self.pci_device_nr {
                Some(value) => Some(Value::PciDeviceNr(*value)),
                None => None,
            },
        );
        show(
            &mut values,
            match &self.pci_function_nr {
                Some(value) => Some(Value::PciFunctionNr(*value)),
                None => None,
            },
        );
        show(
            &mut values,
            match &self.pci_segment_nr {
                Some(value) => Some(Value::PciSegmentNr(*value)),
                None => None,
            },
        );
        show(
            &mut values,
            match &self.socket_id {
                Some(value) => Some(Value::SocketId(*value)),
                None => None,
            },
        );
        show(
            &mut values,
            match &self.vendor_id {
                Some(value) => Some(Value::VendorId(*value)),
                None => None,
            },
        );
        assert(values@ =~= self.spec_fields());
        values
    }

}

} // verus!
