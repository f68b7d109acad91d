//! Property sets: the native containers of a resource's attributes.

use vstd::multiset::Multiset;
use vstd::prelude::*;
use crate::attribute::{AcceleratorState, Attribute, Guid, ObjectType, Value, Version};
use crate::errors::{Error, Status};
use crate::filter::{Filter, ATTRIBUTES};
use crate::native::{
    asked, bag, lemma_bag_empty, lemma_bag_one, run, Call, Effects, Machine, Next, Payload,
    Release, Reply, Turn,
};
use crate::token::Token;

verus! {

/// The owner of one native property set.
///
/// A property set is never null. It cannot be copied: a second set with the
/// same attributes is made by the runtime, and each of the two is released
/// on its own.
#[derive(Debug, PartialEq, Eq)]
pub struct Properties {
    raw: usize,
}

impl Properties {
    #[verifier::type_invariant]
    spec fn never_null(self) -> bool {
        self.raw != 0
    }

    /// The native reference that this property set owns.
    pub closed spec fn spec_raw(&self) -> usize {
        self.raw
    }

    /// The property set that owns `raw`.
    pub closed spec fn spec_from_raw(raw: usize) -> Properties {
        Properties { raw }
    }

    /// Takes ownership of a native reference.
    pub fn from_raw(raw: usize) -> (properties: Properties)
        requires
            raw != 0,
        ensures
            properties == Properties::spec_from_raw(raw),
            properties.spec_raw() == raw,
    {
        Properties { raw }
    }

    /// The native reference that this property set owns.
    #[verifier::when_used_as_spec(spec_raw)]
    pub fn raw(&self) -> (raw: usize)
        ensures
            raw == self.spec_raw(),
            raw != 0,
    {
        proof {
            use_type_invariant(self);
        }
        self.raw
    }

    /// What `from_token` returns.
    pub open spec fn spec_from_token(reply: &Reply) -> Result<Properties, Error> {
        match reply.spec_properties() {
            Ok(raw) => Ok(Properties::spec_from_raw(raw)),
            Err(error) => Err(error),
        }
    }

    /// The property set of the resource behind `token`, from the runtime's
    /// reply to `token.get_properties()`: the set that the reply carries if
    /// the call succeeded, and the failure otherwise.
    pub fn from_token(token: &Token, reply: &Reply) -> (result: Result<Properties, Error>)
        ensures
            result == Properties::spec_from_token(reply),
    {
        match reply.properties() {
            Ok(raw) => Ok(Properties { raw }),
            Err(error) => Err(error),
        }
    }

    /// The call that counts the resources that match this property set
    /// without fetching any.
    pub fn probe(&self) -> (call: Call)
        ensures
            call == (Call::Enumerate { properties: self.spec_raw(), capacity: 0 }),
    {
        Call::Enumerate { properties: self.raw, capacity: 0 }
    }

    /// The call that fetches tokens for at most `capacity` of the resources
    /// that match this property set.
    pub fn enumerate(&self, capacity: u32) -> (call: Call)
        ensures
            call == (Call::Enumerate { properties: self.spec_raw(), capacity }),
    {
        Call::Enumerate { properties: self.raw, capacity }
    }

    /// What `num_matches` returns, before it is widened.
    pub open spec fn spec_num_matches(reply: &Reply) -> u32 {
        match reply.spec_total() {
            Ok(total) => total,
            Err(_) => 0,
        }
    }

    /// The number of resources that match this property set, from the
    /// runtime's reply to `probe()`. A failed call counts as no match: the
    /// number only sizes a buffer.
    pub fn num_matches(&self, reply: &Reply) -> (count: usize)
        ensures
            count == Properties::spec_num_matches(reply),
    {
        match reply.total() {
            Ok(total) => total as usize,
            Err(_) => 0,
        }
    }

    /// The call that reads one attribute of this property set.
    pub fn read(&self, attribute: Attribute) -> (call: Call)
        ensures
            call == (Call::Read { properties: self.spec_raw(), attribute }),
    {
        Call::Read { properties: self.raw, attribute }
    }

    /// The call that sets one attribute of this property set.
    pub fn write(&self, value: Value) -> (call: Call)
        ensures
            call == (Call::Write { properties: self.spec_raw(), value }),
    {
        Call::Write { properties: self.raw, value }
    }

    /// The call that asks the runtime for a second property set with the
    /// attributes of this one.
    pub fn duplicate(&self) -> (call: Call)
        ensures
            call == (Call::CloneProperties { properties: self.spec_raw() }),
    {
        Call::CloneProperties { properties: self.raw }
    }

    /// The property set that the runtime made in answer to `duplicate()`,
    /// or the failure that it reported.
    pub fn cloned(&self, reply: &Reply) -> (result: Result<Properties, Error>)
        ensures
            result == Properties::spec_from_token(reply),
    {
        match reply.properties() {
            Ok(raw) => Ok(Properties { raw }),
            Err(error) => Err(error),
        }
    }

    /// What `release` returns.
    pub open spec fn spec_release(self) -> Release {
        Release::Properties(self.spec_raw())
    }

    /// The native object that this property set owns.
    pub open spec fn spec_holds(self) -> Multiset<Release> {
        Multiset::singleton(Release::Properties(self.spec_raw()))
    }

    /// Gives the reference up: the native object to destroy. It is the one
    /// that this property set owns, and no other.
    pub fn release(self) -> (release: Release)
        ensures
            release == self.spec_release(),
    {
        Release::Properties(self.raw)
    }

    /// Starts to build the property set that asks for what `filter` asks:
    /// the first call makes an empty property set.
    pub fn from_filter(filter: Filter) -> (turn: Turn<Compilation, Result<Properties, Error>>)
        ensures
            turn@ == Effects::<Compilation, Result<Properties, Error>>::call(
                Compilation::Allocating { filter },
                Call::NewProperties,
            ),
    {
        Turn::call(Compilation::Allocating { filter }, Call::NewProperties)
    }
}

/// Giving up a property set that the runtime made as a second one leaves the
/// first alone: where the two own references of their own, what is released
/// for the second is not the first's reference, and the first still owns
/// what it owned.
pub proof fn lemma_properties_clone_is_released_alone(first: Properties, second: Properties)
    requires
        first.spec_raw() != second.spec_raw(),
    ensures
        second.spec_release() == Release::Properties(second.spec_raw()),
        second.spec_release() != first.spec_release(),
{
}

/// A property set is told by the reference that it owns.
pub broadcast proof fn lemma_properties_raw(raw: usize)
    ensures
        (#[trigger] Properties::spec_from_raw(raw)).spec_raw() == raw,
{
}

/// The property set that a reply hands over when it answers a call that
/// makes one.
pub open spec fn gained_properties(reply: Reply) -> Multiset<Release> {
    match reply.spec_properties() {
        Ok(raw) => Multiset::singleton(Release::Properties(raw)),
        Err(_) => Multiset::empty(),
    }
}

/// The building of a property set from a query, in progress.
///
/// The attributes that the query constrains are written one by one, in the
/// order of writing. The first write that the runtime refuses ends the
/// building: the property set is released and the refusal is the result.
#[derive(Debug, PartialEq)]
pub enum Compilation {
    /// Waiting for the empty property set.
    Allocating { filter: Filter },
    /// Waiting for the write of the attribute at `place`.
    Writing { filter: Filter, properties: Properties, place: usize },
}

impl Compilation {
    /// The step that writes the first constrained attribute at or after
    /// place `from`, or ends the building if there is none.
    pub open spec fn spec_write_from(filter: Filter, properties: Properties, from: int) -> Effects<
        Compilation,
        Result<Properties, Error>,
    > {
        let place = filter.spec_next_present(from);
        if place < ATTRIBUTES {
            Effects::call(
                Compilation::Writing { filter, properties, place: place as usize },
                Call::Write {
                    properties: properties.spec_raw(),
                    value: filter.spec_get(Attribute::spec_at(place))->0,
                },
            )
        } else {
            Effects::done(Ok(properties))
        }
    }

    fn write_from(filter: Filter, properties: Properties, from: usize) -> (turn: Turn<
        Compilation,
        Result<Properties, Error>,
    >)
        ensures
            turn@ == Compilation::spec_write_from(filter, properties, from as int),
    {
        let place = filter.next_present(from);
        if place < ATTRIBUTES {
            match filter.get(Attribute::at(place)) {
                Some(value) => {
                    let call = properties.write(value);
                    Turn::call(Compilation::Writing { filter, properties, place }, call)
                },
                None => Turn::done(Ok(properties)),
            }
        } else {
            Turn::done(Ok(properties))
        }
    }
}

impl Machine for Compilation {
    type Output = Result<Properties, Error>;

    open spec fn after(self, reply: Reply) -> Effects<Compilation, Result<Properties, Error>> {
        match self {
            Compilation::Allocating { filter } => match reply.spec_properties() {
                Ok(raw) => Compilation::spec_write_from(filter, Properties::spec_from_raw(raw), 0),
                Err(error) => Effects::done(Err(error)),
            },
            Compilation::Writing { filter, properties, place } => match reply.spec_written() {
                Ok(_) => Compilation::spec_write_from(
                    filter,
                    properties,
                    if place < ATTRIBUTES {
                        place + 1
                    } else {
                        ATTRIBUTES as int
                    },
                ),
                Err(error) => Effects {
                    releases: seq![Release::Properties(properties.spec_raw())],
                    next: Next::Done(Err(error)),
                },
            },
        }
    }

    open spec fn holds(self) -> Multiset<Release> {
        match self {
            Compilation::Allocating { filter } => Multiset::empty(),
            Compilation::Writing { filter, properties, place } => properties.spec_holds(),
        }
    }

    open spec fn gains(self, reply: Reply) -> Multiset<Release> {
        match self {
            Compilation::Allocating { filter } => gained_properties(reply),
            Compilation::Writing { filter, properties, place } => Multiset::empty(),
        }
    }

    open spec fn yields(output: Result<Properties, Error>) -> Multiset<Release> {
        match output {
            Ok(properties) => properties.spec_holds(),
            Err(_) => Multiset::empty(),
        }
    }

    proof fn lemma_books_balance(self, reply: Reply) {
        broadcast use lemma_properties_raw;

        lemma_bag_empty();
        match self {
            Compilation::Allocating { filter } => {},
            Compilation::Writing { filter, properties, place } => {
                lemma_bag_one(Release::Properties(properties.spec_raw()));
            },
        }
        let step = self.after(reply);
        let kept = match step.next {
            Next::Call(state, _) => state.holds(),
            Next::Done(output) => Self::yields(output),
        };
        assert(self.holds().add(self.gains(reply)) =~= bag(step.releases).add(kept));
    }

    fn resume(self, reply: Reply) -> (turn: Turn<Compilation, Result<Properties, Error>>) {
        match self {
            Compilation::Allocating { filter } => match reply.properties() {
                Ok(raw) => Compilation::write_from(filter, Properties::from_raw(raw), 0),
                Err(error) => Turn::done(Err(error)),
            },
            Compilation::Writing { filter, properties, place } => match reply.written() {
                Ok(_) => {
                    let from = if place < ATTRIBUTES {
                        place + 1
                    } else {
                        ATTRIBUTES
                    };
                    Compilation::write_from(filter, properties, from)
                },
                Err(error) => {
                    let mut releases: Vec<Release> = Vec::new();
                    releases.push(properties.release());
                    Turn { releases, next: Next::Done(Err(error)) }
                },
            },
        }
    }
}

/// The writes of `values` into the property set `properties`, one call for
/// each value and in their order.
pub open spec fn writes(properties: usize, values: Seq<Value>) -> Seq<Call> {
    Seq::new(values.len(), |place: int| Call::Write { properties, value: values[place] })
}

/// The values that a query holds from a place on begin with the value at
/// the first constrained place, and go on behind it.
pub proof fn lemma_next_present(filter: Filter, from: int)
    requires
        0 <= from,
    ensures
        from <= filter.spec_next_present(from) || filter.spec_next_present(from) == ATTRIBUTES,
        filter.spec_next_present(from) <= ATTRIBUTES,
        filter.spec_next_present(from) < ATTRIBUTES ==> filter.spec_get(
            Attribute::spec_at(filter.spec_next_present(from)),
        ) is Some && filter.spec_assignments_from(from) == seq![
            filter.spec_get(Attribute::spec_at(filter.spec_next_present(from)))->0,
        ] + filter.spec_assignments_from(filter.spec_next_present(from) + 1),
        filter.spec_next_present(from) >= ATTRIBUTES ==> filter.spec_assignments_from(from)
            == Seq::<Value>::empty(),
    decreases ATTRIBUTES - from,
{
    if from < ATTRIBUTES && filter.spec_get(Attribute::spec_at(from)) is None {
        lemma_next_present(filter, from + 1);
    }
}

/// While the runtime accepts every write, the building of a property set
/// asks for the writes of the values that the query holds, in the order of
/// writing, and ends with the property set once the last is accepted.
pub proof fn lemma_writes_go_through(
    filter: Filter,
    properties: Properties,
    from: int,
    replies: Seq<Reply>,
)
    requires
        0 <= from,
        replies.len() == filter.spec_assignments_from(from).len(),
        forall|place: int| 0 <= place < replies.len() ==> replies[place].status == Status::Success,
    ensures
        run(Compilation::spec_write_from(filter, properties, from), replies) == Effects::<
            Compilation,
            Result<Properties, Error>,
        >::done(Ok(properties)),
        asked(Compilation::spec_write_from(filter, properties, from), replies) == writes(
            properties.spec_raw(),
            filter.spec_assignments_from(from),
        ),
    decreases replies.len(),
{
    let start = Compilation::spec_write_from(filter, properties, from);
    let place = filter.spec_next_present(from);
    lemma_next_present(filter, from);
    if place < ATTRIBUTES {
        let value = filter.spec_get(Attribute::spec_at(place))->0;
        let later = filter.spec_assignments_from(place + 1);
        let state = Compilation::Writing { filter, properties, place: place as usize };
        let step = state.after(replies[0]);
        assert(step == Compilation::spec_write_from(filter, properties, place + 1));
        lemma_writes_go_through(filter, properties, place + 1, replies.drop_first());
        assert(start.releases + step.releases =~= step.releases);
        assert(run(start, replies) == run(step, replies.drop_first()));
        assert(asked(start, replies) =~= writes(
            properties.spec_raw(),
            filter.spec_assignments_from(from),
        ));
    } else {
        assert(asked(start, replies) =~= writes(
            properties.spec_raw(),
            filter.spec_assignments_from(from),
        ));
    }
}

/// The first write that the runtime refuses ends the building of a property
/// set: no further write is asked for, the property set is released, and
/// the result is the refusal.
pub proof fn lemma_refusal_ends_writes(
    filter: Filter,
    properties: Properties,
    from: int,
    accepted: Seq<Reply>,
    refusal: Reply,
)
    requires
        0 <= from,
        accepted.len() < filter.spec_assignments_from(from).len(),
        forall|place: int|
            0 <= place < accepted.len() ==> accepted[place].status == Status::Success,
        refusal.status != Status::Success,
    ensures
        run(Compilation::spec_write_from(filter, properties, from), accepted.push(refusal))
            == (Effects::<Compilation, Result<Properties, Error>> {
            releases: seq![Release::Properties(properties.spec_raw())],
            next: Next::Done(Err(Error { status: refusal.status })),
        }),
        asked(Compilation::spec_write_from(filter, properties, from), accepted.push(refusal))
            == writes(
            properties.spec_raw(),
            filter.spec_assignments_from(from).take(accepted.len() as int + 1),
        ),
    decreases accepted.len(),
{
    let start = Compilation::spec_write_from(filter, properties, from);
    let replies = accepted.push(refusal);
    let place = filter.spec_next_present(from);
    lemma_next_present(filter, from);
    let value = filter.spec_get(Attribute::spec_at(place))->0;
    let later = filter.spec_assignments_from(place + 1);
    let state = Compilation::Writing { filter, properties, place: place as usize };
    let step = state.after(replies[0]);
    if accepted.len() == 0 {
        assert(replies[0] == refusal);
        assert(replies.drop_first() =~= Seq::<Reply>::empty());
        assert(start.releases + step.releases =~= step.releases);
        assert(run(start, replies) == step);
        assert(asked(step, replies.drop_first()) =~= Seq::<Call>::empty());
        assert((seq![value] + later).take(1) =~= seq![value]);
        assert(asked(start, replies) =~= writes(
            properties.spec_raw(),
            filter.spec_assignments_from(from).take(1),
        ));
    } else {
        assert(replies[0] == accepted[0]);
        assert(step == Compilation::spec_write_from(filter, properties, place + 1));
        assert(replies.drop_first() =~= accepted.drop_first().push(refusal));
        lemma_refusal_ends_writes(filter, properties, place + 1, accepted.drop_first(), refusal);
        assert(start.releases + step.releases =~= step.releases);
        assert(run(start, replies) == run(step, replies.drop_first()));
        assert((seq![value] + later).take(accepted.len() as int + 1) =~= seq![value] + later.take(
            accepted.len() as int,
        ));
        assert(asked(start, replies) =~= writes(
            properties.spec_raw(),
            filter.spec_assignments_from(from).take(accepted.len() as int + 1),
        ));
    }
}

/// Building a property set from a query, where the runtime makes the set
/// `raw` and accepts every write: the calls are the making of an empty set
/// and then, in the order of writing, one write for each value that the
/// query holds. The result is the property set, and nothing is released.
pub proof fn lemma_from_filter_writes_the_query(filter: Filter, raw: usize, replies: Seq<Reply>)
    requires
        replies.len() == filter.spec_assignments().len() + 1,
        replies[0].spec_properties() == Ok::<usize, Error>(raw),
        forall|place: int| 1 <= place < replies.len() ==> replies[place].status == Status::Success,
    ensures
        run(
            Effects::call(Compilation::Allocating { filter }, Call::NewProperties),
            replies,
        ) == Effects::<Compilation, Result<Properties, Error>>::done(
            Ok(Properties::spec_from_raw(raw)),
        ),
        asked(
            Effects::<Compilation, Result<Properties, Error>>::call(
                Compilation::Allocating { filter },
                Call::NewProperties,
            ),
            replies,
        ) == seq![Call::NewProperties] + writes(raw, filter.spec_assignments()),
{
    broadcast use lemma_properties_raw;

    let start = Effects::<Compilation, Result<Properties, Error>>::call(
        Compilation::Allocating { filter },
        Call::NewProperties,
    );
    let properties = Properties::spec_from_raw(raw);
    let step = (Compilation::Allocating { filter }).after(replies[0]);
    assert(step == Compilation::spec_write_from(filter, properties, 0));
    lemma_writes_go_through(filter, properties, 0, replies.drop_first());
    assert(start.releases + step.releases =~= step.releases);
    assert(run(start, replies) == run(step, replies.drop_first()));
}


impl Reply {
    /// The kind of resource that a reply to a read of it carries, or the
    /// failure that the reply stands for.
    pub open spec fn spec_object_type(&self) -> Result<ObjectType, Error> {
        match self.spec_value(Attribute::ObjectType) {
            Ok(Value::ObjectType(value)) => Ok(value),
            _ => Err(self.spec_error()),
        }
    }

    /// The kind of resource that a reply to a read of it carries, or the
    /// failure that the reply stands for.
    pub fn object_type(&self) -> (result: Result<ObjectType, Error>)
        ensures
            result == self.spec_object_type(),
    {
        match &self.payload {
            Payload::Value(Value::ObjectType(value)) => {
                if self.status.is_ok() {
                    Ok(*value)
                } else {
                    Err(self.error())
                }
            },
            _ => Err(self.error()),
        }
    }

    /// The device identifier that a reply to a read of it carries, or the
    /// failure that the reply stands for.
    pub open spec fn spec_device_id(&self) -> Result<u16, Error> {
        match self.spec_value(Attribute::DeviceId) {
            Ok(Value::DeviceId(value)) => Ok(value),
            _ => Err(self.spec_error()),
        }
    }

    /// The device identifier that a reply to a read of it carries, or the
    /// failure that the reply stands for.
    pub fn device_id(&self) -> (result: Result<u16, Error>)
        ensures
            result == self.spec_device_id(),
    {
        match &self.payload {
            Payload::Value(Value::DeviceId(value)) => {
                if self.status.is_ok() {
                    Ok(*value)
                } else {
                    Err(self.error())
                }
            },
            _ => Err(self.error()),
        }
    }

    /// The identifier of what is loaded that a reply to a read of it carries,
    /// or the failure that the reply stands for.
    pub open spec fn spec_guid(&self) -> Result<Guid, Error> {
        match self.spec_value(Attribute::Guid) {
            Ok(Value::Guid(value)) => Ok(value),
            _ => Err(self.spec_error()),
        }
    }

    /// The identifier of what is loaded that a reply to a read of it carries,
    /// or the failure that the reply stands for.
    pub fn guid(&self) -> (result: Result<Guid, Error>)
        ensures
            result == self.spec_guid(),
    {
        match &self.payload {
            Payload::Value(Value::Guid(value)) => {
                if self.status.is_ok() {
                    Ok(*value)
                } else {
                    Err(self.error())
                }
            },
            _ => Err(self.error()),
        }
    }

    /// The object identifier that a reply to a read of it carries, or the
    /// failure that the reply stands for.
    pub open spec fn spec_object_id(&self) -> Result<u64, Error> {
        match self.spec_value(Attribute::ObjectId) {
            Ok(Value::ObjectId(value)) => Ok(value),
            _ => Err(self.spec_error()),
        }
    }

    /// The object identifier that a reply to a read of it carries, or the
    /// failure that the reply stands for.
    pub fn object_id(&self) -> (result: Result<u64, Error>)
        ensures
            result == self.spec_object_id(),
    {
        match &self.payload {
            Payload::Value(Value::ObjectId(value)) => {
                if self.status.is_ok() {
                    Ok(*value)
                } else {
                    Err(self.error())
                }
            },
            _ => Err(self.error()),
        }
    }

    /// The PCI bus number that a reply to a read of it carries, or the failure
    /// that the reply stands for.
    pub open spec fn spec_pci_bus_nr(&self) -> Result<u8, Error> {
        match self.spec_value(Attribute::PciBusNr) {
            Ok(Value::PciBusNr(value)) => Ok(value),
            _ => Err(self.spec_error()),
        }
    }

    /// The PCI bus number that a reply to a read of it carries, or the failure
    /// that the reply stands for.
    pub fn pci_bus_nr(&self) -> (result: Result<u8, Error>)
        ensures
            result == self.spec_pci_bus_nr(),
    {
        match &self.payload {
            Payload::Value(Value::PciBusNr(value)) => {
                if self.status.is_ok() {
                    Ok(*value)
                } else {
                    Err(self.error())
                }
            },
            _ => Err(self.error()),
        }
    }

    /// The PCI device number that a reply to a read of it carries, or the
    /// failure that the reply stands for.
    pub open spec fn spec_pci_device_nr(&self) -> Result<u8, Error> {
        match self.spec_value(Attribute::PciDeviceNr) {
            Ok(Value::PciDeviceNr(value)) => Ok(value),
            _ => Err(self.spec_error()),
        }
    }

    /// The PCI device number that a reply to a read of it carries, or the
    /// failure that the reply stands for.
    pub fn pci_device_nr(&self) -> (result: Result<u8, Error>)
        ensures
            result == self.spec_pci_device_nr(),
    {
        match &self.payload {
            Payload::Value(Value::PciDeviceNr(value)) => {
                if self.status.is_ok() {
                    Ok(*value)
                } else {
                    Err(self.error())
                }
            },
            _ => Err(self.error()),
        }
    }

    /// The PCI function number that a reply to a read of it carries, or the
    /// failure that the reply stands for.
    pub open spec fn spec_pci_function_nr(&self) -> Result<u8, Error> {
        match self.spec_value(Attribute::PciFunctionNr) {
            Ok(Value::PciFunctionNr(value)) => Ok(value),
            _ => Err(self.spec_error()),
        }
    }

    /// The PCI function number that a reply to a read of it carries, or the
    /// failure that the reply stands for.
    pub fn pci_function_nr(&self) -> (result: Result<u8, Error>)
        ensures
            result == self.spec_pci_function_nr(),
    {
        match &self.payload {
            Payload::Value(Value::PciFunctionNr(value)) => {
                if self.status.is_ok() {
                    Ok(*value)
                } else {
                    Err(self.error())
                }
            },
            _ => Err(self.error()),
        }
    }

    /// The PCI segment number that a reply to a read of it carries, or the
    /// failure that the reply stands for.
    pub open spec fn spec_pci_segment_nr(&self) -> Result<u16, Error> {
        match self.spec_value(Attribute::PciSegmentNr) {
            Ok(Value::PciSegmentNr(value)) => Ok(value),
            _ => Err(self.spec_error()),
        }
    }

    /// The PCI segment number that a reply to a read of it carries, or the
    /// failure that the reply stands for.
    pub fn pci_segment_nr(&self) -> (result: Result<u16, Error>)
        ensures
            result == self.spec_pci_segment_nr(),
    {
        match &self.payload {
            Payload::Value(Value::PciSegmentNr(value)) => {
                if self.status.is_ok() {
                    Ok(*value)
                } else {
                    Err(self.error())
                }
            },
            _ => Err(self.error()),
        }
    }

    /// The socket identifier that a reply to a read of it carries, or the
    /// failure that the reply stands for.
    pub open spec fn spec_socket_id(&self) -> Result<u8, Error> {
        match self.spec_value(Attribute::SocketId) {
            Ok(Value::SocketId(value)) => Ok(value),
            _ => Err(self.spec_error()),
        }
    }

    /// The socket identifier that a reply to a read of it carries, or the
    /// failure that the reply stands for.
    pub fn socket_id(&self) -> (result: Result<u8, Error>)
        ensures
            result == self.spec_socket_id(),
    {
        match &self.payload {
            Payload::Value(Value::SocketId(value)) => {
                if self.status.is_ok() {
                    Ok(*value)
                } else {
                    Err(self.error())
                }
            },
            _ => Err(self.error()),
        }
    }

    /// The vendor identifier that a reply to a read of it carries, or the
    /// failure that the reply stands for.
    pub open spec fn spec_vendor_id(&self) -> Result<u16, Error> {
        match self.spec_value(Attribute::VendorId) {
            Ok(Value::VendorId(value)) => Ok(value),
            _ => Err(self.spec_error()),
        }
    }

    /// The vendor identifier that a reply to a read of it carries, or the
    /// failure that the reply stands for.
    pub fn vendor_id(&self) -> (result: Result<u16, Error>)
        ensures
            result == self.spec_vendor_id(),
    {
        match &self.payload {
            Payload::Value(Value::VendorId(value)) => {
                if self.status.is_ok() {
                    Ok(*value)
                } else {
                    Err(self.error())
                }
            },
            _ => Err(self.error()),
        }
    }

    /// The board support identifier that a reply to a read of it carries, or
    /// the failure that the reply stands for.
    pub open spec fn spec_bbs_id(&self) -> Result<u64, Error> {
        match self.spec_value(Attribute::BbsId) {
            Ok(Value::BbsId(value)) => Ok(value),
            _ => Err(self.spec_error()),
        }
    }

    /// The board support identifier that a reply to a read of it carries, or
    /// the failure that the reply stands for.
    pub fn bbs_id(&self) -> (result: Result<u64, Error>)
        ensures
            result == self.spec_bbs_id(),
    {
        match &self.payload {
            Payload::Value(Value::BbsId(value)) => {
                if self.status.is_ok() {
                    Ok(*value)
                } else {
                    Err(self.error())
                }
            },
            _ => Err(self.error()),
        }
    }

    /// The board support version that a reply to a read of it carries, or the
    /// failure that the reply stands for.
    pub open spec fn spec_bbs_version(&self) -> Result<Version, Error> {
        match self.spec_value(Attribute::BbsVersion) {
            Ok(Value::BbsVersion(value)) => Ok(value),
            _ => Err(self.spec_error()),
        }
    }

    /// The board support version that a reply to a read of it carries, or the
    /// failure that the reply stands for.
    pub fn bbs_version(&self) -> (result: Result<Version, Error>)
        ensures
            result == self.spec_bbs_version(),
    {
        match &self.payload {
            Payload::Value(Value::BbsVersion(value)) => {
                if self.status.is_ok() {
                    Ok(*value)
                } else {
                    Err(self.error())
                }
            },
            _ => Err(self.error()),
        }
    }

    /// The capability bits that a reply to a read of it carries, or the failure
    /// that the reply stands for.
    pub open spec fn spec_capabilities(&self) -> Result<u64, Error> {
        match self.spec_value(Attribute::Capabilities) {
            Ok(Value::Capabilities(value)) => Ok(value),
            _ => Err(self.spec_error()),
        }
    }

    /// The capability bits that a reply to a read of it carries, or the failure
    /// that the reply stands for.
    pub fn capabilities(&self) -> (result: Result<u64, Error>)
        ensures
            result == self.spec_capabilities(),
    {
        match &self.payload {
            Payload::Value(Value::Capabilities(value)) => {
                if self.status.is_ok() {
                    Ok(*value)
                } else {
                    Err(self.error())
                }
            },
            _ => Err(self.error()),
        }
    }

    /// The size of the local memory that a reply to a read of it carries, or
    /// the failure that the reply stands for.
    pub open spec fn spec_local_memory_size(&self) -> Result<u64, Error> {
        match self.spec_value(Attribute::LocalMemorySize) {
            Ok(Value::LocalMemorySize(value)) => Ok(value),
            _ => Err(self.spec_error()),
        }
    }

    /// The size of the local memory that a reply to a read of it carries, or
    /// the failure that the reply stands for.
    pub fn local_memory_size(&self) -> (result: Result<u64, Error>)
        ensures
            result == self.spec_local_memory_size(),
    {
        match &self.payload {
            Payload::Value(Value::LocalMemorySize(value)) => {
                if self.status.is_ok() {
                    Ok(*value)
                } else {
                    Err(self.error())
                }
            },
            _ => Err(self.error()),
        }
    }

    /// The model name that a reply to a read of it carries, or the failure that
    /// the reply stands for.
    pub open spec fn spec_model(&self) -> Result<String, Error> {
        match self.spec_value(Attribute::Model) {
            Ok(Value::Model(value)) => Ok(value),
            _ => Err(self.spec_error()),
        }
    }

    /// The model name that a reply to a read of it carries, or the failure that
    /// the reply stands for.
    pub fn model(&self) -> (result: Result<String, Error>)
        ensures
            result == self.spec_model(),
    {
        match &self.payload {
            Payload::Value(Value::Model(value)) => {
                if self.status.is_ok() {
                    Ok(value.clone())
                } else {
                    Err(self.error())
                }
            },
            _ => Err(self.error()),
        }
    }

    /// The number of slots that a reply to a read of it carries, or the failure
    /// that the reply stands for.
    pub open spec fn spec_num_slots(&self) -> Result<u32, Error> {
        match self.spec_value(Attribute::NumSlots) {
            Ok(Value::NumSlots(value)) => Ok(value),
            _ => Err(self.spec_error()),
        }
    }

    /// The number of slots that a reply to a read of it carries, or the failure
    /// that the reply stands for.
    pub fn num_slots(&self) -> (result: Result<u32, Error>)
        ensures
            result == self.spec_num_slots(),
    {
        match &self.payload {
            Payload::Value(Value::NumSlots(value)) => {
                if self.status.is_ok() {
                    Ok(*value)
                } else {
                    Err(self.error())
                }
            },
            _ => Err(self.error()),
        }
    }

    /// The number of error registers that a reply to a read of it carries, or
    /// the failure that the reply stands for.
    pub open spec fn spec_num_error_registers(&self) -> Result<u32, Error> {
        match self.spec_value(Attribute::NumErrorRegisters) {
            Ok(Value::NumErrorRegisters(value)) => Ok(value),
            _ => Err(self.spec_error()),
        }
    }

    /// The number of error registers that a reply to a read of it carries, or
    /// the failure that the reply stands for.
    pub fn num_error_registers(&self) -> (result: Result<u32, Error>)
        ensures
            result == self.spec_num_error_registers(),
    {
        match &self.payload {
            Payload::Value(Value::NumErrorRegisters(value)) => {
                if self.status.is_ok() {
                    Ok(*value)
                } else {
                    Err(self.error())
                }
            },
            _ => Err(self.error()),
        }
    }

    /// The number of interrupts that a reply to a read of it carries, or the
    /// failure that the reply stands for.
    pub open spec fn spec_num_interrupts(&self) -> Result<u32, Error> {
        match self.spec_value(Attribute::NumInterrupts) {
            Ok(Value::NumInterrupts(value)) => Ok(value),
            _ => Err(self.spec_error()),
        }
    }

    /// The number of interrupts that a reply to a read of it carries, or the
    /// failure that the reply stands for.
    pub fn num_interrupts(&self) -> (result: Result<u32, Error>)
        ensures
            result == self.spec_num_interrupts(),
    {
        match &self.payload {
            Payload::Value(Value::NumInterrupts(value)) => {
                if self.status.is_ok() {
                    Ok(*value)
                } else {
                    Err(self.error())
                }
            },
            _ => Err(self.error()),
        }
    }

    /// The number of MMIO spaces that a reply to a read of it carries, or the
    /// failure that the reply stands for.
    pub open spec fn spec_num_mmio_spaces(&self) -> Result<u32, Error> {
        match self.spec_value(Attribute::NumMmioSpaces) {
            Ok(Value::NumMmioSpaces(value)) => Ok(value),
            _ => Err(self.spec_error()),
        }
    }

    /// The number of MMIO spaces that a reply to a read of it carries, or the
    /// failure that the reply stands for.
    pub fn num_mmio_spaces(&self) -> (result: Result<u32, Error>)
        ensures
            result == self.spec_num_mmio_spaces(),
    {
        match &self.payload {
            Payload::Value(Value::NumMmioSpaces(value)) => {
                if self.status.is_ok() {
                    Ok(*value)
                } else {
                    Err(self.error())
                }
            },
            _ => Err(self.error()),
        }
    }

    /// The assignment state that a reply to a read of it carries, or the
    /// failure that the reply stands for.
    pub open spec fn spec_accelerator_state(&self) -> Result<AcceleratorState, Error> {
        match self.spec_value(Attribute::AcceleratorState) {
            Ok(Value::AcceleratorState(value)) => Ok(value),
            _ => Err(self.spec_error()),
        }
    }

    /// The assignment state that a reply to a read of it carries, or the
    /// failure that the reply stands for.
    pub fn accelerator_state(&self) -> (result: Result<AcceleratorState, Error>)
        ensures
            result == self.spec_accelerator_state(),
    {
        match &self.payload {
            Payload::Value(Value::AcceleratorState(value)) => {
                if self.status.is_ok() {
                    Ok(*value)
                } else {
                    Err(self.error())
                }
            },
            _ => Err(self.error()),
        }
    }
}

/// Reading the attributes that every resource has.
pub trait ResourceProperties {
    /// The property set that the attributes are read from.
    spec fn spec_properties(&self) -> Properties;

    /// The property set that the attributes are read from.
    fn properties(&self) -> (properties: &Properties)
        ensures
            *properties == self.spec_properties(),
    ;

    /// The call that reads `attribute` of the resource.
    fn read(&self, attribute: Attribute) -> (call: Call)
        ensures
            call == (Call::Read {
                properties: self.spec_properties().spec_raw(),
                attribute,
            }),
    {
        self.properties().read(attribute)
    }

    /// The device identifier of the resource, from the runtime's reply to the
    /// read of it: the value if the read succeeded, the failure otherwise.
    fn device_id(&self, reply: &Reply) -> (result: Result<u16, Error>)
        ensures
            result == reply.spec_device_id(),
    {
        reply.device_id()
    }

    /// The identifier of what is loaded of the resource, from the runtime's
    /// reply to the read of it: the value if the read succeeded, the failure
    /// otherwise.
    fn guid(&self, reply: &Reply) -> (result: Result<Guid, Error>)
        ensures
            result == reply.spec_guid(),
    {
        reply.guid()
    }

    /// The object identifier of the resource, from the runtime's reply to the
    /// read of it: the value if the read succeeded, the failure otherwise.
    fn object_id(&self, reply: &Reply) -> (result: Result<u64, Error>)
        ensures
            result == reply.spec_object_id(),
    {
        reply.object_id()
    }

    /// The PCI bus number of the resource, from the runtime's reply to the read
    /// of it: the value if the read succeeded, the failure otherwise.
    fn pci_bus_nr(&self, reply: &Reply) -> (result: Result<u8, Error>)
        ensures
            result == reply.spec_pci_bus_nr(),
    {
        reply.pci_bus_nr()
    }

    /// The PCI device number of the resource, from the runtime's reply to the
    /// read of it: the value if the read succeeded, the failure otherwise.
    fn pci_device_nr(&self, reply: &Reply) -> (result: Result<u8, Error>)
        ensures
            result == reply.spec_pci_device_nr(),
    {
        reply.pci_device_nr()
    }

    /// The PCI function number of the resource, from the runtime's reply to the
    /// read of it: the value if the read succeeded, the failure otherwise.
    fn pci_function_nr(&self, reply: &Reply) -> (result: Result<u8, Error>)
        ensures
            result == reply.spec_pci_function_nr(),
    {
        reply.pci_function_nr()
    }

    /// The PCI segment number of the resource, from the runtime's reply to the
    /// read of it: the value if the read succeeded, the failure otherwise.
    fn pci_segment_nr(&self, reply: &Reply) -> (result: Result<u16, Error>)
        ensures
            result == reply.spec_pci_segment_nr(),
    {
        reply.pci_segment_nr()
    }

    /// The socket identifier of the resource, from the runtime's reply to the
    /// read of it: the value if the read succeeded, the failure otherwise.
    fn socket_id(&self, reply: &Reply) -> (result: Result<u8, Error>)
        ensures
            result == reply.spec_socket_id(),
    {
        reply.socket_id()
    }

    /// The vendor identifier of the resource, from the runtime's reply to the
    /// read of it: the value if the read succeeded, the failure otherwise.
    fn vendor_id(&self, reply: &Reply) -> (result: Result<u16, Error>)
        ensures
            result == reply.spec_vendor_id(),
    {
        reply.vendor_id()
    }
}

/// Reading the attributes that only a device has.
pub trait DeviceProperties: ResourceProperties {
    /// The board support identifier of the resource, from the runtime's reply
    /// to the read of it: the value if the read succeeded, the failure
    /// otherwise.
    fn bbs_id(&self, reply: &Reply) -> (result: Result<u64, Error>)
        ensures
            result == reply.spec_bbs_id(),
    {
        reply.bbs_id()
    }

    /// The board support version of the resource, from the runtime's reply to
    /// the read of it: the value if the read succeeded, the failure otherwise.
    fn bbs_version(&self, reply: &Reply) -> (result: Result<Version, Error>)
        ensures
            result == reply.spec_bbs_version(),
    {
        reply.bbs_version()
    }

    /// The capability bits of the resource, from the runtime's reply to the
    /// read of it: the value if the read succeeded, the failure otherwise.
    fn capabilities(&self, reply: &Reply) -> (result: Result<u64, Error>)
        ensures
            result == reply.spec_capabilities(),
    {
        reply.capabilities()
    }

    /// The size of the local memory of the resource, from the runtime's reply
    /// to the read of it: the value if the read succeeded, the failure
    /// otherwise.
    fn local_memory_size(&self, reply: &Reply) -> (result: Result<u64, Error>)
        ensures
            result == reply.spec_local_memory_size(),
    {
        reply.local_memory_size()
    }

    /// The model name of the resource, from the runtime's reply to the read of
    /// it: the value if the read succeeded, the failure otherwise.
    fn model(&self, reply: &Reply) -> (result: Result<String, Error>)
        ensures
            result == reply.spec_model(),
    {
        reply.model()
    }

    /// The number of slots of the resource, from the runtime's reply to the
    /// read of it: the value if the read succeeded, the failure otherwise.
    fn num_slots(&self, reply: &Reply) -> (result: Result<u32, Error>)
        ensures
            result == reply.spec_num_slots(),
    {
        reply.num_slots()
    }
}

/// Reading the attributes that only an accelerator has.
pub trait AcceleratorProperties: ResourceProperties {
    /// The number of error registers of the resource, from the runtime's reply
    /// to the read of it: the value if the read succeeded, the failure
    /// otherwise.
    fn num_error_registers(&self, reply: &Reply) -> (result: Result<u32, Error>)
        ensures
            result == reply.spec_num_error_registers(),
    {
        reply.num_error_registers()
    }

    /// The number of interrupts of the resource, from the runtime's reply to
    /// the read of it: the value if the read succeeded, the failure otherwise.
    fn num_interrupts(&self, reply: &Reply) -> (result: Result<u32, Error>)
        ensures
            result == reply.spec_num_interrupts(),
    {
        reply.num_interrupts()
    }

    /// The number of MMIO spaces of the resource, from the runtime's reply to
    /// the read of it: the value if the read succeeded, the failure otherwise.
    fn num_mmio_spaces(&self, reply: &Reply) -> (result: Result<u32, Error>)
        ensures
            result == reply.spec_num_mmio_spaces(),
    {
        reply.num_mmio_spaces()
    }

    /// Whether somebody has claimed the accelerator, from the runtime's reply
    /// to the read of the assignment state.
    fn is_assigned(&self, reply: &Reply) -> (result: Result<bool, Error>)
        ensures
            result == spec_is_assigned(reply),
    {
        match reply.accelerator_state() {
            Ok(AcceleratorState::Assigned) => Ok(true),
            Ok(AcceleratorState::Unassigned) => Ok(false),
            Err(error) => Err(error),
        }
    }

    /// Whether nobody has claimed the accelerator: the opposite of
    /// `is_assigned`, and the same failure.
    fn is_unassigned(&self, reply: &Reply) -> (result: Result<bool, Error>)
        ensures
            result == (match spec_is_assigned(reply) {
                Ok(assigned) => Ok(!assigned),
                Err(error) => Err(error),
            }),
    {
        match self.is_assigned(reply) {
            Ok(assigned) => Ok(!assigned),
            Err(error) => Err(error),
        }
    }
}

/// What `AcceleratorProperties::is_assigned` returns.
pub open spec fn spec_is_assigned(reply: &Reply) -> Result<bool, Error> {
    match reply.spec_accelerator_state() {
        Ok(state) => Ok(state == AcceleratorState::Assigned),
        Err(error) => Err(error),
    }
}

} // verus!
