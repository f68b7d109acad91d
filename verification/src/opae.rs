//! The platform: one accelerator, and the device that it sits on.

use vstd::multiset::Multiset;
use vstd::prelude::*;
use crate::accelerator::{Accelerator, AcceleratorInfo};
use crate::attribute::{Attribute, ObjectType};
use crate::device::{Device, DeviceInfo};
use crate::enumeration::First;
use crate::errors::{Error, Status};
use crate::filter::Filter;
use crate::enumeration::{Enumeration, Scan, TokenIter};
use crate::native::{
    asked, bag, gained, kept, lemma_bag_concat, lemma_bag_empty, lemma_run_balances, run, Call,
    Effects, Machine, Next, Release, Reply, Turn,
};
use crate::properties::{Compilation, Properties};
use crate::resolution::Resolution;
use crate::resource::{lemma_release_is_what_is_held, Resource};

verus! {

/// A selected accelerator, together with its device where that could be
/// found.
#[derive(Debug, PartialEq, Eq)]
pub struct Opae {
    pub device: Option<Device>,
    pub accelerator: Accelerator,
}

/// The selection of a platform, in progress.
///
/// The accelerator is the first resource that matches the query. Where the
/// runtime fails while the query is compiled or the matches are fetched, the
/// selection fails with the runtime's own status. Where the fetch succeeds and
/// no resource is made, the selection fails with `Status::NotFound`. A first
/// match that turns out to be no accelerator is released, and the selection
/// fails with `Status::Exception`. The accelerator's device is then looked for,
/// and the selection succeeds whether or not there is one.
#[derive(Debug, PartialEq)]
pub enum Selection {
    /// Waiting for the first match.
    Looking(First),
    /// Waiting for the accelerator's device.
    Resolving { accelerator: Accelerator, resolution: Resolution },
}

impl Machine for Selection {
    type Output = Result<Opae, Error>;

    open spec fn after(self, reply: Reply) -> Effects<Selection, Result<Opae, Error>> {
        match self {
            Selection::Looking(first) => {
                let inner = first.after(reply);
                match inner.next {
                    Next::Call(first, call) => Effects {
                        releases: inner.releases,
                        next: Next::Call(Selection::Looking(first), call),
                    },
                    Next::Done(Ok(Some(Resource::Accelerator(accelerator)))) => Effects {
                        releases: inner.releases,
                        next: Next::Call(
                            Selection::Resolving { accelerator, resolution: Resolution::Reading },
                            Call::Read {
                                properties: accelerator.properties.spec_raw(),
                                attribute: Attribute::DeviceId,
                            },
                        ),
                    },
                    Next::Done(Ok(Some(resource))) => Effects {
                        releases: inner.releases + resource.spec_release(),
                        next: Next::Done(Err(Error { status: Status::Exception })),
                    },
                    Next::Done(Ok(None)) => Effects {
                        releases: inner.releases,
                        next: Next::Done(Err(Error { status: Status::NotFound })),
                    },
                    Next::Done(Err(error)) => Effects {
                        releases: inner.releases,
                        next: Next::Done(Err(error)),
                    },
                }
            },
            Selection::Resolving { accelerator, resolution } => {
                let inner = resolution.after(reply);
                match inner.next {
                    Next::Call(resolution, call) => Effects {
                        releases: inner.releases,
                        next: Next::Call(Selection::Resolving { accelerator, resolution }, call),
                    },
                    Next::Done(device) => Effects {
                        releases: inner.releases,
                        next: Next::Done(Ok(Opae { device, accelerator })),
                    },
                }
            },
        }
    }

    open spec fn holds(self) -> Multiset<Release> {
        match self {
            Selection::Looking(first) => first.holds(),
            Selection::Resolving { accelerator, resolution } => accelerator.spec_holds().add(
                resolution.holds(),
            ),
        }
    }

    open spec fn gains(self, reply: Reply) -> Multiset<Release> {
        match self {
            Selection::Looking(first) => first.gains(reply),
            Selection::Resolving { accelerator, resolution } => resolution.gains(reply),
        }
    }

    open spec fn yields(output: Result<Opae, Error>) -> Multiset<Release> {
        match output {
            Ok(opae) => opae.spec_holds(),
            Err(_) => Multiset::empty(),
        }
    }

    proof fn lemma_books_balance(self, reply: Reply) {
        let step = self.after(reply);
        lemma_bag_empty();
        match self {
            Selection::Looking(first) => {
                let inner = first.after(reply);
                first.lemma_books_balance(reply);
                match inner.next {
                    Next::Done(Ok(Some(Resource::Accelerator(accelerator)))) => {
                        assert(accelerator.spec_holds().add(Multiset::empty())
                            =~= accelerator.spec_holds());
                    },
                    Next::Done(Ok(Some(resource))) => {
                        lemma_release_is_what_is_held(resource);
                        lemma_bag_concat(inner.releases, resource.spec_release());
                        assert(bag(inner.releases).add(resource.spec_holds()).add(
                            Multiset::empty(),
                        ) =~= bag(inner.releases).add(resource.spec_holds()));
                    },
                    _ => {},
                }
            },
            Selection::Resolving { accelerator, resolution } => {
                let inner = resolution.after(reply);
                let held = accelerator.spec_holds();
                resolution.lemma_books_balance(reply);
                assert(held.add(resolution.holds()).add(resolution.gains(reply)) =~= held.add(
                    resolution.holds().add(resolution.gains(reply)),
                ));
                match inner.next {
                    Next::Call(resolution, call) => {
                        assert(held.add(bag(inner.releases).add(resolution.holds())) =~= bag(
                            inner.releases,
                        ).add(held.add(resolution.holds())));
                    },
                    Next::Done(device) => {
                        let kept = (Opae { device, accelerator }).spec_holds();
                        assert(held.add(bag(inner.releases).add(Resolution::yields(device)))
                            =~= bag(inner.releases).add(kept));
                    },
                }
            },
        }
        let kept = match step.next {
            Next::Call(state, _) => state.holds(),
            Next::Done(output) => Self::yields(output),
        };
        assert(self.holds().add(self.gains(reply)) =~= bag(step.releases).add(kept));
    }

    fn resume(self, reply: Reply) -> (turn: Turn<Selection, Result<Opae, Error>>) {
        match self {
            Selection::Looking(first) => {
                let Turn { releases, next } = first.resume(reply);
                match next {
                    Next::Call(first, call) => Turn {
                        releases,
                        next: Next::Call(Selection::Looking(first), call),
                    },
                    Next::Done(Ok(Some(Resource::Accelerator(accelerator)))) => {
                        let Turn { releases: _, next } = accelerator.device();
                        match next {
                            Next::Call(resolution, call) => Turn {
                                releases,
                                next: Next::Call(
                                    Selection::Resolving { accelerator, resolution },
                                    call,
                                ),
                            },
                            Next::Done(device) => Turn {
                                releases,
                                next: Next::Done(Ok(Opae { device, accelerator })),
                            },
                        }
                    },
                    Next::Done(Ok(Some(resource))) => {
                        let mut releases = releases;
                        let mut more = resource.release();
                        releases.append(&mut more);
                        Turn { releases, next: Next::Done(Err(Error::new(Status::Exception))) }
                    },
                    Next::Done(Ok(None)) => Turn {
                        releases,
                        next: Next::Done(Err(Error::new(Status::NotFound))),
                    },
                    Next::Done(Err(error)) => Turn { releases, next: Next::Done(Err(error)) },
                }
            },
            Selection::Resolving { accelerator, resolution } => {
                let Turn { releases, next } = resolution.resume(reply);
                match next {
                    Next::Call(resolution, call) => Turn {
                        releases,
                        next: Next::Call(Selection::Resolving { accelerator, resolution }, call),
                    },
                    Next::Done(device) => Turn {
                        releases,
                        next: Next::Done(Ok(Opae { device, accelerator })),
                    },
                }
            },
        }
    }
}

impl Opae {
    /// The native objects that this platform owns: those of the
    /// accelerator, and those of the device where there is one.
    pub open spec fn spec_holds(&self) -> Multiset<Release> {
        self.accelerator.spec_holds().add(
            match self.device {
                Some(device) => device.spec_holds(),
                None => Multiset::empty(),
            },
        )
    }

    /// What `from_filter` returns.
    pub open spec fn spec_from_filter(filter: Filter) -> Effects<Selection, Result<Opae, Error>> {
        match filter.obj_type {
            Some(ObjectType::Device) => Effects::done(Err(Error { status: Status::InvalidParam })),
            _ => Effects::call(
                Selection::Looking(
                    First::spec_new(Filter { obj_type: Some(ObjectType::Accelerator), ..filter }),
                ),
                Call::NewProperties,
            ),
        }
    }

    /// Starts to select the first accelerator of the system.
    pub fn new() -> (turn: Turn<Selection, Result<Opae, Error>>)
        ensures
            turn@ == Opae::spec_from_filter(Filter::spec_new()),
    {
        Opae::from_filter(Filter::new().with_accelerator_object())
    }

    /// Starts to select the first accelerator that matches `filter`.
    ///
    /// A query for devices cannot select an accelerator: it is refused
    /// with `Status::InvalidParam` at once, before any native call. A query
    /// that names no kind is taken as one for accelerators. A query for
    /// accelerators goes to the runtime as it is.
    pub fn from_filter(filter: Filter) -> (turn: Turn<Selection, Result<Opae, Error>>)
        ensures
            turn@ == Opae::spec_from_filter(filter),
    {
        match filter.obj_type {
            Some(ObjectType::Device) => Turn::done(Err(Error::new(Status::InvalidParam))),
            _ => {
                let Turn { releases, next } = filter.with_accelerator_object().first();
                match next {
                    Next::Call(first, call) => Turn {
                        releases,
                        next: Next::Call(Selection::Looking(first), call),
                    },
                    Next::Done(_) => Turn {
                        releases,
                        next: Next::Done(Err(Error::new(Status::NotFound))),
                    },
                }
            },
        }
    }

    /// The calls that read what a snapshot of the accelerator holds.
    pub fn accelerator_info_reads(&self) -> (calls: Vec<Call>)
        ensures
            calls@ == crate::resource::reads(
                self.accelerator.properties.spec_raw(),
                AcceleratorInfo::spec_attributes(),
            ),
    {
        self.accelerator.info_reads()
    }

    /// A snapshot of the accelerator, from the replies to
    /// `accelerator_info_reads()`.
    pub fn accelerator_info(&self, replies: &Vec<Reply>) -> (info: AcceleratorInfo)
        ensures
            info == AcceleratorInfo::spec_from_replies(replies@),
    {
        self.accelerator.info(replies)
    }

    /// The calls that read what a snapshot of the device holds, if there is
    /// a device.
    pub fn device_info_reads(&self) -> (calls: Option<Vec<Call>>)
        ensures
            calls is Some <==> self.device is Some,
            calls matches Some(calls) ==> calls@ == crate::resource::reads(
                self.device->0.properties.spec_raw(),
                DeviceInfo::spec_attributes(),
            ),
    {
        match &self.device {
            Some(device) => Some(device.info_reads()),
            None => None,
        }
    }

    /// A snapshot of the device, from the replies to
    /// `device_info_reads()`, if there is a device.
    pub fn device_info(&self, replies: &Vec<Reply>) -> (info: Option<DeviceInfo>)
        ensures
            info == (match self.device {
                Some(_) => Some(DeviceInfo::spec_from_replies(replies@)),
                None => None,
            }),
    {
        match &self.device {
            Some(device) => Some(device.info(replies)),
            None => None,
        }
    }
}

/// A query for devices is refused before any native call: whatever the
/// runtime would answer, nothing is asked of it, nothing is released, and
/// the selection has failed with `Status::InvalidParam`.
pub proof fn lemma_device_query_is_refused(filter: Filter, replies: Seq<Reply>)
    requires
        filter.obj_type == Some(ObjectType::Device),
    ensures
        run(Opae::spec_from_filter(filter), replies) == Effects::<
            Selection,
            Result<Opae, Error>,
        >::done(Err(Error { status: Status::InvalidParam })),
        asked(Opae::spec_from_filter(filter), replies) == Seq::<Call>::empty(),
{
}

/// A failure of the runtime while the query is compiled or the matches
/// are fetched comes out of the selection with the runtime's own status,
/// so that "no device" and "device error" can be told apart. This holds of
/// a property set that cannot be made, of a write that is refused, and of a
/// fetch that fails. In the last two cases the query's property set is
/// released.
pub proof fn lemma_driver_failure_is_propagated(
    filter: Filter,
    properties: Properties,
    place: usize,
    capacity: u32,
    reply: Reply,
)
    requires
        reply.status != Status::Success,
    ensures
        (Selection::Looking(First::spec_new(filter))).after(reply) == Effects::<
            Selection,
            Result<Opae, Error>,
        >::done(Err(Error { status: reply.status })),
        (Selection::Looking(
            First::Enumerating(
                Enumeration::Compiling(Compilation::Writing { filter, properties, place }),
            ),
        )).after(reply) == (Effects::<Selection, Result<Opae, Error>> {
            releases: seq![Release::Properties(properties.spec_raw())],
            next: Next::Done(Err(Error { status: reply.status })),
        }),
        (Selection::Looking(
            First::Enumerating(Enumeration::Fetching { properties, capacity }),
        )).after(reply) == (Effects::<Selection, Result<Opae, Error>> {
            releases: seq![Release::Properties(properties.spec_raw())],
            next: Next::Done(Err(Error { status: reply.status })),
        }),
{
}

/// A selection whose fetch succeeds and brings no match fails with
/// `Status::NotFound`, and all that happens is that the query's property set
/// is released.
pub proof fn lemma_no_match_is_not_found(properties: Properties, capacity: u32, fetch: Reply)
    requires
        fetch.spec_fetched() is Ok,
        fetch.spec_total() == Ok::<u32, Error>(0) || capacity == 0,
    ensures
        (Selection::Looking(
            First::Enumerating(Enumeration::Fetching { properties, capacity }),
        )).after(fetch) == (Effects::<Selection, Result<Opae, Error>> {
            releases: seq![Release::Properties(properties.spec_raw())],
            next: Next::Done(Err(Error { status: Status::NotFound })),
        }),
{
    let fetching = Enumeration::Fetching { properties, capacity };
    let inner = fetching.after(fetch);
    let tokens = inner.next->Done_0->Ok_0;
    assert(tokens.spec_end() == 0);
    assert(tokens.spec_next() == Effects::<Scan, Option<(Resource, TokenIter)>>::done(None));
    let settled = First::spec_settle(inner.releases, tokens.spec_next());
    assert(settled.releases =~= seq![Release::Properties(properties.spec_raw())]);
}

/// Once an accelerator is selected, the selection cannot fail: whatever the
/// search for its device meets, the selection goes on with that
/// accelerator, and where it ends, it ends with a platform that holds the
/// accelerator, with or without a device.
pub proof fn lemma_device_is_optional(
    accelerator: Accelerator,
    resolution: Resolution,
    reply: Reply,
)
    ensures
        match (Selection::Resolving { accelerator, resolution }).after(reply).next {
            Next::Call(state, _) => state matches Selection::Resolving { accelerator: held, .. }
                && held == accelerator,
            Next::Done(result) => result matches Ok(opae) && opae.accelerator == accelerator,
        },
{
}

/// A selection leaks nothing, whatever the runtime answers. At any point
/// of any run, the native objects that the replies have handed over are,
/// object for object, those that have been released and those that are
/// still owned: by the selection while it goes on, and by the platform once
/// it has succeeded. A selection that has failed owns nothing, so all that
/// it was handed has been released, each object once.
pub proof fn lemma_selection_leaks_nothing(filter: Filter, replies: Seq<Reply>)
    ensures
        ({
            let start = Opae::spec_from_filter(filter);
            let reached = run(start, replies);
            &&& gained(start.next, replies) == bag(reached.releases).add(kept(reached.next))
            &&& reached.next matches Next::Done(Err(_)) ==> gained(start.next, replies) == bag(
                reached.releases,
            )
            &&& reached.next matches Next::Done(Ok(opae)) ==> gained(start.next, replies) == bag(
                reached.releases,
            ).add(opae.spec_holds())
        }),
{
    let start = Opae::spec_from_filter(filter);
    let reached = run(start, replies);
    lemma_bag_empty();
    lemma_run_balances(start, replies);
    assert(start.releases =~= Seq::<Release>::empty());
    assert(kept(start.next) =~= Multiset::<Release>::empty());
    assert(Multiset::<Release>::empty().add(Multiset::empty()).add(gained(start.next, replies))
        =~= gained(start.next, replies));
    assert(bag(reached.releases).add(Multiset::empty()) =~= bag(reached.releases));
}

} // verus!
