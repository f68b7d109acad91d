//! From an accelerator to the device that it sits on.

use vstd::multiset::Multiset;
use vstd::prelude::*;
use crate::accelerator::Accelerator;
use crate::attribute::{Attribute, ObjectType};
use crate::device::Device;
use crate::enumeration::First;
use crate::filter::Filter;
use crate::native::{
    bag, lemma_bag_concat, lemma_bag_empty, Call, Effects, Machine, Next, Release, Reply, Turn,
};
use crate::resource::{lemma_release_is_what_is_held, Resource};

verus! {

/// The search for an accelerator's device, in progress.
///
/// The accelerator's device identifier is read. The device is the first
/// resource that matches a query for devices with that identifier. There is
/// no device if the identifier cannot be read, if the lookup fails, if
/// nothing matches, or if the first match turns out to be no device, in
/// which case it is released.
#[derive(Debug, PartialEq)]
pub enum Resolution {
    /// Waiting for the device identifier.
    Reading,
    /// Waiting for the first match.
    Looking(First),
}

impl Resolution {
    /// The query for the devices with the identifier `device_id`.
    pub open spec fn spec_query(device_id: u16) -> Filter {
        Filter {
            obj_type: Some(ObjectType::Device),
            device_id: Some(device_id),
            ..Filter::spec_new()
        }
    }
}

impl Machine for Resolution {
    type Output = Option<Device>;

    open spec fn after(self, reply: Reply) -> Effects<Resolution, Option<Device>> {
        match self {
            Resolution::Reading => match reply.spec_device_id() {
                Ok(device_id) => Effects::call(
                    Resolution::Looking(First::spec_new(Resolution::spec_query(device_id))),
                    Call::NewProperties,
                ),
                Err(_) => Effects::done(None),
            },
            Resolution::Looking(first) => {
                let inner = first.after(reply);
                match inner.next {
                    Next::Call(first, call) => Effects {
                        releases: inner.releases,
                        next: Next::Call(Resolution::Looking(first), call),
                    },
                    Next::Done(Ok(Some(Resource::Device(device)))) => Effects {
                        releases: inner.releases,
                        next: Next::Done(Some(device)),
                    },
                    Next::Done(Ok(Some(resource))) => Effects {
                        releases: inner.releases + resource.spec_release(),
                        next: Next::Done(None),
                    },
                    Next::Done(_) => Effects { releases: inner.releases, next: Next::Done(None) },
                }
            },
        }
    }

    open spec fn holds(self) -> Multiset<Release> {
        match self {
            Resolution::Reading => Multiset::empty(),
            Resolution::Looking(first) => first.holds(),
        }
    }

    open spec fn gains(self, reply: Reply) -> Multiset<Release> {
        match self {
            Resolution::Reading => Multiset::empty(),
            Resolution::Looking(first) => first.gains(reply),
        }
    }

    open spec fn yields(output: Option<Device>) -> Multiset<Release> {
        match output {
            Some(device) => device.spec_holds(),
            None => Multiset::empty(),
        }
    }

    proof fn lemma_books_balance(self, reply: Reply) {
        let step = self.after(reply);
        lemma_bag_empty();
        match self {
            Resolution::Reading => {},
            Resolution::Looking(first) => {
                let inner = first.after(reply);
                first.lemma_books_balance(reply);
                match inner.next {
                    Next::Done(Ok(Some(resource))) => {
                        lemma_release_is_what_is_held(resource);
                        lemma_bag_concat(inner.releases, resource.spec_release());
                    },
                    _ => {},
                }
            },
        }
        let kept = match step.next {
            Next::Call(state, _) => state.holds(),
            Next::Done(output) => Self::yields(output),
        };
        assert(self.holds().add(self.gains(reply)) =~= bag(step.releases).add(kept));
    }

    fn resume(self, reply: Reply) -> (turn: Turn<Resolution, Option<Device>>) {
        match self {
            Resolution::Reading => match reply.device_id() {
                Ok(device_id) => {
                    let query = Filter::new().with_device_object().with_device_id(device_id);
                    let Turn { releases, next } = query.first();
                    match next {
                        Next::Call(first, call) => Turn {
                            releases,
                            next: Next::Call(Resolution::Looking(first), call),
                        },
                        Next::Done(_) => Turn { releases, next: Next::Done(None) },
                    }
                },
                Err(_) => Turn::done(None),
            },
            Resolution::Looking(first) => {
                let Turn { releases, next } = first.resume(reply);
                match next {
                    Next::Call(first, call) => Turn {
                        releases,
                        next: Next::Call(Resolution::Looking(first), call),
                    },
                    Next::Done(Ok(Some(Resource::Device(device)))) => Turn {
                        releases,
                        next: Next::Done(Some(device)),
                    },
                    Next::Done(Ok(Some(resource))) => {
                        let mut releases = releases;
                        let mut more = resource.release();
                        releases.append(&mut more);
                        Turn { releases, next: Next::Done(None) }
                    },
                    Next::Done(_) => Turn { releases, next: Next::Done(None) },
                }
            },
        }
    }
}

impl Accelerator {
    /// Starts to look for the device that this accelerator sits on: the
    /// first call reads the accelerator's device identifier.
    pub fn device(&self) -> (turn: Turn<Resolution, Option<Device>>)
        ensures
            turn@ == Effects::<Resolution, Option<Device>>::call(
                Resolution::Reading,
                Call::Read {
                    properties: self.properties.spec_raw(),
                    attribute: Attribute::DeviceId,
                },
            ),
    {
        let call = self.properties.read(Attribute::DeviceId);
        Turn::call(Resolution::Reading, call)
    }
}

} // verus!
