//! The boundary to the native runtime, as data.
//!
//! Nothing here talks to the runtime. A `Call` names a native call that the
//! embedding program is to make, a `Reply` carries what the runtime answered,
//! and a `Release` names a native object to destroy, whose outcome nobody
//! waits for. A `Machine` is an operation in progress: it is resumed with the
//! reply to the call it asked for and answers with its next `Turn`.

use vstd::multiset::Multiset;
use vstd::prelude::*;
use vstd::seq_lib::{lemma_multiset_commutative, to_multiset_build, to_multiset_len};
use crate::attribute::{Attribute, Value};
use crate::errors::{Error, Status};

verus! {

/// A native call whose reply the caller waits for. Handles are given as the
/// raw references that the runtime handed out.
#[derive(Clone, Debug, PartialEq, Eq)]
pub enum Call {
    /// Make a fresh property set with no attribute set.
    NewProperties,
    /// Make the property set that describes the resource behind `token`.
    GetProperties { token: usize },
    /// Make a second property set with the attributes of the first.
    CloneProperties { properties: usize },
    /// Make a second token for the resource behind the first.
    CloneToken { token: usize },
    /// Read one attribute of a property set.
    Read { properties: usize, attribute: Attribute },
    /// Set one attribute of a property set.
    Write { properties: usize, value: Value },
    /// Count the resources that match a property set and store tokens for
    /// at most `capacity` of them.
    Enumerate { properties: usize, capacity: u32 },
}

/// A native object to destroy. A failure to do so is logged by whoever
/// performs it and changes nothing in this crate.
#[derive(Clone, Copy, Debug, PartialEq, Eq, Structural)]
pub enum Release {
    Properties(usize),
    Token(usize),
}

/// What a reply carries besides its status.
#[derive(Clone, Debug, PartialEq, Eq)]
pub enum Payload {
    /// Nothing: the answer to a `Write`, or to any call that failed.
    Empty,
    /// The property set that was made.
    Properties(usize),
    /// The token that was made.
    Token(usize),
    /// The attribute that was read.
    Value(Value),
    /// The buffer of tokens after an `Enumerate`, and the number of matches
    /// that the runtime reported.
    Matches { tokens: Vec<usize>, total: u32 },
}

/// The runtime's answer to a `Call`.
#[derive(Clone, Debug, PartialEq, Eq)]
pub struct Reply {
    pub status: Status,
    pub payload: Payload,
}

impl Reply {
    /// The error that a reply stands for when it does not carry what was
    /// asked for: its status if that reports a failure, and
    /// `Status::Exception` if it claims success.
    pub open spec fn spec_error(&self) -> Error {
        if self.status == Status::Success {
            Error { status: Status::Exception }
        } else {
            Error { status: self.status }
        }
    }

    /// The error that this reply stands for when it does not carry what
    /// was asked for.
    pub fn error(&self) -> (error: Error)
        ensures
            error == self.spec_error(),
    {
        match self.status {
            Status::Success => Error { status: Status::Exception },
            status => Error { status },
        }
    }

    /// Read as the answer to a call that made a property set: the new
    /// reference, if the call succeeded and the reference is not null.
    pub open spec fn spec_properties(&self) -> Result<usize, Error> {
        match self.payload {
            Payload::Properties(raw) if self.status == Status::Success && raw != 0 => Ok(raw),
            _ => Err(self.spec_error()),
        }
    }

    /// Read as the answer to a call that made a property set.
    pub fn properties(&self) -> (result: Result<usize, Error>)
        ensures
            result == self.spec_properties(),
    {
        match self.payload {
            Payload::Properties(raw) => {
                if self.status.is_ok() && raw != 0 {
                    Ok(raw)
                } else {
                    Err(self.error())
                }
            },
            _ => Err(self.error()),
        }
    }

    /// Read as the answer to a call that made a token: the new reference,
    /// if the call succeeded and the reference is not null.
    pub open spec fn spec_token(&self) -> Result<usize, Error> {
        match self.payload {
            Payload::Token(raw) if self.status == Status::Success && raw != 0 => Ok(raw),
            _ => Err(self.spec_error()),
        }
    }

    /// Read as the answer to a call that made a token.
    pub fn token(&self) -> (result: Result<usize, Error>)
        ensures
            result == self.spec_token(),
    {
        match self.payload {
            Payload::Token(raw) => {
                if self.status.is_ok() && raw != 0 {
                    Ok(raw)
                } else {
                    Err(self.error())
                }
            },
            _ => Err(self.error()),
        }
    }

    /// Read as the answer to a `Read` of `attribute`: the value, if the call
    /// succeeded and the value is one of that attribute.
    pub open spec fn spec_value(&self, attribute: Attribute) -> Result<Value, Error> {
        match self.payload {
            Payload::Value(value) if self.status == Status::Success && value.spec_attribute()
                == attribute => Ok(value),
            _ => Err(self.spec_error()),
        }
    }

    /// Read as the answer to a `Read` of `attribute`.
    pub fn value(self, attribute: Attribute) -> (result: Result<Value, Error>)
        ensures
            result == self.spec_value(attribute),
    {
        let error = self.error();
        let ok = self.status.is_ok();
        match self.payload {
            Payload::Value(value) => {
                if ok && value.attribute() == attribute {
                    Ok(value)
                } else {
                    Err(error)
                }
            },
            _ => Err(error),
        }
    }

    /// Read as the answer to a `Write`: success is the status alone.
    pub open spec fn spec_written(&self) -> Result<(), Error> {
        Error::spec_check(self.status)
    }

    /// Read as the answer to a `Write`.
    pub fn written(&self) -> (result: Result<(), Error>)
        ensures
            result == self.spec_written(),
    {
        Error::check(self.status)
    }

    /// Read as the answer to an `Enumerate`: the number of matches that the
    /// runtime reported, if the call succeeded.
    pub open spec fn spec_total(&self) -> Result<u32, Error> {
        match self.payload {
            Payload::Matches { tokens, total } if self.status == Status::Success => Ok(total),
            _ => Err(self.spec_error()),
        }
    }

    /// Read as the answer to an `Enumerate`: the number of matches.
    pub fn total(&self) -> (result: Result<u32, Error>)
        ensures
            result == self.spec_total(),
    {
        match &self.payload {
            Payload::Matches { tokens, total } => {
                if self.status.is_ok() {
                    Ok(*total)
                } else {
                    Err(self.error())
                }
            },
            _ => Err(self.error()),
        }
    }

    /// Read as the answer to an `Enumerate`: the buffer of tokens and the
    /// number of matches that the runtime reported, if the call succeeded.
    pub open spec fn spec_fetched(&self) -> Result<(Vec<usize>, u32), Error> {
        match self.payload {
            Payload::Matches { tokens, total } if self.status == Status::Success => Ok(
                (tokens, total),
            ),
            _ => Err(self.spec_error()),
        }
    }

    /// Read as the answer to an `Enumerate`: the buffer of tokens and the
    /// number of matches.
    pub fn fetched(self) -> (result: Result<(Vec<usize>, u32), Error>)
        ensures
            result == self.spec_fetched(),
    {
        let error = self.error();
        let ok = self.status.is_ok();
        match self.payload {
            Payload::Matches { tokens, total } => {
                if ok {
                    Ok((tokens, total))
                } else {
                    Err(error)
                }
            },
            _ => Err(error),
        }
    }

    /// Read as the answer to an `Enumerate`: the buffer of tokens, if the
    /// call succeeded.
    pub open spec fn spec_tokens(&self) -> Result<Vec<usize>, Error> {
        match self.payload {
            Payload::Matches { tokens, total } if self.status == Status::Success => Ok(tokens),
            _ => Err(self.spec_error()),
        }
    }

    /// Read as the answer to an `Enumerate`: the buffer of tokens.
    pub fn tokens(self) -> (result: Result<Vec<usize>, Error>)
        ensures
            result == self.spec_tokens(),
    {
        let error = self.error();
        let ok = self.status.is_ok();
        match self.payload {
            Payload::Matches { tokens, total } => {
                if ok {
                    Ok(tokens)
                } else {
                    Err(error)
                }
            },
            _ => Err(error),
        }
    }
}

/// How an operation goes on: with a native call, after which it is resumed
/// in state `S`, or with its result.
#[derive(Debug, PartialEq, Eq)]
pub enum Next<S, T> {
    Call(S, Call),
    Done(T),
}

/// One step of an operation: the native objects that it lets go of, to be
/// destroyed in this order, and how it goes on.
#[derive(Debug, PartialEq, Eq)]
pub struct Turn<S, T> {
    pub releases: Vec<Release>,
    pub next: Next<S, T>,
}

/// A `Turn` as a mathematical value.
pub struct Effects<S, T> {
    pub releases: Seq<Release>,
    pub next: Next<S, T>,
}

impl<S, T> View for Turn<S, T> {
    type V = Effects<S, T>;

    open spec fn view(&self) -> Effects<S, T> {
        Effects { releases: self.releases@, next: self.next }
    }
}

impl<S, T> Effects<S, T> {
    /// A step that releases nothing and asks for `call`.
    pub open spec fn call(state: S, call: Call) -> Effects<S, T> {
        Effects { releases: Seq::empty(), next: Next::Call(state, call) }
    }

    /// A step that releases nothing and ends with `output`.
    pub open spec fn done(output: T) -> Effects<S, T> {
        Effects { releases: Seq::empty(), next: Next::Done(output) }
    }
}

impl<S, T> Turn<S, T> {
    /// A step that releases nothing and asks for `call`.
    pub fn call(state: S, call: Call) -> (turn: Turn<S, T>)
        ensures
            turn@ == Effects::<S, T>::call(state, call),
    {
        Turn { releases: Vec::new(), next: Next::Call(state, call) }
    }

    /// A step that releases nothing and ends with `output`.
    pub fn done(output: T) -> (turn: Turn<S, T>)
        ensures
            turn@ == Effects::<S, T>::done(output),
    {
        Turn { releases: Vec::new(), next: Next::Done(output) }
    }
}

/// The native objects of `objects` as a collection without order, in which
/// an object counts as often as it occurs.
pub open spec fn bag(objects: Seq<Release>) -> Multiset<Release> {
    objects.to_multiset()
}

/// No objects make an empty collection.
pub proof fn lemma_bag_empty()
    ensures
        bag(Seq::<Release>::empty()) == Multiset::<Release>::empty(),
{
    broadcast use vstd::multiset::group_multiset_axioms;

    to_multiset_len(Seq::<Release>::empty());
    vstd::multiset::lemma_multiset_empty_len(bag(Seq::<Release>::empty()));
}

/// One object makes a collection of one.
pub proof fn lemma_bag_one(object: Release)
    ensures
        bag(seq![object]) == Multiset::singleton(object),
{
    broadcast use vstd::multiset::group_multiset_axioms;

    lemma_bag_empty();
    to_multiset_build(Seq::<Release>::empty(), object);
    assert(seq![object] =~= Seq::<Release>::empty().push(object));
    assert(bag(seq![object]) =~= Multiset::singleton(object));
}

/// Objects that follow one another make the collection of both.
pub proof fn lemma_bag_concat(first: Seq<Release>, second: Seq<Release>)
    ensures
        bag(first + second) == bag(first).add(bag(second)),
{
    lemma_multiset_commutative(first, second);
}

/// Two objects make a collection of two.
pub proof fn lemma_bag_two(first: Release, second: Release)
    ensures
        bag(seq![first, second]) == Multiset::singleton(first).add(Multiset::singleton(second)),
{
    lemma_bag_one(first);
    lemma_bag_one(second);
    lemma_bag_concat(seq![first], seq![second]);
    assert(seq![first, second] =~= seq![first] + seq![second]);
}

/// An operation that waits for the reply to a native call.
///
/// Besides what it does next, an operation says which native objects it
/// owns. Every step keeps the books: what the operation owned and what the
/// reply handed to it is, object for object, what the step releases and what
/// is owned afterwards. So no object is lost and none is released twice.
pub trait Machine: Sized {
    /// What the operation ends with.
    type Output;

    /// The step that follows when the runtime answers `reply`.
    spec fn after(self, reply: Reply) -> Effects<Self, Self::Output>;

    /// The native objects that the operation owns while it waits.
    spec fn holds(self) -> Multiset<Release>;

    /// The native objects that `reply` hands to the operation.
    spec fn gains(self, reply: Reply) -> Multiset<Release>;

    /// The native objects that the result of the operation owns.
    spec fn yields(output: Self::Output) -> Multiset<Release>;

    /// Takes the reply to the call that was asked for and makes the next
    /// step.
    fn resume(self, reply: Reply) -> (turn: Turn<Self, Self::Output>)
        ensures
            turn@ == self.after(reply),
    ;

    /// A step loses no native object and releases none twice.
    proof fn lemma_books_balance(self, reply: Reply)
        ensures
            self.holds().add(self.gains(reply)) == bag(self.after(reply).releases).add(
                match self.after(reply).next {
                    Next::Call(state, _) => state.holds(),
                    Next::Done(output) => Self::yields(output),
                },
            ),
    ;
}

/// The native objects that are owned after a step: by the operation while
/// it goes on, by its result once it has ended.
pub open spec fn kept<M: Machine>(next: Next<M, M::Output>) -> Multiset<Release> {
    match next {
        Next::Call(state, _) => state.holds(),
        Next::Done(output) => M::yields(output),
    }
}

/// Where an operation stands after it has taken `replies`, one after the
/// other, starting at the step `start`: the step that it has reached, with
/// everything that it has released on the way. Replies that come after the
/// operation has ended are not looked at.
pub open spec fn run<M: Machine>(start: Effects<M, M::Output>, replies: Seq<Reply>) -> Effects<
    M,
    M::Output,
>
    decreases replies.len(),
{
    if replies.len() == 0 {
        start
    } else {
        match start.next {
            Next::Call(state, _) => {
                let step = state.after(replies[0]);
                run(
                    Effects { releases: start.releases + step.releases, next: step.next },
                    replies.drop_first(),
                )
            },
            Next::Done(_) => start,
        }
    }
}

/// The calls that an operation asks for while it takes `replies`, starting
/// at the step `start`: one call before each reply, and the call that it
/// waits on at the end, if it has not ended.
pub open spec fn asked<M: Machine>(start: Effects<M, M::Output>, replies: Seq<Reply>) -> Seq<Call>
    decreases replies.len(),
{
    match start.next {
        Next::Call(state, call) => if replies.len() == 0 {
            seq![call]
        } else {
            seq![call] + asked(state.after(replies[0]), replies.drop_first())
        },
        Next::Done(_) => Seq::empty(),
    }
}

/// The native objects that the replies hand to an operation while it takes
/// `replies`, starting where `next` stands.
pub open spec fn gained<M: Machine>(next: Next<M, M::Output>, replies: Seq<Reply>) -> Multiset<
    Release,
>
    decreases replies.len(),
{
    if replies.len() == 0 {
        Multiset::empty()
    } else {
        match next {
            Next::Call(state, _) => state.gains(replies[0]).add(
                gained(state.after(replies[0]).next, replies.drop_first()),
            ),
            Next::Done(_) => Multiset::empty(),
        }
    }
}

/// Over any run, whatever the runtime answers, the books balance: the
/// native objects that were released or owned at the start, together with
/// those that the replies handed over, are, object for object, those that
/// have been released or are owned at the end. Every object that the runtime
/// hands out is thus released exactly once or owned by what the run has
/// reached, and nothing is released that was not handed out.
pub proof fn lemma_run_balances<M: Machine>(start: Effects<M, M::Output>, replies: Seq<Reply>)
    ensures
        bag(start.releases).add(kept(start.next)).add(gained(start.next, replies)) == bag(
            run(start, replies).releases,
        ).add(kept(run(start, replies).next)),
    decreases replies.len(),
{
    if replies.len() == 0 {
        assert(bag(start.releases).add(kept(start.next)).add(Multiset::empty()) =~= bag(
            start.releases,
        ).add(kept(start.next)));
    } else {
        match start.next {
            Next::Call(state, _) => {
                let step = state.after(replies[0]);
                let reached = Effects { releases: start.releases + step.releases, next: step.next };
                state.lemma_books_balance(replies[0]);
                lemma_bag_concat(start.releases, step.releases);
                lemma_run_balances(reached, replies.drop_first());
                assert(run(start, replies) == run(reached, replies.drop_first()));
                assert(kept(start.next) == state.holds());
                assert(kept(reached.next) == kept(step.next));
                assert(state.holds().add(state.gains(replies[0])) == bag(step.releases).add(
                    kept(step.next),
                ));
                assert(gained(start.next, replies) == state.gains(replies[0]).add(
                    gained(step.next, replies.drop_first()),
                ));
                assert(bag(reached.releases) == bag(start.releases).add(bag(step.releases)));
                let before = bag(start.releases);
                let later = gained(step.next, replies.drop_first());
                assert(before.add(state.holds()).add(state.gains(replies[0]).add(later))
                    =~= before.add(state.holds().add(state.gains(replies[0]))).add(later));
                assert(before.add(bag(step.releases).add(kept(step.next))).add(later)
                    =~= before.add(bag(step.releases)).add(kept(step.next)).add(later));
                assert(bag(start.releases).add(kept(start.next)).add(gained(start.next, replies))
                    =~= bag(reached.releases).add(kept(reached.next)).add(
                    gained(reached.next, replies.drop_first()),
                ));
            },
            Next::Done(_) => {
                assert(bag(start.releases).add(kept(start.next)).add(Multiset::empty()) =~= bag(
                    start.releases,
                ).add(kept(start.next)));
            },
        }
    }
}

} // verus!
