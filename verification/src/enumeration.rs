//! Enumeration: from a query to the resources that match it.
//!
//! The runtime takes no unbounded buffer, so the matches are fetched in two
//! phases: a probe that only counts them, and a fetch into a buffer of
//! exactly that capacity. The tokens that come back are then made into
//! resources one at a time, as far as the consumer asks for them.

use vstd::multiset::Multiset;
use vstd::prelude::*;
use crate::errors::Error;
use crate::filter::Filter;
use crate::native::{
    bag, lemma_bag_concat, lemma_bag_empty, lemma_bag_one, Call, Effects, Machine, Next, Release,
    Reply, Turn,
};
use crate::properties::{Compilation, Properties};
use crate::resource::{Classification, Resource};
use crate::token::{lemma_token_raw, Token};

verus! {

/// The smaller of two numbers.
pub open spec fn spec_min(a: int, b: int) -> int {
    if a <= b {
        a
    } else {
        b
    }
}

/// The first place at or after `from` and before `end` where `tokens`
/// holds a reference that is not null, or `end` if there is none.
pub open spec fn spec_first_token(tokens: Seq<usize>, from: int, end: int) -> int
    decreases end - from,
{
    if from >= end {
        end
    } else if tokens[from] != 0 {
        from
    } else {
        spec_first_token(tokens, from + 1, end)
    }
}

/// The releases of the references in `tokens` from `from` up to `end` that
/// are not null, in their order.
pub open spec fn spec_releases(tokens: Seq<usize>, from: int, end: int) -> Seq<Release>
    decreases end - from,
{
    if from >= end {
        Seq::empty()
    } else if tokens[from] != 0 {
        seq![Release::Token(tokens[from])] + spec_releases(tokens, from + 1, end)
    } else {
        spec_releases(tokens, from + 1, end)
    }
}

/// The tokens that an enumeration fetched and that nobody has looked at
/// yet.
#[derive(Debug, PartialEq, Eq)]
pub struct TokenIter {
    /// The buffer that the runtime filled.
    pub tokens: Vec<usize>,
    /// The entries before this place are the matches.
    pub limit: usize,
    /// The entries before this place have been looked at.
    pub cursor: usize,
}

impl TokenIter {
    /// The place where the matches end: `limit`, or the end of the buffer
    /// if that comes first.
    pub open spec fn spec_end(&self) -> int {
        spec_min(self.limit as int, self.tokens@.len() as int)
    }

    /// The number of entries that have not been looked at.
    pub open spec fn spec_remaining(&self) -> int {
        if self.cursor < self.spec_end() {
            self.spec_end() - self.cursor
        } else {
            0
        }
    }

    /// The number of entries that have not been looked at.
    pub fn remaining(&self) -> (count: usize)
        ensures
            count == self.spec_remaining(),
    {
        let end = if self.limit <= self.tokens.len() {
            self.limit
        } else {
            self.tokens.len()
        };
        if self.cursor < end {
            end - self.cursor
        } else {
            0
        }
    }

    /// What `next` returns.
    pub open spec fn spec_next(self) -> Effects<Scan, Option<(Resource, TokenIter)>> {
        let end = self.spec_end();
        let place = spec_first_token(self.tokens@, self.cursor as int, end);
        if place < end {
            Effects::call(
                Scan {
                    rest: TokenIter { cursor: (place + 1) as usize, ..self },
                    current: Classification::Deriving {
                        token: Token::spec_from_raw(self.tokens@[place]),
                    },
                },
                Call::GetProperties { token: self.tokens@[place] },
            )
        } else {
            Effects::done(None)
        }
    }

    /// Starts to make the next resource: skips the entries that are null,
    /// and asks for the property set of the first token that is not. Ends
    /// with nothing if no such token is left.
    pub fn next(self) -> (turn: Turn<Scan, Option<(Resource, TokenIter)>>)
        ensures
            turn@ == self.spec_next(),
    {
        let TokenIter { tokens, limit, cursor } = self;
        let end = if limit <= tokens.len() {
            limit
        } else {
            tokens.len()
        };
        let mut place: usize = cursor;
        while place < end && tokens[place] == 0
            invariant
                end <= tokens.len(),
                cursor <= place,
                spec_first_token(tokens@, place as int, end as int) == spec_first_token(
                    tokens@,
                    cursor as int,
                    end as int,
                ),
            decreases end - place,
        {
            place += 1;
        }
        if place < end {
            let token = Token::from_raw(tokens[place]);
            let call = token.get_properties();
            Turn::call(
                Scan {
                    rest: TokenIter { tokens, limit, cursor: place + 1 },
                    current: Classification::Deriving { token },
                },
                call,
            )
        } else {
            Turn::done(None)
        }
    }

    /// The native objects that these tokens are: one for each entry that
    /// has not been looked at and is not null.
    pub open spec fn spec_holds(self) -> Multiset<Release> {
        bag(self.spec_abandon())
    }

    /// What `abandon` returns.
    pub open spec fn spec_abandon(self) -> Seq<Release> {
        spec_releases(self.tokens@, self.cursor as int, self.spec_end())
    }

    /// Gives up the tokens that nobody has looked at: the native objects to
    /// destroy, one for each entry that is left and not null, in their
    /// order.
    pub fn abandon(self) -> (releases: Vec<Release>)
        ensures
            releases@ == self.spec_abandon(),
    {
        let TokenIter { tokens, limit, cursor } = self;
        let mut releases: Vec<Release> = Vec::new();
        let end = if limit <= tokens.len() {
            limit
        } else {
            tokens.len()
        };
        let mut place: usize = cursor;
        while place < end
            invariant
                end <= tokens.len(),
                cursor <= place,
                releases@ + spec_releases(tokens@, place as int, end as int) == spec_releases(
                    tokens@,
                    cursor as int,
                    end as int,
                ),
            decreases end - place,
        {
            if tokens[place] != 0 {
                let ghost before = releases@;
                let ghost here = seq![Release::Token(tokens@[place as int])];
                releases.push(Release::Token(tokens[place]));
                assert((before + here) + spec_releases(tokens@, place + 1, end as int)
                    == before + (here + spec_releases(tokens@, place + 1, end as int)));
            }
            place += 1;
        }
        assert(releases@ + Seq::<Release>::empty() == releases@);
        releases
    }
}

/// The making of the next resource from the fetched tokens, in progress.
///
/// A token that cannot be made into a resource is dropped without a word:
/// it is released, and the scan goes on with the token after it.
#[derive(Debug, PartialEq, Eq)]
pub struct Scan {
    /// The tokens after the one in work.
    pub rest: TokenIter,
    /// The token in work.
    pub current: Classification,
}

impl Scan {
    /// The native objects that the scan owns: the token in work with what
    /// has been made of it, and the tokens behind it.
    pub open spec fn spec_holds(self) -> Multiset<Release> {
        self.rest.spec_holds().add(self.current.holds())
    }

    /// The native objects that the result of a scan owns: those of the
    /// resource, and the tokens behind it.
    pub open spec fn spec_yields(output: Option<(Resource, TokenIter)>) -> Multiset<Release> {
        match output {
            Some((resource, rest)) => resource.spec_holds().add(rest.spec_holds()),
            None => Multiset::empty(),
        }
    }

    /// The native objects that are owned after a step of a scan.
    pub open spec fn spec_kept(next: Next<Scan, Option<(Resource, TokenIter)>>) -> Multiset<
        Release,
    > {
        match next {
            Next::Call(scan, _) => scan.spec_holds(),
            Next::Done(output) => Scan::spec_yields(output),
        }
    }
}

impl Machine for Scan {
    type Output = Option<(Resource, TokenIter)>;

    open spec fn after(self, reply: Reply) -> Effects<Scan, Option<(Resource, TokenIter)>> {
        let inner = self.current.after(reply);
        match inner.next {
            Next::Call(current, call) => Effects {
                releases: inner.releases,
                next: Next::Call(Scan { rest: self.rest, current }, call),
            },
            Next::Done(Ok(resource)) => Effects {
                releases: inner.releases,
                next: Next::Done(Some((resource, self.rest))),
            },
            Next::Done(Err(_)) => {
                let following = self.rest.spec_next();
                Effects { releases: inner.releases + following.releases, next: following.next }
            },
        }
    }

    open spec fn holds(self) -> Multiset<Release> {
        self.spec_holds()
    }

    open spec fn gains(self, reply: Reply) -> Multiset<Release> {
        self.current.gains(reply)
    }

    open spec fn yields(output: Option<(Resource, TokenIter)>) -> Multiset<Release> {
        Scan::spec_yields(output)
    }

    proof fn lemma_books_balance(self, reply: Reply) {
        let inner = self.current.after(reply);
        let step = self.after(reply);
        let rest = self.rest.spec_holds();
        self.current.lemma_books_balance(reply);
        match inner.next {
            Next::Call(current, call) => {
                assert(rest.add(self.current.holds()).add(self.current.gains(reply)) =~= rest.add(
                    self.current.holds().add(self.current.gains(reply)),
                ));
                assert(rest.add(bag(inner.releases).add(current.holds())) =~= bag(
                    inner.releases,
                ).add(rest.add(current.holds())));
            },
            Next::Done(Ok(resource)) => {
                assert(rest.add(self.current.holds()).add(self.current.gains(reply)) =~= rest.add(
                    self.current.holds().add(self.current.gains(reply)),
                ));
                assert(rest.add(bag(inner.releases).add(resource.spec_holds())) =~= bag(
                    inner.releases,
                ).add(resource.spec_holds().add(rest)));
            },
            Next::Done(Err(_)) => {
                let following = self.rest.spec_next();
                lemma_next_keeps_tokens(self.rest);
                lemma_bag_concat(inner.releases, following.releases);
                lemma_bag_empty();
                assert(Scan::spec_kept(following.next) == rest);
                assert(bag(step.releases) =~= bag(inner.releases));
                assert(rest.add(self.current.holds()).add(self.current.gains(reply)) =~= rest.add(
                    self.current.holds().add(self.current.gains(reply)),
                ));
                assert(rest.add(bag(inner.releases).add(Multiset::empty())) =~= bag(
                    inner.releases,
                ).add(rest));
            },
        }
        let kept = match step.next {
            Next::Call(state, _) => state.holds(),
            Next::Done(output) => Self::yields(output),
        };
        assert(self.holds().add(self.gains(reply)) =~= bag(step.releases).add(kept));
    }

    fn resume(self, reply: Reply) -> (turn: Turn<Scan, Option<(Resource, TokenIter)>>) {
        let Scan { rest, current } = self;
        let Turn { releases, next } = current.resume(reply);
        match next {
            Next::Call(current, call) => Turn {
                releases,
                next: Next::Call(Scan { rest, current }, call),
            },
            Next::Done(Ok(resource)) => Turn { releases, next: Next::Done(Some((resource, rest))) },
            Next::Done(Err(_)) => {
                let mut releases = releases;
                let mut following = rest.next();
                releases.append(&mut following.releases);
                Turn { releases, next: following.next }
            },
        }
    }
}

/// The two-phase fetch of the tokens that match a query, in progress.
///
/// The query is compiled into a property set. A probe with no capacity
/// learns the number of matches, where a failed probe counts as none. The
/// fetch then asks for that many. Its own count of matches decides how much
/// of the buffer is taken, but never more than was asked for. The property
/// set is released once the fetch is answered. A query that does not
/// compile, or a fetch that fails, ends the enumeration with that failure.
#[derive(Debug, PartialEq)]
pub enum Enumeration {
    /// Waiting for the property set to be built.
    Compiling(Compilation),
    /// Waiting for the number of matches.
    Probing { properties: Properties },
    /// Waiting for the tokens.
    Fetching { properties: Properties, capacity: u32 },
}

impl Enumeration {
    /// What a fetch of at most `capacity` tokens ends with when the runtime
    /// answers `reply`: the buffer with the matches that the reply counts,
    /// but no more than were asked for, or the failure that the reply stands
    /// for.
    pub open spec fn spec_taken(reply: Reply, capacity: u32) -> Result<TokenIter, Error> {
        match reply.spec_fetched() {
            Ok((tokens, total)) => Ok(
                TokenIter {
                    tokens,
                    limit: spec_min(total as int, capacity as int) as usize,
                    cursor: 0,
                },
            ),
            Err(error) => Err(error),
        }
    }
}

impl Machine for Enumeration {
    type Output = Result<TokenIter, Error>;

    open spec fn after(self, reply: Reply) -> Effects<Enumeration, Result<TokenIter, Error>> {
        match self {
            Enumeration::Compiling(compilation) => {
                let inner = compilation.after(reply);
                match inner.next {
                    Next::Call(compilation, call) => Effects {
                        releases: inner.releases,
                        next: Next::Call(Enumeration::Compiling(compilation), call),
                    },
                    Next::Done(Ok(properties)) => Effects {
                        releases: inner.releases,
                        next: Next::Call(
                            Enumeration::Probing { properties },
                            Call::Enumerate { properties: properties.spec_raw(), capacity: 0 },
                        ),
                    },
                    Next::Done(Err(error)) => Effects {
                        releases: inner.releases,
                        next: Next::Done(Err(error)),
                    },
                }
            },
            Enumeration::Probing { properties } => {
                let capacity = Properties::spec_num_matches(&reply);
                Effects::call(
                    Enumeration::Fetching { properties, capacity },
                    Call::Enumerate { properties: properties.spec_raw(), capacity },
                )
            },
            Enumeration::Fetching { properties, capacity } => Effects {
                releases: seq![Release::Properties(properties.spec_raw())],
                next: Next::Done(Enumeration::spec_taken(reply, capacity)),
            },
        }
    }

    open spec fn holds(self) -> Multiset<Release> {
        match self {
            Enumeration::Compiling(compilation) => compilation.holds(),
            Enumeration::Probing { properties } => properties.spec_holds(),
            Enumeration::Fetching { properties, capacity } => properties.spec_holds(),
        }
    }

    open spec fn gains(self, reply: Reply) -> Multiset<Release> {
        match self {
            Enumeration::Compiling(compilation) => compilation.gains(reply),
            Enumeration::Probing { properties } => Multiset::empty(),
            Enumeration::Fetching { properties, capacity } => Enumeration::yields(
                Enumeration::spec_taken(reply, capacity),
            ),
        }
    }

    open spec fn yields(output: Result<TokenIter, Error>) -> Multiset<Release> {
        match output {
            Ok(tokens) => tokens.spec_holds(),
            Err(_) => Multiset::empty(),
        }
    }

    proof fn lemma_books_balance(self, reply: Reply) {
        let step = self.after(reply);
        lemma_bag_empty();
        match self {
            Enumeration::Compiling(compilation) => {
                compilation.lemma_books_balance(reply);
            },
            Enumeration::Probing { properties } => {},
            Enumeration::Fetching { properties, capacity } => {
                lemma_bag_one(Release::Properties(properties.spec_raw()));
            },
        }
        let kept = match step.next {
            Next::Call(state, _) => state.holds(),
            Next::Done(output) => Self::yields(output),
        };
        assert(self.holds().add(self.gains(reply)) =~= bag(step.releases).add(kept));
    }

    fn resume(self, reply: Reply) -> (turn: Turn<Enumeration, Result<TokenIter, Error>>) {
        match self {
            Enumeration::Compiling(compilation) => {
                let Turn { releases, next } = compilation.resume(reply);
                match next {
                    Next::Call(compilation, call) => Turn {
                        releases,
                        next: Next::Call(Enumeration::Compiling(compilation), call),
                    },
                    Next::Done(Ok(properties)) => {
                        let call = properties.probe();
                        let state = Enumeration::Probing { properties };
                        Turn { releases, next: Next::Call(state, call) }
                    },
                    Next::Done(Err(error)) => Turn { releases, next: Next::Done(Err(error)) },
                }
            },
            Enumeration::Probing { properties } => {
                let capacity = match reply.total() {
                    Ok(total) => total,
                    Err(_) => 0,
                };
                let call = properties.enumerate(capacity);
                Turn::call(Enumeration::Fetching { properties, capacity }, call)
            },
            Enumeration::Fetching { properties, capacity } => {
                let mut releases: Vec<Release> = Vec::new();
                releases.push(properties.release());
                let taken = match reply.fetched() {
                    Ok((tokens, total)) => {
                        let limit = if total <= capacity {
                            total
                        } else {
                            capacity
                        };
                        Ok(TokenIter { tokens, limit: limit as usize, cursor: 0 })
                    },
                    Err(error) => Err(error),
                };
                Turn { releases, next: Next::Done(taken) }
            },
        }
    }
}

impl Filter {
    /// Starts to enumerate the resources that match this query: the first
    /// call makes the property set that the query is compiled into. The
    /// enumeration ends with the tokens that were fetched, or with the
    /// failure of the runtime that kept it from fetching any.
    pub fn into_iter(self) -> (turn: Turn<Enumeration, Result<TokenIter, Error>>)
        ensures
            turn@ == Effects::<Enumeration, Result<TokenIter, Error>>::call(
                Enumeration::Compiling(Compilation::Allocating { filter: self }),
                Call::NewProperties,
            ),
    {
        let state = Enumeration::Compiling(Compilation::Allocating { filter: self });
        Turn::call(state, Call::NewProperties)
    }
}

/// The search for the first resource that matches a query, in progress.
///
/// The matches are enumerated and made into resources until one is made.
/// The tokens behind it, which nobody will look at, are released. The
/// search ends with the resource, with nothing where the runtime found no
/// match or none could be made into a resource, or with the failure of the
/// runtime that kept the matches from being fetched.
#[derive(Debug, PartialEq)]
pub enum First {
    /// Waiting for the tokens to be fetched.
    Enumerating(Enumeration),
    /// Waiting for a token to be made into a resource.
    Scanning(Scan),
}

impl First {
    /// The native objects that the search owns.
    pub open spec fn spec_holds(self) -> Multiset<Release> {
        match self {
            First::Enumerating(enumeration) => enumeration.holds(),
            First::Scanning(scan) => scan.spec_holds(),
        }
    }

    /// The native objects that the result of the search owns.
    pub open spec fn spec_yields(output: Result<Option<Resource>, Error>) -> Multiset<Release> {
        match output {
            Ok(Some(resource)) => resource.spec_holds(),
            _ => Multiset::empty(),
        }
    }

    /// The native objects that are owned after a step of the search.
    pub open spec fn spec_kept(next: Next<First, Result<Option<Resource>, Error>>) -> Multiset<
        Release,
    > {
        match next {
            Next::Call(first, _) => first.spec_holds(),
            Next::Done(output) => First::spec_yields(output),
        }
    }

    /// The step of the search that follows the step `step` of its scan,
    /// after `releases`.
    pub open spec fn spec_settle(
        releases: Seq<Release>,
        step: Effects<Scan, Option<(Resource, TokenIter)>>,
    ) -> Effects<First, Result<Option<Resource>, Error>> {
        match step.next {
            Next::Call(scan, call) => Effects {
                releases: releases + step.releases,
                next: Next::Call(First::Scanning(scan), call),
            },
            Next::Done(Some((resource, rest))) => Effects {
                releases: releases + step.releases + rest.spec_abandon(),
                next: Next::Done(Ok(Some(resource))),
            },
            Next::Done(None) => Effects {
                releases: releases + step.releases,
                next: Next::Done(Ok(None)),
            },
        }
    }

    fn settle(
        releases: Vec<Release>,
        step: Turn<Scan, Option<(Resource, TokenIter)>>,
    ) -> (turn: Turn<First, Result<Option<Resource>, Error>>)
        ensures
            turn@ == First::spec_settle(releases@, step@),
    {
        let mut releases = releases;
        let Turn { releases: mut more, next } = step;
        releases.append(&mut more);
        match next {
            Next::Call(scan, call) => Turn {
                releases,
                next: Next::Call(First::Scanning(scan), call),
            },
            Next::Done(Some((resource, rest))) => {
                let mut abandoned = rest.abandon();
                releases.append(&mut abandoned);
                Turn { releases, next: Next::Done(Ok(Some(resource))) }
            },
            Next::Done(None) => Turn { releases, next: Next::Done(Ok(None)) },
        }
    }
}

impl Machine for First {
    type Output = Result<Option<Resource>, Error>;

    open spec fn after(self, reply: Reply) -> Effects<First, Result<Option<Resource>, Error>> {
        match self {
            First::Enumerating(enumeration) => {
                let inner = enumeration.after(reply);
                match inner.next {
                    Next::Call(enumeration, call) => Effects {
                        releases: inner.releases,
                        next: Next::Call(First::Enumerating(enumeration), call),
                    },
                    Next::Done(Ok(tokens)) => First::spec_settle(
                        inner.releases,
                        tokens.spec_next(),
                    ),
                    Next::Done(Err(error)) => Effects {
                        releases: inner.releases,
                        next: Next::Done(Err(error)),
                    },
                }
            },
            First::Scanning(scan) => First::spec_settle(Seq::empty(), scan.after(reply)),
        }
    }

    open spec fn holds(self) -> Multiset<Release> {
        self.spec_holds()
    }

    open spec fn gains(self, reply: Reply) -> Multiset<Release> {
        match self {
            First::Enumerating(enumeration) => enumeration.gains(reply),
            First::Scanning(scan) => scan.gains(reply),
        }
    }

    open spec fn yields(output: Result<Option<Resource>, Error>) -> Multiset<Release> {
        First::spec_yields(output)
    }

    proof fn lemma_books_balance(self, reply: Reply) {
        let step = self.after(reply);
        lemma_bag_empty();
        match self {
            First::Enumerating(enumeration) => {
                let inner = enumeration.after(reply);
                enumeration.lemma_books_balance(reply);
                match inner.next {
                    Next::Call(enumeration, call) => {},
                    Next::Done(Ok(tokens)) => {
                        lemma_next_keeps_tokens(tokens);
                        lemma_settle_balances(inner.releases, tokens.spec_next());
                    },
                    Next::Done(Err(_)) => {},
                }
            },
            First::Scanning(scan) => {
                scan.lemma_books_balance(reply);
                lemma_settle_balances(Seq::empty(), scan.after(reply));
            },
        }
        let kept = match step.next {
            Next::Call(state, _) => state.holds(),
            Next::Done(output) => Self::yields(output),
        };
        assert(self.holds().add(self.gains(reply)) =~= bag(step.releases).add(kept));
    }

    fn resume(self, reply: Reply) -> (turn: Turn<First, Result<Option<Resource>, Error>>) {
        match self {
            First::Enumerating(enumeration) => {
                let Turn { releases, next } = enumeration.resume(reply);
                match next {
                    Next::Call(enumeration, call) => Turn {
                        releases,
                        next: Next::Call(First::Enumerating(enumeration), call),
                    },
                    Next::Done(Ok(tokens)) => First::settle(releases, tokens.next()),
                    Next::Done(Err(error)) => Turn { releases, next: Next::Done(Err(error)) },
                }
            },
            First::Scanning(scan) => First::settle(Vec::new(), scan.resume(reply)),
        }
    }
}

impl First {
    /// The search for the first match of `filter`, before its first reply.
    pub open spec fn spec_new(filter: Filter) -> First {
        First::Enumerating(Enumeration::Compiling(Compilation::Allocating { filter }))
    }
}

impl Filter {
    /// What `first` returns.
    pub open spec fn spec_first(self) -> Effects<First, Result<Option<Resource>, Error>> {
        Effects::call(First::spec_new(self), Call::NewProperties)
    }

    /// Starts to look for the first resource that matches this query.
    pub fn first(self) -> (turn: Turn<First, Result<Option<Resource>, Error>>)
        ensures
            turn@ == self.spec_first(),
    {
        Turn::call(
            First::Enumerating(Enumeration::Compiling(Compilation::Allocating { filter: self })),
            Call::NewProperties,
        )
    }
}

/// The fetch asks for exactly as many tokens as the probe counted, and takes
/// no more than that from the buffer. Where the fetch reports the count of
/// the probe and the buffer holds that many entries, as it does while the
/// system stays as it was, exactly that many entries wait to be looked at.
/// A fetch that fails ends the enumeration with its own failure.
pub proof fn lemma_two_phase(properties: Properties, probe: Reply, fetch: Reply)
    ensures
        ({
            let count = Properties::spec_num_matches(&probe);
            let fetching = Enumeration::Fetching { properties, capacity: count };
            &&& (Enumeration::Probing { properties }).after(probe) == Effects::<
                Enumeration,
                Result<TokenIter, Error>,
            >::call(
                fetching,
                Call::Enumerate { properties: properties.spec_raw(), capacity: count },
            )
            &&& fetching.after(fetch).releases == seq![Release::Properties(properties.spec_raw())]
            &&& fetching.after(fetch).next matches Next::Done(taken)
            &&& match taken {
                Ok(tokens) => {
                    &&& fetch.spec_fetched() is Ok
                    &&& tokens.spec_remaining() <= count
                    &&& fetch.spec_total() == Ok::<u32, Error>(count) && tokens.tokens@.len()
                        >= count ==> tokens.spec_remaining() == count
                },
                Err(error) => fetch.spec_fetched() is Err && error == fetch.spec_error(),
            }
        }),
{
}

/// Looking for the next token passes over entries that are null and stops
/// at the first that is not: that entry becomes the token in work, and the
/// entries behind it are what is left. Where the search ends without a
/// token, every entry that was left is null.
pub proof fn lemma_next_takes_entries(tokens: Vec<usize>, limit: usize, cursor: usize)
    ensures
        ({
            let start = TokenIter { tokens, limit, cursor };
            let end = start.spec_end();
            match start.spec_next().next {
                Next::Call(scan, call) => exists|place: int|
                    {
                        &&& cursor <= place < end
                        &&& forall|skipped: int| cursor <= skipped < place ==> tokens@[skipped] == 0
                        &&& tokens@[place] != 0
                        &&& call == (Call::GetProperties { token: tokens@[place] })
                        &&& scan.current.spec_token().spec_raw() == tokens@[place]
                        &&& #[trigger] scan.rest.spec_remaining() == end - place - 1
                        &&& scan.rest == (TokenIter {
                            tokens,
                            limit,
                            cursor: (place + 1) as usize,
                        })
                    },
                Next::Done(found) => found is None && forall|place: int|
                    cursor <= place < end ==> tokens@[place] == 0,
            }
        }),
{
    broadcast use crate::token::lemma_token_raw;

    let start = TokenIter { tokens, limit, cursor };
    let end = start.spec_end();
    lemma_first_token(tokens@, cursor as int, end);
    let place = spec_first_token(tokens@, cursor as int, end);
    if place < end {
        let rest = TokenIter { tokens, limit, cursor: (place + 1) as usize };
        assert(rest.spec_remaining() == end - place - 1);
    }
}

/// The first token at or after a place is not null, and every entry that
/// is passed over before it is.
pub proof fn lemma_first_token(tokens: Seq<usize>, from: int, end: int)
    requires
        0 <= from,
    ensures
        from <= spec_first_token(tokens, from, end) || spec_first_token(tokens, from, end) == end,
        spec_first_token(tokens, from, end) <= end || from > end,
        from <= end ==> spec_first_token(tokens, from, end) <= end,
        spec_first_token(tokens, from, end) < end ==> tokens[spec_first_token(tokens, from, end)]
            != 0,
        forall|skipped: int|
            from <= skipped < spec_first_token(tokens, from, end) && skipped < end
                ==> tokens[skipped] == 0,
    decreases end - from,
{
    if from < end && tokens[from] == 0 {
        lemma_first_token(tokens, from + 1, end);
    }
}

/// One step of a scan deals with the token in work in one of three ways.
/// It stays in work, and the entries that are left stay as they are. Or it
/// is made into the resource that the scan yields, which owns it. Or it is
/// dropped: it is released, and the scan goes on to look for the next token
/// among the entries that are left.
pub proof fn lemma_classified_or_dropped(scan: Scan, reply: Reply)
    ensures
        ({
            let token = scan.current.spec_token();
            let step = scan.after(reply);
            match scan.current.after(reply).next {
                Next::Call(current, call) => step.next == Next::<
                    Scan,
                    Option<(Resource, TokenIter)>,
                >::Call(Scan { rest: scan.rest, current }, call) && current.spec_token() == token,
                Next::Done(Ok(resource)) => step.next == Next::<
                    Scan,
                    Option<(Resource, TokenIter)>,
                >::Done(Some((resource, scan.rest))) && resource.spec_token() == token,
                Next::Done(Err(_)) => step.releases.contains(Release::Token(token.spec_raw()))
                    && step.next == scan.rest.spec_next().next,
            }
        }),
{
    let inner = scan.current.after(reply);
    crate::resource::lemma_kind_invariant(scan.current, reply);
    match inner.next {
        Next::Call(current, call) => {},
        Next::Done(Ok(resource)) => {},
        Next::Done(Err(_)) => {
            let found = choose|place: int|
                0 <= place < inner.releases.len() && inner.releases[place] == Release::Token(
                    scan.current.spec_token().spec_raw(),
                );
            assert(scan.after(reply).releases[found] == Release::Token(
                scan.current.spec_token().spec_raw(),
            ));
        },
    }
}

/// The releases of the entries from a place on begin with the first token
/// at or after that place, and go on behind it.
pub proof fn lemma_releases_from(tokens: Seq<usize>, from: int, end: int)
    requires
        0 <= from,
    ensures
        ({
            let place = spec_first_token(tokens, from, end);
            spec_releases(tokens, from, end) == (if place < end {
                seq![Release::Token(tokens[place])] + spec_releases(tokens, place + 1, end)
            } else {
                Seq::empty()
            })
        }),
    decreases end - from,
{
    if from < end && tokens[from] == 0 {
        lemma_releases_from(tokens, from + 1, end);
    }
}

/// Looking for the next token releases nothing and loses nothing: the token
/// in work and the entries behind it are the objects that the entries
/// were.
pub proof fn lemma_next_keeps_tokens(tokens: TokenIter)
    ensures
        tokens.spec_next().releases == Seq::<Release>::empty(),
        Scan::spec_kept(tokens.spec_next().next) == tokens.spec_holds(),
{
    broadcast use lemma_token_raw;

    lemma_bag_empty();
    let buffer = tokens.tokens@;
    let end = tokens.spec_end();
    let place = spec_first_token(buffer, tokens.cursor as int, end);
    lemma_first_token(buffer, tokens.cursor as int, end);
    lemma_releases_from(buffer, tokens.cursor as int, end);
    if place < end {
        let rest = TokenIter { cursor: (place + 1) as usize, ..tokens };
        assert(rest.spec_end() == end);
        lemma_bag_one(Release::Token(buffer[place]));
        lemma_bag_concat(
            seq![Release::Token(buffer[place])],
            spec_releases(buffer, place + 1, end),
        );
        assert(Scan::spec_kept(tokens.spec_next().next) =~= tokens.spec_holds());
    }
}

/// Settling a step of the scan loses nothing: what the step released and
/// kept is what the search has released and keeps, where the tokens behind a
/// resource that was found count as released.
pub proof fn lemma_settle_balances(
    releases: Seq<Release>,
    step: Effects<Scan, Option<(Resource, TokenIter)>>,
)
    ensures
        bag(First::spec_settle(releases, step).releases).add(
            First::spec_kept(First::spec_settle(releases, step).next),
        ) == bag(releases).add(bag(step.releases)).add(Scan::spec_kept(step.next)),
{
    let settled = First::spec_settle(releases, step);
    lemma_bag_concat(releases, step.releases);
    lemma_bag_empty();
    match step.next {
        Next::Call(scan, call) => {},
        Next::Done(Some((resource, rest))) => {
            lemma_bag_concat(releases + step.releases, rest.spec_abandon());
        },
        Next::Done(None) => {},
    }
    assert(bag(settled.releases).add(First::spec_kept(settled.next)) =~= bag(releases).add(
        bag(step.releases),
    ).add(Scan::spec_kept(step.next)));
}

} // verus!
