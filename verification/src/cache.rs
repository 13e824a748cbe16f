//! A single-slot credential cache with single-flight refresh.
//!
//! The cache decides; it neither waits nor fetches. A caller asks with
//! [`CredentialCache::get`] and is told to use the cached value, to perform
//! the refresh, or to wait for the refresh in flight. Whoever performed the
//! refresh hands the outcome to [`CredentialCache::complete`], which stores a
//! new value and names every caller that the one outcome goes to.

use vstd::prelude::*;
use crate::error::RefreshError;

verus! {

/// A value that expires and that can be handed out in copies.
pub trait Credential: Sized {
    /// The instant, in seconds since the Unix epoch, from which the value is
    /// no longer valid.
    spec fn expires_at(&self) -> i64;

    fn expiry(&self) -> (at: i64)
        ensures
            at == self.expires_at(),
    ;

    fn duplicate(&self) -> (copy: Self)
        ensures
            copy == *self,
    ;
}

/// What the cache tells a caller to do next.
pub enum Step<T> {
    /// The cached value is valid: use this copy of it.
    Ready(T),
    /// The caller is elected refresher: obtain a new value, starting from this
    /// copy of the held one, and report the outcome with `complete`.
    Refresh(T),
    /// A refresh is in flight: wait for its outcome.
    Wait,
}

/// Who is released by a finished refresh, and the one outcome they all get.
pub struct Release<T> {
    /// The refresher, then the waiting callers in the order they arrived.
    pub callers: Vec<u64>,
    pub outcome: Result<T, RefreshError>,
}

/// The cache as a mathematical value.
pub struct CacheState<T> {
    /// The value last stored, or the seed while nothing was issued.
    pub held: T,
    /// Whether a refresh has ever succeeded.
    pub issued: bool,
    /// The caller performing the refresh in flight, if one is.
    pub refresher: Option<u64>,
    /// The callers waiting for that refresh, oldest first.
    pub parked: Seq<u64>,
}

impl<T: Credential> CacheState<T> {
    /// Nobody waits unless a refresh is in flight to release them.
    pub open spec fn well_formed(self) -> bool {
        self.refresher is None ==> self.parked.len() == 0
    }

    /// The credential in the slot: absent until the first refresh succeeds.
    pub open spec fn slot(self) -> Option<T> {
        if self.issued {
            Some(self.held)
        } else {
            None
        }
    }

    /// A credential is valid strictly before its expiry.
    pub open spec fn fresh_at(self, now: i64) -> bool {
        self.issued && now < self.held.expires_at()
    }

    /// No refresh is in flight and nobody waits.
    pub open spec fn idle(self) -> bool {
        self.refresher is None && self.parked.len() == 0
    }

    /// A cache that holds `seed` and has issued nothing yet.
    pub open spec fn empty(seed: T) -> Self {
        CacheState { held: seed, issued: false, refresher: None, parked: Seq::empty() }
    }

    /// What a caller asking at `now` is told.
    pub open spec fn answer(self, now: i64) -> Step<T> {
        if self.fresh_at(now) {
            Step::Ready(self.held)
        } else if self.refresher is Some {
            Step::Wait
        } else {
            Step::Refresh(self.held)
        }
    }

    /// The cache after `caller` asked at `now`.
    pub open spec fn after_get(self, caller: u64, now: i64) -> Self {
        if self.fresh_at(now) {
            self
        } else if self.refresher is Some {
            CacheState { parked: self.parked.push(caller), ..self }
        } else {
            CacheState { refresher: Some(caller), ..self }
        }
    }

    /// The cache after the callers asked one after the other, `callers[i]`
    /// at `times[i]`.
    pub open spec fn after_gets(self, callers: Seq<u64>, times: Seq<i64>) -> Self
        decreases callers.len(),
    {
        if callers.len() == 0 {
            self
        } else {
            self.after_gets(callers.drop_last(), times.drop_last()).after_get(
                callers.last(),
                times.last(),
            )
        }
    }

    /// What the `i`-th of those callers is told.
    pub open spec fn answer_in(self, callers: Seq<u64>, times: Seq<i64>, i: int) -> Step<T> {
        self.after_gets(callers.take(i), times.take(i)).answer(times[i])
    }

    /// Everyone the end of a refresh releases: the refresher, then the parked
    /// callers in the order they arrived.
    pub open spec fn released(self) -> Seq<u64> {
        match self.refresher {
            Some(refresher) => seq![refresher] + self.parked,
            None => self.parked,
        }
    }

    /// The cache after a refresh ended with `outcome`. A new value replaces
    /// the held one; a failure leaves the held one in place.
    pub open spec fn after_complete(self, outcome: Result<T, RefreshError>) -> Self {
        match outcome {
            Ok(value) => CacheState {
                held: value,
                issued: true,
                refresher: None,
                parked: Seq::empty(),
            },
            Err(_) => CacheState { refresher: None, parked: Seq::empty(), ..self },
        }
    }
}

/// A single slot for a credential, with the bookkeeping of one refresh.
pub struct CredentialCache<T: Credential> {
    held: T,
    issued: bool,
    refresher: Option<u64>,
    parked: Vec<u64>,
}

impl<T: Credential> View for CredentialCache<T> {
    type V = CacheState<T>;

    closed spec fn view(&self) -> CacheState<T> {
        CacheState {
            held: self.held,
            issued: self.issued,
            refresher: self.refresher,
            parked: self.parked@,
        }
    }
}

impl<T: Credential> CredentialCache<T> {
    /// An empty, idle cache. `seed` is what the first refresher starts from.
    pub fn new(seed: T) -> (cache: Self)
        ensures
            cache@ == CacheState::empty(seed),
    {
        CredentialCache { held: seed, issued: false, refresher: None, parked: Vec::new() }
    }

    /// Answers `caller`, who asks for the credential at `now`.
    ///
    /// A valid credential is handed out and nothing changes. Otherwise the
    /// first caller is elected refresher and every later one is parked until
    /// `complete`.
    pub fn get(&mut self, caller: u64, now: i64) -> (step: Step<T>)
        ensures
            step == old(self)@.answer(now),
            final(self)@ == old(self)@.after_get(caller, now),
    {
        if self.issued && now < self.held.expiry() {
            Step::Ready(self.held.duplicate())
        } else if self.refresher.is_some() {
            self.parked.push(caller);
            Step::Wait
        } else {
            self.refresher = Some(caller);
            Step::Refresh(self.held.duplicate())
        }
    }

    /// Ends the refresh in flight with `outcome`.
    ///
    /// A new credential is stored before anyone is released; a failure keeps
    /// what was held. The refresher and all parked callers are released with
    /// the same outcome, and the cache is idle again.
    pub fn complete(&mut self, outcome: Result<T, RefreshError>) -> (release: Release<T>)
        ensures
            release.callers@ == old(self)@.released(),
            release.outcome == outcome,
            final(self)@ == old(self)@.after_complete(outcome),
    {
        let mut callers: Vec<u64> = Vec::new();
        match self.refresher {
            Some(refresher) => {
                callers.push(refresher);
            },
            None => {},
        }
        callers.append(&mut self.parked);
        self.refresher = None;
        let outcome = match outcome {
            Ok(value) => {
                let copy = value.duplicate();
                self.held = value;
                self.issued = true;
                Ok(copy)
            },
            Err(e) => Err(e),
        };
        Release { callers, outcome }
    }

    /// The value last stored, or the seed while nothing was issued.
    pub fn held(&self) -> (value: &T)
        ensures
            *value == self@.held,
    {
        &self.held
    }

    /// Whether a refresh is in flight.
    pub fn is_refreshing(&self) -> (b: bool)
        ensures
            b == self@.refresher is Some,
    {
        self.refresher.is_some()
    }
}

/// The invariant of the slot: a new cache is well formed, and every answer
/// and every completion keeps it so. Hence at most one refresh is in flight
/// at any time, and whoever waits is released by its completion.
pub proof fn lemma_well_formed_is_kept<T: Credential>(
    s: CacheState<T>,
    caller: u64,
    now: i64,
    outcome: Result<T, RefreshError>,
)
    ensures
        CacheState::empty(s.held).well_formed(),
        s.well_formed() ==> s.after_get(caller, now).well_formed(),
        s.after_complete(outcome).idle(),
        s.answer(now) is Refresh ==> s.refresher is None && s.after_get(caller, now).refresher
            == Some(caller),
        s.refresher is Some ==> s.after_get(caller, now).refresher == s.refresher,
{
}

/// Whoever is not handed a credential is released by the next completion,
/// as the last of those it releases, and by no later one.
pub proof fn lemma_whoever_waits_is_released<T: Credential>(
    s: CacheState<T>,
    caller: u64,
    now: i64,
    outcome: Result<T, RefreshError>,
)
    requires
        s.well_formed(),
        !(s.answer(now) is Ready),
    ensures
        s.after_get(caller, now).released().len() == s.released().len() + 1,
        s.after_get(caller, now).released().last() == caller,
        s.after_get(caller, now).after_complete(outcome).released().len() == 0,
{
}

/// Callers in a row who find an idle cache without a valid credential: the
/// first becomes the refresher, the others are parked in the order they ask,
/// and the slot is not touched.
proof fn lemma_stale_callers_from_idle<T: Credential>(
    s: CacheState<T>,
    callers: Seq<u64>,
    times: Seq<i64>,
)
    requires
        s.idle(),
        callers.len() == times.len(),
        forall|i: int| 0 <= i < times.len() ==> !s.fresh_at(#[trigger] times[i]),
    ensures
        callers.len() == 0 ==> s.after_gets(callers, times) == s,
        callers.len() > 0 ==> s.after_gets(callers, times) == (CacheState {
            refresher: Some(callers[0]),
            parked: callers.drop_first(),
            ..s
        }),
    decreases callers.len(),
{
    if callers.len() > 0 {
        let before = s.after_gets(callers.drop_last(), times.drop_last());
        assert forall|i: int| 0 <= i < times.drop_last().len() implies !s.fresh_at(
            #[trigger] times.drop_last()[i],
        ) by {
            assert(times.drop_last()[i] == times[i]);
        }
        lemma_stale_callers_from_idle(s, callers.drop_last(), times.drop_last());
        assert(!s.fresh_at(times.last()));
        assert(before.fresh_at(times.last()) == s.fresh_at(times.last()));
        if callers.len() == 1 {
            assert(callers.drop_first() =~= Seq::<u64>::empty());
            assert(s.parked =~= Seq::<u64>::empty());
        } else {
            assert(callers.drop_last()[0] == callers[0]);
            assert(callers.drop_last().drop_first().push(callers.last()) =~= callers.drop_first());
        }
    }
}

/// Single flight: when `n` callers in a row find an idle cache without a
/// valid credential, the first of them is told to refresh and every other to
/// wait, so the refresh is performed once. Its completion releases exactly
/// those `n` callers, all with the one outcome, after the slot has taken the
/// new credential (or kept what it had, on failure).
pub proof fn lemma_single_flight<T: Credential>(
    s: CacheState<T>,
    callers: Seq<u64>,
    times: Seq<i64>,
    outcome: Result<T, RefreshError>,
)
    requires
        s.idle(),
        callers.len() == times.len(),
        callers.len() >= 1,
        forall|i: int| 0 <= i < times.len() ==> !s.fresh_at(#[trigger] times[i]),
    ensures
        s.answer_in(callers, times, 0) == Step::Refresh(s.held),
        forall|i: int|
            1 <= i < callers.len() ==> #[trigger] s.answer_in(callers, times, i) == Step::<T>::Wait,
        s.after_gets(callers, times).refresher == Some(callers[0]),
        s.after_gets(callers, times).released() == callers,
        s.after_gets(callers, times).after_complete(outcome).idle(),
        s.after_gets(callers, times).after_complete(outcome).slot() == match outcome {
            Ok(value) => Some(value),
            Err(_) => s.slot(),
        },
{
    lemma_stale_callers_from_idle(s, callers, times);
    assert(seq![callers[0]] + callers.drop_first() =~= callers);
    assert(callers.take(0) =~= Seq::<u64>::empty());
    assert forall|i: int| 1 <= i < callers.len() implies #[trigger] s.answer_in(callers, times, i)
        == Step::<T>::Wait by {
        assert forall|j: int| 0 <= j < times.take(i).len() implies !s.fresh_at(
            #[trigger] times.take(i)[j],
        ) by {
            assert(times.take(i)[j] == times[j]);
        }
        lemma_stale_callers_from_idle(s, callers.take(i), times.take(i));
    }
}

/// Cache hits are idempotent: callers who find a valid credential are all
/// handed that credential, none of them is told to refresh, and the cache is
/// left as it was.
pub proof fn lemma_hits_never_refresh<T: Credential>(
    s: CacheState<T>,
    callers: Seq<u64>,
    times: Seq<i64>,
)
    requires
        callers.len() == times.len(),
        forall|i: int| 0 <= i < times.len() ==> s.fresh_at(#[trigger] times[i]),
    ensures
        s.after_gets(callers, times) == s,
        forall|i: int|
            0 <= i < callers.len() ==> #[trigger] s.answer_in(callers, times, i) == Step::Ready(
                s.held,
            ),
    decreases callers.len(),
{
    if callers.len() > 0 {
        assert forall|i: int| 0 <= i < times.drop_last().len() implies s.fresh_at(
            #[trigger] times.drop_last()[i],
        ) by {
            assert(times.drop_last()[i] == times[i]);
        }
        lemma_hits_never_refresh(s, callers.drop_last(), times.drop_last());
        assert(s.fresh_at(times.last()));
    }
    assert forall|i: int| 0 <= i < callers.len() implies #[trigger] s.answer_in(callers, times, i)
        == Step::Ready(s.held) by {
        assert forall|j: int| 0 <= j < times.take(i).len() implies s.fresh_at(
            #[trigger] times.take(i)[j],
        ) by {
            assert(times.take(i)[j] == times[j]);
        }
        lemma_hits_never_refresh(s, callers.take(i), times.take(i));
        assert(s.fresh_at(times[i]));
    }
}

/// The expiry is exclusive: at the very instant a credential expires it is
/// no longer handed out, and an idle cache elects the caller to refresh it.
pub proof fn lemma_expired_at_expiry<T: Credential>(s: CacheState<T>, now: i64)
    requires
        now == s.held.expires_at(),
    ensures
        !s.fresh_at(now),
        !(s.answer(now) is Ready),
        s.refresher is None ==> s.answer(now) == Step::Refresh(s.held),
{
}

} // verus!
