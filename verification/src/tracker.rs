use std::collections::HashSet;
use vstd::prelude::*;

verus! {

/// A tracker which makes sure that shared ownership objects are only
/// accounted for once.
///
/// An object is identified by its address, given as a plain integer.
pub trait GetSizeTracker {
    /// Whether a tracker in this state, asked about `addr`, may answer
    /// `answer` and be left as `next`. A tracker that does not say is
    /// allowed any answer and any next state.
    open spec fn tracks(&self, addr: usize, answer: bool, next: &Self) -> bool {
        true
    }

    /// Tracks an arbitrary object located at `addr`.
    ///
    /// Returns `true` if the object, as indexed by `addr`, has not yet been
    /// seen by this tracker. Otherwise it returns `false`.
    fn track(&mut self, addr: usize) -> (r: bool)
        ensures
            old(self).tracks(addr, r, &*final(self)),
    ;
}

impl<T: GetSizeTracker> GetSizeTracker for &mut T {
    /// A borrowed tracker tracks as the tracker it borrows.
    open spec fn tracks(&self, addr: usize, answer: bool, next: &&mut T) -> bool {
        (**self).tracks(addr, answer, &**next)
    }

    fn track(&mut self, addr: usize) -> (r: bool) {
        (**self).track(addr)
    }
}

impl<T: GetSizeTracker> GetSizeTracker for Box<T> {
    /// A boxed tracker tracks as the tracker in the box.
    open spec fn tracks(&self, addr: usize, answer: bool, next: &Box<T>) -> bool {
        (**self).tracks(addr, answer, &**next)
    }

    fn track(&mut self, addr: usize) -> (r: bool) {
        (**self).track(addr)
    }
}

/// The answer that a tracker which has seen the addresses in `seen` gives
/// when it is asked about `addr`: whether `addr` is new to it.
pub open spec fn first_sighting(seen: Set<usize>, addr: usize) -> bool {
    !seen.contains(addr)
}

/// The addresses that a standard tracker has seen when it had seen `seen`
/// and then tracked `addrs` in turn.
pub open spec fn seen_after(seen: Set<usize>, addrs: Seq<usize>) -> Set<usize>
    decreases addrs.len(),
{
    if addrs.len() == 0 {
        seen
    } else {
        seen_after(seen, addrs.drop_last()).insert(addrs.last())
    }
}

/// The answers that a standard tracker which had seen `seen` gives when it
/// tracks `addrs` in turn, one answer per address.
pub open spec fn answers_after(seen: Set<usize>, addrs: Seq<usize>) -> Seq<bool>
    decreases addrs.len(),
{
    if addrs.len() == 0 {
        Seq::empty()
    } else {
        answers_after(seen, addrs.drop_last()).push(
            first_sighting(seen_after(seen, addrs.drop_last()), addrs.last()),
        )
    }
}

/// How many of `answers` are `true`.
pub open spec fn count_true(answers: Seq<bool>) -> nat
    decreases answers.len(),
{
    if answers.len() == 0 {
        0
    } else {
        count_true(answers.drop_last()) + if answers.last() {
            1nat
        } else {
            0nat
        }
    }
}

/// Tracking an address that was just tracked is answered `false`: once
/// seen, an object is not counted again.
pub proof fn lemma_tracked_address_is_seen(seen: Set<usize>, addr: usize)
    ensures
        !first_sighting(seen.insert(addr), addr),
{
}

/// Tracking one address leaves the answer for every other address as it
/// was.
pub proof fn lemma_tracking_is_per_address(seen: Set<usize>, addr: usize, other: usize)
    requires
        addr != other,
    ensures
        first_sighting(seen.insert(addr), other) == first_sighting(seen, other),
{
}

/// A tracker that has seen nothing, such as a new or a cleared one,
/// answers `true` for every address.
pub proof fn lemma_fresh_tracker_sees_nothing(addr: usize)
    ensures
        first_sighting(Set::<usize>::empty(), addr),
{
}

/// What a standard tracker has seen after tracking `addrs` in turn: what it
/// had seen, and the addresses tracked.
pub proof fn lemma_seen_after(seen: Set<usize>, addrs: Seq<usize>)
    ensures
        seen_after(seen, addrs) == seen + addrs.to_set(),
        answers_after(seen, addrs).len() == addrs.len(),
    decreases addrs.len(),
{
    if addrs.len() > 0 {
        lemma_seen_after(seen, addrs.drop_last());
        assert(addrs.to_set() =~= addrs.drop_last().to_set().insert(addrs.last())) by {
            assert forall|a: usize| addrs.to_set().contains(a) implies addrs.drop_last().to_set().insert(
                a,
            ).contains(a) && (a == addrs.last() || addrs.drop_last().to_set().contains(a)) by {
                let k = choose|k: int| 0 <= k < addrs.len() && addrs[k] == a;
                if k < addrs.len() - 1 {
                    assert(addrs.drop_last()[k] == a);
                }
            }
            assert forall|a: usize| addrs.drop_last().to_set().contains(a) implies addrs.to_set().contains(a) by {
                let k = choose|k: int| 0 <= k < addrs.len() - 1 && addrs.drop_last()[k] == a;
                assert(addrs[k] == a);
            }
            assert(addrs[addrs.len() - 1] == addrs.last());
        }
    } else {
        assert(addrs.to_set() =~= Set::<usize>::empty());
    }
}

/// Tracking addresses in turn, the answer for each is `true` exactly when
/// its address was neither seen before nor tracked earlier in the turn.
pub proof fn lemma_answers_after(seen: Set<usize>, addrs: Seq<usize>, i: int)
    requires
        0 <= i < addrs.len(),
    ensures
        answers_after(seen, addrs)[i] == (!seen.contains(addrs[i]) && forall|j: int|
            0 <= j < i ==> addrs[j] != addrs[i]),
    decreases addrs.len(),
{
    lemma_seen_after(seen, addrs.drop_last());
    if i < addrs.len() - 1 {
        lemma_answers_after(seen, addrs.drop_last(), i);
        assert forall|j: int| 0 <= j < i implies addrs.drop_last()[j] == addrs[j] by {}
    } else {
        let prefix = addrs.drop_last();
        assert(seen_after(seen, prefix) == seen + prefix.to_set());
        if exists|j: int| 0 <= j < i && addrs[j] == addrs[i] {
            let j = choose|j: int| 0 <= j < i && addrs[j] == addrs[i];
            assert(prefix[j] == addrs[i]);
            assert(prefix.to_set().contains(addrs[i]));
        }
        if prefix.to_set().contains(addrs[i]) {
            let j = choose|j: int| 0 <= j < prefix.len() && prefix[j] == addrs[i];
            assert(addrs[j] == addrs[i]);
        }
    }
}

/// Objects are counted once: a standard tracker that starts from what it
/// had seen answers `true` to as many of the addresses tracked in turn as
/// there are addresses among them that it had not seen.
pub proof fn lemma_each_object_counted_once(seen: Set<usize>, addrs: Seq<usize>)
    requires
        seen.finite(),
    ensures
        seen_after(seen, addrs).finite(),
        count_true(answers_after(seen, addrs)) == seen_after(seen, addrs).len() - seen.len(),
    decreases addrs.len(),
{
    if addrs.len() > 0 {
        let prefix = addrs.drop_last();
        lemma_each_object_counted_once(seen, prefix);
        lemma_seen_after(seen, prefix);
        let before = seen_after(seen, prefix);
        assert(seen.subset_of(before));
        vstd::set_lib::lemma_len_subset(seen, before);
        assert(answers_after(seen, addrs).drop_last() == answers_after(seen, prefix));
    }
}

/// A simple standard tracker which can be used to track shared ownership
/// references.
#[derive(Debug)]
pub struct StandardTracker {
    inner: HashSet<usize>,
}

impl View for StandardTracker {
    type V = Set<usize>;

    /// The addresses that the tracker has seen.
    closed spec fn view(&self) -> Set<usize> {
        self.inner@
    }
}

impl Default for StandardTracker {
    fn default() -> (r: Self)
        ensures
            r@ == Set::<usize>::empty(),
    {
        StandardTracker { inner: HashSet::new() }
    }
}

impl StandardTracker {
    /// Creates a tracker that has seen nothing yet.
    #[must_use]
    pub fn new() -> (r: Self)
        ensures
            r@ == Set::<usize>::empty(),
    {
        Self::default()
    }

    /// Forgets every address seen so far.
    pub fn clear(&mut self)
        ensures
            final(self)@ == Set::<usize>::empty(),
    {
        self.inner.clear();
    }
}

/// A run of calls of `track` on a standard tracker follows the model:
/// where each state in `states` is the one before it after tracking the
/// next address of `addrs` and answering the next of `answers` (as each
/// call of `track` ensures), the answers are `answers_after` and the last
/// state has seen `seen_after` the first.
pub proof fn lemma_run_follows_model(
    states: Seq<StandardTracker>,
    addrs: Seq<usize>,
    answers: Seq<bool>,
)
    requires
        states.len() == addrs.len() + 1,
        answers.len() == addrs.len(),
        forall|i: int|
            0 <= i < addrs.len() ==> #[trigger] states[i].tracks(
                addrs[i],
                answers[i],
                &states[i + 1],
            ),
    ensures
        answers == answers_after(states[0]@, addrs),
        states.last()@ == seen_after(states[0]@, addrs),
    decreases addrs.len(),
{
    if addrs.len() > 0 {
        let n = addrs.len() - 1;
        let prefix_states = states.take(n + 1);
        assert forall|i: int| 0 <= i < n implies #[trigger] prefix_states[i].tracks(
            addrs.drop_last()[i],
            answers.drop_last()[i],
            &prefix_states[i + 1],
        ) by {
            assert(states[i].tracks(addrs[i], answers[i], &states[i + 1]));
        }
        lemma_run_follows_model(prefix_states, addrs.drop_last(), answers.drop_last());
        assert(states[n].tracks(addrs[n], answers[n], &states[n + 1]));
        assert(prefix_states.last() == states[n]);
        assert(answers =~= answers.drop_last().push(answers[n]));
    }
}

impl GetSizeTracker for StandardTracker {
    /// A standard tracker answers whether `addr` is new to it, and adds it
    /// to what it has seen.
    open spec fn tracks(&self, addr: usize, answer: bool, next: &StandardTracker) -> bool {
        &&& answer == first_sighting(self@, addr)
        &&& next@ == self@.insert(addr)
    }

    fn track(&mut self, addr: usize) -> (r: bool)
        ensures
            r == first_sighting(old(self)@, addr),
            final(self)@ == old(self)@.insert(addr),
    {
        self.inner.insert(addr)
    }
}

/// A pseudo tracker which does not track anything.
#[derive(Debug, Clone, Copy)]
pub struct NoTracker {
    answer: bool,
}

impl Default for NoTracker {
    fn default() -> (r: Self)
        ensures
            r.answer() == false,
    {
        NoTracker { answer: false }
    }
}

impl NoTracker {
    /// The answer which this pseudo tracker always gives.
    pub closed spec fn answer_spec(&self) -> bool {
        self.answer
    }

    /// Creates a new pseudo tracker, which will always return the given
    /// `answer`.
    #[must_use]
    pub fn new(answer: bool) -> (r: Self)
        ensures
            r.answer_spec() == answer,
    {
        Self { answer }
    }

    /// Get the answer which will always be returned by this pseudo tracker.
    #[must_use]
    #[verifier::when_used_as_spec(answer_spec)]
    pub fn answer(&self) -> (r: bool)
        ensures
            r == self.answer_spec(),
    {
        self.answer
    }

    /// Changes the answer which will always be returned by this pseudo
    /// tracker.
    pub fn set_answer(&mut self, answer: bool)
        ensures
            final(self).answer_spec() == answer,
    {
        self.answer = answer;
    }
}

impl GetSizeTracker for NoTracker {
    /// A pseudo tracker gives its answer and stays as it is.
    open spec fn tracks(&self, addr: usize, answer: bool, next: &NoTracker) -> bool {
        &&& answer == self.answer_spec()
        &&& *next == *self
    }

    fn track(&mut self, addr: usize) -> (r: bool)
        ensures
            r == old(self).answer_spec(),
            *final(self) == *old(self),
    {
        self.answer
    }
}

} // verus!
