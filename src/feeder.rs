use vstd::multiset::Multiset;
use vstd::prelude::*;

use crate::message::{Message, MessageData, MessageInput};

verus! {

/// Envelopes that topping up dispatches when `backlog` inputs wait, `in_flight`
/// envelopes are out and the budget is `budget`: as many as fit under the
/// budget, no more than there are inputs.
pub open spec fn top_up_count(backlog: nat, in_flight: nat, budget: nat) -> nat {
    if in_flight >= budget {
        0
    } else if backlog <= (budget - in_flight) as nat {
        backlog
    } else {
        (budget - in_flight) as nat
    }
}

/// Backlog length and in-flight count once a step has dispatched what it
/// dispatches before collecting, starting from `backlog` and `in_flight`.
///
/// With an empty backlog nothing is dispatched. With nothing in flight the
/// last input goes out in a fresh envelope and the budget is topped up. Else
/// the last input is held back for recycling and the budget is topped up.
pub open spec fn begin_counts(backlog: nat, in_flight: nat, budget: nat) -> (nat, nat) {
    if backlog == 0 {
        (0, in_flight)
    } else if in_flight == 0 {
        let t = top_up_count((backlog - 1) as nat, 1, budget);
        ((backlog - 1 - t) as nat, 1 + t)
    } else {
        let t = top_up_count((backlog - 1) as nat, in_flight, budget);
        ((backlog - 1 - t) as nat, in_flight + t)
    }
}

/// Backlog length, in-flight count and number of freshly built envelopes
/// after one whole step that starts from `backlog` and `in_flight`.
///
/// The collected envelope is discarded when the backlog was empty; discarded
/// and the budget topped up again when nothing was in flight; otherwise it is
/// recycled with the held input and dispatched again.
pub open spec fn step_counts(backlog: nat, in_flight: nat, budget: nat) -> (nat, nat, nat) {
    let (b1, f1) = begin_counts(backlog, in_flight, budget);
    if backlog == 0 {
        (0, (in_flight - 1) as nat, 0)
    } else if in_flight == 0 {
        let t = top_up_count(b1, (f1 - 1) as nat, budget);
        ((b1 - t) as nat, (f1 - 1 + t) as nat, f1 + t)
    } else {
        (b1, f1, (f1 - in_flight) as nat)
    }
}

/// Backlog length and in-flight count after `steps` whole steps of a drain
/// that starts from `backlog` and `in_flight`; a drain stops when nothing is pending.
pub open spec fn drain_state(backlog: nat, in_flight: nat, budget: nat, steps: nat) -> (nat, nat)
    decreases steps,
{
    if steps == 0 || backlog + in_flight == 0 {
        (backlog, in_flight)
    } else {
        let (b, f, _) = step_counts(backlog, in_flight, budget);
        drain_state(b, f, budget, (steps - 1) as nat)
    }
}

/// Results a drain delivers, one per step, until nothing is pending.
pub open spec fn drain_results(backlog: nat, in_flight: nat, budget: nat) -> nat
    decreases backlog + in_flight,
{
    if backlog + in_flight == 0 {
        0
    } else {
        let (b, f, _) = step_counts(backlog, in_flight, budget);
        if b + f < backlog + in_flight {
            1 + drain_results(b, f, budget)
        } else {
            1
        }
    }
}

/// Envelopes a drain builds, summed over its steps.
pub open spec fn drain_built(backlog: nat, in_flight: nat, budget: nat) -> nat
    decreases backlog + in_flight,
{
    if backlog + in_flight == 0 {
        0
    } else {
        let (b, f, n) = step_counts(backlog, in_flight, budget);
        if b + f < backlog + in_flight {
            n + drain_built(b, f, budget)
        } else {
            n
        }
    }
}

/// A whole step delivers exactly one result: it leaves one fewer result pending.
pub proof fn lemma_step_delivers_one(backlog: nat, in_flight: nat, budget: nat)
    requires
        backlog + in_flight > 0,
    ensures
        step_counts(backlog, in_flight, budget).0 + step_counts(backlog, in_flight, budget).1 + 1
            == backlog + in_flight,
{
}

/// Conservation: draining `backlog` inputs and `in_flight` envelopes yields
/// exactly one result for each of them, whatever the budget.
pub proof fn lemma_drain_delivers_all(backlog: nat, in_flight: nat, budget: nat)
    ensures
        drain_results(backlog, in_flight, budget) == backlog + in_flight,
    decreases backlog + in_flight,
{
    if backlog + in_flight > 0 {
        lemma_step_delivers_one(backlog, in_flight, budget);
        let (b, f, _) = step_counts(backlog, in_flight, budget);
        lemma_drain_delivers_all(b, f, budget);
    }
}

/// Bounded in-flight: at every point of a drain that starts within the budget,
/// after a step's first dispatches as well as after whole steps, no more
/// envelopes are out than the budget allows.
pub proof fn lemma_drain_within_budget(backlog: nat, in_flight: nat, budget: nat, steps: nat)
    requires
        budget >= 1,
        in_flight <= budget,
    ensures
        drain_state(backlog, in_flight, budget, steps).1 <= budget,
        ({
            let (b, f) = drain_state(backlog, in_flight, budget, steps);
            begin_counts(b, f, budget).1 <= budget
        }),
    decreases steps,
{
    if steps > 0 && backlog + in_flight > 0 {
        let (b, f, _) = step_counts(backlog, in_flight, budget);
        lemma_drain_within_budget(b, f, budget, (steps - 1) as nat);
    }
}

/// Recycling efficiency: a drain that starts within the budget builds at most
/// one envelope more than the budget, however many inputs wait; none once the
/// backlog is empty, and at most the free room in the budget while envelopes are out.
pub proof fn lemma_drain_builds_few(backlog: nat, in_flight: nat, budget: nat)
    requires
        budget >= 1,
        in_flight <= budget,
    ensures
        drain_built(backlog, in_flight, budget) <= budget + 1,
        backlog == 0 ==> drain_built(backlog, in_flight, budget) == 0,
        in_flight >= 1 ==> drain_built(backlog, in_flight, budget) <= budget - in_flight,
    decreases backlog + in_flight,
{
    if backlog + in_flight > 0 {
        let (b, f, _) = step_counts(backlog, in_flight, budget);
        lemma_drain_builds_few(b, f, budget);
    }
}

/// Envelope `i` of `batch` holds the input `backlog[backlog.len() - 1 - skip - i]`:
/// the inputs taken one by one from the end of `backlog`, after `skip` inputs
/// taken before them, in the order they were taken.
pub open spec fn carries_from_end<T, R, S>(batch: Seq<S>, backlog: Seq<R>, skip: nat) -> bool where
    T: MessageData,
    R: MessageInput<T>,
    S: Message<T, R>,
 {
    forall|i: int|
        0 <= i < batch.len() ==> #[trigger] batch[i].input_spec() == backlog[backlog.len() - 1
            - skip - i]
}

/// Moving the last waiting input to the dispatched ones, or taking it out of
/// the waiting ones, keeps the multiset of inputs.
proof fn lemma_take_last<A>(sent: Seq<A>, waiting: Seq<A>)
    requires
        waiting.len() > 0,
    ensures
        sent.push(waiting.last()).to_multiset().add(waiting.drop_last().to_multiset())
            == sent.to_multiset().add(waiting.to_multiset()),
        waiting.drop_last().to_multiset().insert(waiting.last()) == waiting.to_multiset(),
{
    broadcast use vstd::seq_lib::group_to_multiset_ensures, vstd::multiset::group_multiset_axioms;

    assert(waiting =~= waiting.drop_last().push(waiting.last()));
    assert(waiting.drop_last().to_multiset().insert(waiting.last()) =~= waiting.to_multiset());
    assert(sent.push(waiting.last()).to_multiset().add(waiting.drop_last().to_multiset())
        =~= sent.to_multiset().add(waiting.to_multiset()));
}

/// An empty sequence holds no input.
proof fn lemma_empty_multiset<A>(s: Seq<A>)
    requires
        s.len() == 0,
    ensures
        s.to_multiset() == Multiset::<A>::empty(),
{
    broadcast use vstd::seq_lib::group_to_multiset_ensures, vstd::multiset::group_multiset_axioms;

    assert forall|a: A| s.to_multiset().count(a) == 0 by {
        assert(!s.contains(a));
    }
    assert(s.to_multiset() =~= Multiset::<A>::empty());
}

/// What the coordinator found when it tried to send on the dispatch queue or
/// to receive from the collection queue.
#[derive(Debug, Clone, Copy, PartialEq, Eq, Structural)]
pub enum QueueOutcome {
    /// The envelope went through.
    Done,
    /// The dispatch queue is full, or the collection queue is empty.
    Busy,
    /// The queue's other end is gone.
    Closed,
}

/// What the coordinator does after a try on one of its queues.
#[derive(Debug, Clone, Copy, PartialEq, Eq, Structural)]
pub enum QueueAction {
    /// Go on with the step.
    Proceed,
    /// Yield, then try again.
    Retry,
    /// The dispatch queue is full: take one finished envelope, if there is
    /// one, off the collection queue and stash it with `stash_collected`, so
    /// that workers waiting to hand in results can go on; then yield and try again.
    Relieve,
    /// Stop: the coordinator alone closes the queues, so a closed one is a protocol violation.
    Fatal,
}

/// The coordinator's action after a try to send on the dispatch queue.
pub open spec fn dispatch_transition(outcome: QueueOutcome) -> QueueAction {
    match outcome {
        QueueOutcome::Done => QueueAction::Proceed,
        QueueOutcome::Busy => QueueAction::Relieve,
        QueueOutcome::Closed => QueueAction::Fatal,
    }
}

/// The coordinator's action after a try to receive from the collection queue.
pub open spec fn collect_transition(outcome: QueueOutcome) -> QueueAction {
    match outcome {
        QueueOutcome::Done => QueueAction::Proceed,
        QueueOutcome::Busy => QueueAction::Retry,
        QueueOutcome::Closed => QueueAction::Fatal,
    }
}

/// Decides what the coordinator does after a try to send on the dispatch queue.
pub fn on_dispatch(outcome: QueueOutcome) -> (r: QueueAction)
    ensures
        r == dispatch_transition(outcome),
{
    match outcome {
        QueueOutcome::Done => QueueAction::Proceed,
        QueueOutcome::Busy => QueueAction::Relieve,
        QueueOutcome::Closed => QueueAction::Fatal,
    }
}

/// Decides what the coordinator does after a try to receive from the collection queue.
pub fn on_collect(outcome: QueueOutcome) -> (r: QueueAction)
    ensures
        r == collect_transition(outcome),
{
    match outcome {
        QueueOutcome::Done => QueueAction::Proceed,
        QueueOutcome::Busy => QueueAction::Retry,
        QueueOutcome::Closed => QueueAction::Fatal,
    }
}

/// Where the coordinator stands inside one step.
enum Stage<R> {
    /// Between steps.
    Idle,
    /// The backlog was empty: the collected envelope is discarded.
    Draining,
    /// Nothing was in flight: the collected envelope is discarded and the budget refilled.
    Bootstrapping,
    /// The collected envelope is recycled with this input.
    Recycling(R),
}

/// What the driver of the queues does at the start of a step.
pub enum FeederAction<S> {
    /// Nothing is pending anywhere: the iteration has ended.
    Finished,
    /// Send these envelopes on the dispatch queue, in order, then collect one
    /// envelope from the collection queue and hand it to `accept_collected`.
    Collect(Vec<S>),
}

/// What a step ends with: the result to hand to the caller, and the envelopes
/// to send on the dispatch queue, in order, before the next step.
pub struct Delivery<T, S> {
    pub data: T,
    pub dispatch: Vec<S>,
}

/// The coordinator: the backlog of inputs, the count of envelopes in flight,
/// and the recycling of collected envelopes under a fixed budget.
pub struct FeederRecycler<T, R, S> where
    T: MessageData,
    R: MessageInput<T>,
    S: Message<T, R>,
 {
    id: usize,
    /// Envelopes dispatched and not yet collected.
    messages: usize,
    /// Most envelopes allowed in flight.
    package_number: usize,
    /// Inputs not yet dispatched; the last one goes first.
    input_vec: Vec<R>,
    stage: Stage<R>,
    /// Envelopes taken off the collection queue ahead of their step; they
    /// still count as in flight until a step collects them.
    stash: Vec<S>,
    /// Envelopes built so far.
    built: Ghost<nat>,
    /// Every input ever fed, in the order fed.
    fed: Ghost<Seq<R>>,
    /// Every input installed in an envelope and dispatched, in the order dispatched.
    dispatched: Ghost<Seq<R>>,
    /// Backlog length, in-flight count and envelopes built when the current step began.
    origin: Ghost<(nat, nat, nat)>,
    data_type: core::marker::PhantomData<T>,
    message_type: core::marker::PhantomData<S>,
}

impl<T, R, S> FeederRecycler<T, R, S> where
    T: MessageData,
    R: MessageInput<T>,
    S: Message<T, R>,
 {
    pub closed spec fn id_spec(&self) -> usize {
        self.id
    }

    /// The inputs not yet dispatched; they leave from the end.
    pub closed spec fn backlog(&self) -> Seq<R> {
        self.input_vec@
    }

    /// Envelopes dispatched and not yet collected.
    pub closed spec fn in_flight(&self) -> nat {
        self.messages as nat
    }

    /// The most envelopes that may be in flight.
    pub closed spec fn budget(&self) -> nat {
        self.package_number as nat
    }

    /// Every input ever fed, in the order fed.
    pub closed spec fn fed(&self) -> Seq<R> {
        self.fed@
    }

    /// Every input installed in an envelope and dispatched, in the order dispatched.
    pub closed spec fn dispatched(&self) -> Seq<R> {
        self.dispatched@
    }

    /// The inputs the coordinator accounts for: those dispatched, those
    /// waiting, and one held back.
    pub open spec fn accounted(&self) -> Multiset<R> {
        let held = match self.held_input() {
            Some(input) => Multiset::singleton(input),
            None => Multiset::empty(),
        };
        self.dispatched().to_multiset().add(self.backlog().to_multiset()).add(held)
    }

    /// Envelopes taken off the collection queue ahead of their step.
    pub closed spec fn stashed(&self) -> Seq<S> {
        self.stash@
    }

    /// How many envelopes were built, over the coordinator's whole life.
    pub closed spec fn built(&self) -> nat {
        self.built@
    }

    /// Whether no step is under way.
    pub closed spec fn is_idle(&self) -> bool {
        self.stage is Idle
    }

    /// The input the current step holds back for the collected envelope, if any.
    pub closed spec fn held_input(&self) -> Option<R> {
        match self.stage {
            Stage::Recycling(input) => Some(input),
            _ => None,
        }
    }

    /// Whether the current step holds an input back for the collected envelope.
    pub open spec fn holds_input(&self) -> bool {
        self.held_input() is Some
    }

    /// Backlog length, in-flight count and envelopes built when the current step began.
    pub closed spec fn step_origin(&self) -> (nat, nat, nat) {
        self.origin@
    }

    /// Results still to come: inputs waiting, envelopes in flight, and an input held back.
    pub open spec fn remaining(&self) -> nat {
        self.in_flight() + self.backlog().len() + if self.holds_input() {
            1nat
        } else {
            0nat
        }
    }

    pub closed spec fn inv(&self) -> bool {
        &&& self.remaining() <= usize::MAX
        &&& match self.stage {
            Stage::Idle => true,
            _ => {
                let (b0, f0, k0) = self.origin@;
                let (b1, f1) = begin_counts(b0, f0, self.budget());
                &&& f0 <= self.budget()
                &&& self.input_vec@.len() == b1
                &&& self.in_flight() == f1
                &&& self.built@ == k0 + (f1 - f0)
                &&& (self.stage is Draining) == (b0 == 0 && f0 > 0)
                &&& (self.stage is Bootstrapping) == (b0 > 0 && f0 == 0)
                &&& (self.stage is Recycling) == (b0 > 0 && f0 > 0)
            },
        }
    }

    /// The coordinator's invariant: never more envelopes in flight than the
    /// budget, and no input held back between steps.
    pub open spec fn wf(&self) -> bool {
        &&& self.inv()
        &&& self.is_idle() ==> !self.holds_input()
        &&& self.budget() >= 1
        &&& self.in_flight() <= self.budget()
        &&& self.stashed().len() <= self.in_flight()
        &&& self.fed().to_multiset() == self.accounted()
    }

    /// A coordinator with an empty backlog, nothing in flight and the given budget.
    pub fn new(id: usize, package_number: usize) -> (r: Self)
        requires
            package_number >= 1,
        ensures
            r.wf(),
            r.is_idle(),
            r.id_spec() == id,
            r.budget() == package_number,
            r.backlog() == Seq::<R>::empty(),
            r.in_flight() == 0,
            r.remaining() == 0,
            r.stashed() == Seq::<S>::empty(),
            r.fed() == Seq::<R>::empty(),
            r.dispatched() == Seq::<R>::empty(),
            r.built() == 0,
    {
        let r = FeederRecycler {
            id,
            messages: 0,
            package_number,
            input_vec: Vec::new(),
            stage: Stage::Idle,
            stash: Vec::new(),
            built: Ghost(0),
            fed: Ghost(Seq::empty()),
            dispatched: Ghost(Seq::empty()),
            origin: Ghost((0, 0, 0)),
            data_type: core::marker::PhantomData,
            message_type: core::marker::PhantomData,
        };
        proof {
            broadcast use vstd::multiset::group_multiset_axioms;

            lemma_empty_multiset(Seq::<R>::empty());
            assert(r.accounted() =~= Multiset::<R>::empty());
        }
        r
    }

    /// Moves the caller's inputs to the end of the backlog, leaving the caller's vector empty.
    pub fn append_input(&mut self, input_vec: &mut Vec<R>)
        requires
            old(self).wf(),
            old(self).is_idle(),
            old(self).remaining() + old(input_vec)@.len() <= usize::MAX,
        ensures
            final(self).wf(),
            final(self).is_idle(),
            final(self).backlog() == old(self).backlog() + old(input_vec)@,
            final(input_vec)@ == Seq::<R>::empty(),
            final(self).in_flight() == old(self).in_flight(),
            final(self).remaining() == old(self).remaining() + old(input_vec)@.len(),
            final(self).stashed() == old(self).stashed(),
            final(self).budget() == old(self).budget(),
            final(self).built() == old(self).built(),
            final(self).fed() == old(self).fed() + old(input_vec)@,
            final(self).dispatched() == old(self).dispatched(),
            final(self).id_spec() == old(self).id_spec(),
    {
        let ghost added = input_vec@;
        self.input_vec.append(input_vec);
        self.fed = Ghost(self.fed@ + added);
        proof {
            broadcast use vstd::multiset::group_multiset_axioms;

            vstd::seq_lib::lemma_multiset_commutative(old(self).fed@, added);
            vstd::seq_lib::lemma_multiset_commutative(old(self).input_vec@, added);
            assert(self.accounted() =~= old(self).accounted().add(added.to_multiset()));
        }
    }

    /// Tops the in-flight count up to the budget while inputs wait: each input
    /// taken from the end of the backlog goes into a fresh envelope, pushed on `batch`.
    fn feed_initial_messages(&mut self, batch: &mut Vec<S>)
        requires
            old(self).package_number >= 1,
            old(self).messages <= old(self).package_number,
        ensures
            ({
                let t = top_up_count(
                    old(self).input_vec@.len(),
                    old(self).in_flight(),
                    old(self).budget(),
                );
                &&& final(self).input_vec@ == old(self).input_vec@.take(
                    old(self).input_vec@.len() - t,
                )
                &&& final(self).in_flight() == old(self).in_flight() + t
                &&& final(self).built@ == old(self).built@ + t
                &&& final(batch)@.len() == old(batch)@.len() + t
                &&& final(batch)@.take(old(batch)@.len() as int) == old(batch)@
                &&& carries_from_end(
                    final(batch)@.skip(old(batch)@.len() as int),
                    old(self).input_vec@,
                    0,
                )
            }),
            final(self).messages <= final(self).package_number,
            final(self).package_number == old(self).package_number,
            final(self).stage == old(self).stage,
            final(self).origin == old(self).origin,
            final(self).id == old(self).id,
            final(self).stash == old(self).stash,
            final(self).fed == old(self).fed,
            final(self).dispatched@.to_multiset().add(final(self).input_vec@.to_multiset()) == old(
                self,
            ).dispatched@.to_multiset().add(old(self).input_vec@.to_multiset()),
    {
        while self.messages < self.package_number && self.input_vec.len() > 0
            invariant
                self.package_number == old(self).package_number,
                self.stage == old(self).stage,
                self.origin == old(self).origin,
                self.id == old(self).id,
                self.stash == old(self).stash,
                self.fed == old(self).fed,
                self.dispatched@.to_multiset().add(self.input_vec@.to_multiset()) == old(
                    self,
                ).dispatched@.to_multiset().add(old(self).input_vec@.to_multiset()),
                old(self).messages <= self.messages <= self.package_number,
                self.input_vec@.len() + self.messages == old(self).input_vec@.len()
                    + old(self).messages,
                self.input_vec@ == old(self).input_vec@.take(self.input_vec@.len() as int),
                self.built@ == old(self).built@ + (self.messages - old(self).messages),
                batch@.len() == old(batch)@.len() + (self.messages - old(self).messages),
                batch@.take(old(batch)@.len() as int) == old(batch)@,
                carries_from_end(batch@.skip(old(batch)@.len() as int), old(self).input_vec@, 0),
            decreases self.package_number - self.messages,
        {
            let ghost before = self.input_vec@;
            match self.input_vec.pop() {
                Some(input) => {
                    let ghost taken = self.input_vec@.len();
                    proof {
                        lemma_take_last(self.dispatched@, before);
                    }
                    self.dispatched = Ghost(self.dispatched@.push(input));
                    let mut envelope = S::new();
                    envelope.set_input(input);
                    let ghost sent = envelope;
                    let ghost earlier = batch@.skip(old(batch)@.len() as int);
                    batch.push(envelope);
                    self.messages = self.messages + 1;
                    self.built = Ghost(self.built@ + 1);
                    assert(self.input_vec@ =~= old(self).input_vec@.take(
                        self.input_vec@.len() as int,
                    ));
                    assert(batch@.take(old(batch)@.len() as int) =~= old(batch)@);
                    let ghost added = batch@.skip(old(batch)@.len() as int);
                    assert forall|i: int| 0 <= i < added.len() implies #[trigger] added[i].input_spec()
                        == old(self).input_vec@[old(self).input_vec@.len() - 1 - i] by {
                        if i == added.len() - 1 {
                            assert(added[i] == sent);
                            assert(old(self).input_vec@[taken as int] == before[taken as int]);
                        } else {
                            assert(added[i] == earlier[i]);
                            assert(earlier[i].input_spec() == old(self).input_vec@[old(
                                self,
                            ).input_vec@.len() - 1 - i]);
                        }
                    }
                },
                None => {},
            }
        }
    }

    /// Starts one step of iteration.
    ///
    /// With nothing pending anywhere the step ends at once with `Finished`.
    /// Otherwise the returned envelopes are to be sent, and one envelope then
    /// collected and handed to `accept_collected`.
    pub fn retrieve_data(&mut self) -> (r: FeederAction<S>)
        requires
            old(self).wf(),
            old(self).is_idle(),
        ensures
            final(self).wf(),
            final(self).budget() == old(self).budget(),
            final(self).id_spec() == old(self).id_spec(),
            final(self).remaining() == old(self).remaining(),
            final(self).stashed() == old(self).stashed(),
            final(self).fed() == old(self).fed(),
            (r is Finished) <==> old(self).remaining() == 0,
            r is Finished ==> old(self).dispatched().to_multiset() == old(self).fed().to_multiset(),
            r is Finished ==> *final(self) == *old(self),
            r is Collect ==> {
                let (b1, f1) = begin_counts(
                    old(self).backlog().len(),
                    old(self).in_flight(),
                    old(self).budget(),
                );
                &&& !final(self).is_idle()
                &&& final(self).step_origin() == (
                    old(self).backlog().len(),
                    old(self).in_flight(),
                    old(self).built(),
                )
                &&& final(self).backlog() == old(self).backlog().take(b1 as int)
                &&& final(self).in_flight() == f1
                &&& final(self).in_flight() >= 1
                &&& r->Collect_0@.len() == f1 - old(self).in_flight()
                &&& final(self).built() == old(self).built() + r->Collect_0@.len()
                &&& final(self).held_input() == if old(self).backlog().len() > 0
                    && old(self).in_flight() > 0 {
                    Some(old(self).backlog().last())
                } else {
                    None::<R>
                }
                &&& carries_from_end(
                    r->Collect_0@,
                    old(self).backlog(),
                    if final(self).holds_input() {
                        1nat
                    } else {
                        0nat
                    },
                )
            },
    {
        if self.input_vec.len() == 0 && self.messages == 0 {
            proof {
                self.lemma_drained_inputs_dispatched_once();
            }
            return FeederAction::Finished;
        }
        let ghost b0 = self.input_vec@.len();
        let ghost whole = self.input_vec@;
        self.origin = Ghost((self.input_vec@.len(), self.messages as nat, self.built@));
        let mut batch: Vec<S> = Vec::new();
        match self.input_vec.pop() {
            None => {
                self.stage = Stage::Draining;
                assert(self.accounted() =~= old(self).accounted());
            },
            Some(input) => {
                proof {
                    lemma_take_last(self.dispatched@, whole);
                }
                if self.messages == 0 {
                    self.dispatched = Ghost(self.dispatched@.push(input));
                    let mut envelope = S::new();
                    envelope.set_input(input);
                    batch.push(envelope);
                    self.messages = 1;
                    self.built = Ghost(self.built@ + 1);
                    self.stage = Stage::Bootstrapping;
                } else {
                    self.stage = Stage::Recycling(input);
                }
                assert(self.input_vec@ =~= whole.take(b0 - 1));
                let ghost popped = self.input_vec@;
                let ghost first = batch@;
                let ghost sent_before = self.dispatched@;
                self.feed_initial_messages(&mut batch);
                proof {
                    broadcast use vstd::multiset::group_multiset_axioms;

                    assert(popped == whole.drop_last());
                    assert(input == whole.last());
                    assert(self.fed@.to_multiset() == old(self).accounted());
                    if self.holds_input() {
                        assert(self.held_input() == Some(input));
                        assert(old(self).accounted() =~= sent_before.to_multiset().add(
                            whole.to_multiset(),
                        ));
                        assert(self.accounted() =~= sent_before.to_multiset().add(
                            popped.to_multiset(),
                        ).insert(input));
                    } else {
                        assert(sent_before == old(self).dispatched@.push(whole.last()));
                        assert(self.accounted() =~= sent_before.to_multiset().add(
                            popped.to_multiset(),
                        ));
                    }
                    assert(self.fed@.to_multiset() == self.accounted());
                }
                assert(self.input_vec@ =~= whole.take(self.input_vec@.len() as int));
                let ghost skip: nat = if self.holds_input() { 1 } else { 0 };
                assert forall|i: int| 0 <= i < batch@.len() implies #[trigger] batch@[i].input_spec()
                    == whole[whole.len() - 1 - skip - i] by {
                    if i < first.len() {
                        assert(batch@[i] == batch@.take(first.len() as int)[i]);
                    } else {
                        let j = i - first.len();
                        assert(batch@[i] == batch@.skip(first.len() as int)[j]);
                        assert(popped[popped.len() - 1 - j] == whole[popped.len() - 1 - j]);
                    }
                }
            },
        }
        FeederAction::Collect(batch)
    }

    /// Ends the step under way with the envelope collected from the workers.
    ///
    /// A copy of the envelope's result is delivered. The envelope is recycled
    /// with the held input when the step holds one; otherwise it is discarded,
    /// and when the step began with nothing in flight the budget is topped up again.
    pub fn accept_collected(&mut self, envelope: S) -> (r: Delivery<T, S>)
        requires
            old(self).wf(),
            !old(self).is_idle(),
            old(self).stashed().len() < old(self).in_flight(),
        ensures
            final(self).stashed() == old(self).stashed(),
            final(self).fed() == old(self).fed(),
            final(self).wf(),
            final(self).is_idle(),
            final(self).budget() == old(self).budget(),
            final(self).id_spec() == old(self).id_spec(),
            ({
                let (b0, f0, k0) = old(self).step_origin();
                let (b2, f2, n) = step_counts(b0, f0, old(self).budget());
                &&& final(self).backlog().len() == b2
                &&& final(self).in_flight() == f2
                &&& final(self).built() == k0 + n
                &&& final(self).remaining() + 1 == b0 + f0
            }),
            final(self).remaining() + 1 == old(self).remaining(),
            final(self).backlog() == old(self).backlog().take(
                final(self).backlog().len() as int,
            ),
            r.dispatch@.len() + old(self).in_flight() == final(self).in_flight() + 1,
            r.data == envelope.data_spec(),
            old(self).holds_input() ==> {
                &&& r.dispatch@.len() == 1
                &&& r.dispatch@[0].input_spec() == old(self).held_input()->Some_0
                &&& r.dispatch@[0].data_spec() == envelope.data_spec()
            },
            !old(self).holds_input() ==> carries_from_end(r.dispatch@, old(self).backlog(), 0),
    {
        let mut stage = Stage::Idle;
        core::mem::swap(&mut stage, &mut self.stage);
        self.messages = self.messages - 1;
        let data = envelope.clone_message_data();
        let mut batch: Vec<S> = Vec::new();
        let ghost whole = self.input_vec@;
        match stage {
            Stage::Recycling(input) => {
                self.dispatched = Ghost(self.dispatched@.push(input));
                proof {
                    broadcast use vstd::seq_lib::group_to_multiset_ensures, vstd::multiset::group_multiset_axioms;

                    assert(self.accounted() =~= old(self).accounted());
                }
                let mut envelope = envelope;
                envelope.set_input(input);
                batch.push(envelope);
                self.messages = self.messages + 1;
            },
            Stage::Bootstrapping => {
                let ghost sent_before = self.dispatched@;
                self.feed_initial_messages(&mut batch);
                proof {
                    broadcast use vstd::multiset::group_multiset_axioms;

                    assert(self.accounted() =~= old(self).accounted());
                }
                assert(self.input_vec@ =~= whole.take(self.input_vec@.len() as int));
                assert(batch@.skip(0) =~= batch@);
            },
            _ => {},
        }
        Delivery { data, dispatch: batch }
    }

    /// Whether an envelope in hand can be one still counted in flight: fewer
    /// envelopes are stashed than are in flight.
    pub fn stash_room(&self) -> (r: bool)
        ensures
            r == (self.stashed().len() < self.in_flight()),
    {
        self.stash.len() < self.messages
    }

    /// Keeps an envelope taken off the collection queue ahead of its step; it
    /// stays counted in flight until `take_stashed` hands it to a step.
    pub fn stash_collected(&mut self, envelope: S)
        requires
            old(self).wf(),
            old(self).stashed().len() < old(self).in_flight(),
        ensures
            final(self).wf(),
            final(self).stashed() == old(self).stashed().push(envelope),
            final(self).backlog() == old(self).backlog(),
            final(self).in_flight() == old(self).in_flight(),
            final(self).budget() == old(self).budget(),
            final(self).built() == old(self).built(),
            final(self).is_idle() == old(self).is_idle(),
            final(self).held_input() == old(self).held_input(),
            final(self).step_origin() == old(self).step_origin(),
            final(self).id_spec() == old(self).id_spec(),
    {
        self.stash.push(envelope);
    }

    /// Hands out the envelope stashed last, if any; it is collected by the
    /// step that receives it.
    pub fn take_stashed(&mut self) -> (r: Option<S>)
        requires
            old(self).wf(),
        ensures
            final(self).wf(),
            old(self).stashed().len() == 0 ==> r is None && final(self).stashed() == old(
                self,
            ).stashed(),
            old(self).stashed().len() > 0 ==> r == Some(old(self).stashed().last())
                && final(self).stashed() == old(self).stashed().drop_last(),
            final(self).backlog() == old(self).backlog(),
            final(self).in_flight() == old(self).in_flight(),
            final(self).budget() == old(self).budget(),
            final(self).built() == old(self).built(),
            final(self).is_idle() == old(self).is_idle(),
            final(self).held_input() == old(self).held_input(),
            final(self).step_origin() == old(self).step_origin(),
            final(self).id_spec() == old(self).id_spec(),
    {
        self.stash.pop()
    }

    /// Conservation per input: once nothing is pending, every input ever fed
    /// has been installed in a dispatched envelope exactly once; the inputs
    /// dispatched and the inputs fed are the same multiset.
    pub proof fn lemma_drained_inputs_dispatched_once(&self)
        requires
            self.wf(),
            self.remaining() == 0,
        ensures
            self.dispatched().to_multiset() == self.fed().to_multiset(),
    {
        broadcast use vstd::multiset::group_multiset_axioms;

        lemma_empty_multiset(self.backlog());
        assert(self.accounted() =~= self.dispatched().to_multiset());
    }

    pub fn get_id(&self) -> (r: usize)
        ensures
            r == self.id_spec(),
    {
        self.id
    }

    /// Whether a step is under way, waiting for a collected envelope.
    pub fn is_collecting(&self) -> (r: bool)
        ensures
            r == !self.is_idle(),
    {
        match self.stage {
            Stage::Idle => false,
            _ => true,
        }
    }

    /// How many results are still to come, counting inputs not yet dispatched.
    pub fn get_remaining_messages(&self) -> (r: usize)
        requires
            self.wf(),
        ensures
            r == self.remaining(),
    {
        let held: usize = match self.stage {
            Stage::Recycling(_) => 1,
            _ => 0,
        };
        self.messages + self.input_vec.len() + held
    }
}

} // verus!
