//! The ordered fallback: providers are asked one after another until one answers.
//!
//! The decisions are a small machine. It says which provider to probe next and
//! takes each probe's outcome; whoever drives it performs the probes.

use vstd::prelude::*;
use crate::duration::IdleDuration;
use crate::error::Error;
use crate::provider::{Provider, ProviderResult};

verus! {

/// What the driver of the fallback has to do next.
#[derive(Clone, Copy, Debug, PartialEq, Eq)]
pub enum Action {
    /// Probe this provider and hand its outcome to `step`.
    Probe(Provider),
    /// The query is over, with this result.
    Finish(Result<IdleDuration, Error>),
}

/// The state of one query: the order in which providers are asked, how many of
/// them have reported that they are unavailable, and the answer once there is one.
pub struct Machine {
    pub order: Seq<Provider>,
    pub cursor: nat,
    pub answer: Option<IdleDuration>,
}

impl Machine {
    /// The state before any provider has been asked.
    pub open spec fn initial(order: Seq<Provider>) -> Machine {
        Machine { order, cursor: 0, answer: None }
    }

    /// No more providers are counted as asked than the order holds.
    pub open spec fn wf(self) -> bool {
        self.cursor <= self.order.len()
    }

    /// What has to be done in this state.
    pub open spec fn action(self) -> Action {
        match self.answer {
            Some(d) => Action::Finish(Ok(d)),
            None => if self.cursor < self.order.len() {
                Action::Probe(self.order[self.cursor as int])
            } else {
                Action::Finish(Err(Error::NoProviderAvailable))
            },
        }
    }

    /// The state after the pending probe has yielded `result`. Where no probe is
    /// pending the result is ignored.
    pub open spec fn step(self, result: ProviderResult) -> Machine {
        if self.action() is Probe {
            match result {
                ProviderResult::Success(d) => Machine { answer: Some(d), ..self },
                ProviderResult::Unavailable(_) => Machine { cursor: self.cursor + 1, ..self },
            }
        } else {
            self
        }
    }

    /// An upper bound on the number of steps until the query is over.
    pub open spec fn remaining(self) -> nat {
        if self.answer is Some || self.cursor >= self.order.len() {
            0
        } else {
            (self.order.len() - self.cursor + 1) as nat
        }
    }
}

/// A whole query as seen from outside: its result and the providers that were
/// probed, in the order of the probes.
pub struct Trace {
    pub result: Result<IdleDuration, Error>,
    pub probed: Seq<Provider>,
}

/// The query that starts in state `m` when the provider at place `i` of the order
/// answers `outcomes[i]`.
pub open spec fn run(m: Machine, outcomes: Seq<ProviderResult>) -> Trace
    decreases m.remaining(),
{
    match m.action() {
        Action::Finish(result) => Trace { result, probed: Seq::empty() },
        Action::Probe(p) => if m.cursor < outcomes.len() {
            let rest = run(m.step(outcomes[m.cursor as int]), outcomes);
            Trace { result: rest.result, probed: seq![p] + rest.probed }
        } else {
            Trace { result: Err(Error::NoProviderAvailable), probed: Seq::empty() }
        },
    }
}

/// The result of the fallback over the outcomes from place `from` on: the first
/// success among them, or total exhaustion.
pub open spec fn resolve_from(outcomes: Seq<ProviderResult>, from: int) -> Result<IdleDuration, Error>
    decreases outcomes.len() - from,
{
    if from < 0 || from >= outcomes.len() {
        Err(Error::NoProviderAvailable)
    } else {
        match outcomes[from] {
            ProviderResult::Success(d) => Ok(d),
            ProviderResult::Unavailable(_) => resolve_from(outcomes, from + 1),
        }
    }
}

/// The number of outcomes from place `from` on that the fallback looks at: up to
/// and including the first success.
pub open spec fn probes_from(outcomes: Seq<ProviderResult>, from: int) -> nat
    decreases outcomes.len() - from,
{
    if from < 0 || from >= outcomes.len() {
        0
    } else {
        match outcomes[from] {
            ProviderResult::Success(_) => 1,
            ProviderResult::Unavailable(_) => 1 + probes_from(outcomes, from + 1),
        }
    }
}

/// The result of the fallback when provider `i` answers `outcomes[i]`.
pub open spec fn resolve(outcomes: Seq<ProviderResult>) -> Result<IdleDuration, Error> {
    resolve_from(outcomes, 0)
}

/// The number of providers that the fallback asks when provider `i` answers
/// `outcomes[i]`.
pub open spec fn probes_made(outcomes: Seq<ProviderResult>) -> nat {
    probes_from(outcomes, 0)
}

/// The providers in the order in which the fallback asks them: the most specific
/// mechanism first, the input listener last and only where it is enabled.
pub open spec fn spec_provider_order(with_event_tracker: bool) -> Seq<Provider> {
    if with_event_tracker {
        seq![
            Provider::Compositor,
            Provider::DisplayServer,
            Provider::SessionService,
            Provider::EventTracker,
        ]
    } else {
        seq![Provider::Compositor, Provider::DisplayServer, Provider::SessionService]
    }
}

/// One query in progress.
pub struct Orchestrator {
    order: Vec<Provider>,
    cursor: usize,
    answer: Option<IdleDuration>,
}

impl View for Orchestrator {
    type V = Machine;

    closed spec fn view(&self) -> Machine {
        Machine { order: self.order@, cursor: self.cursor as nat, answer: self.answer }
    }
}

/// The providers in the order in which the fallback asks them: the most specific
/// mechanism first, the input listener last and only where it is enabled.
pub fn provider_order(with_event_tracker: bool) -> (order: Vec<Provider>)
    ensures
        order@ == spec_provider_order(with_event_tracker),
{
    let mut order: Vec<Provider> = Vec::new();
    order.push(Provider::Compositor);
    order.push(Provider::DisplayServer);
    order.push(Provider::SessionService);
    if with_event_tracker {
        order.push(Provider::EventTracker);
    }
    assert(order@ =~= spec_provider_order(with_event_tracker));
    order
}

impl Orchestrator {
    /// A query over `order` that has asked nobody yet.
    pub fn new(order: Vec<Provider>) -> (o: Orchestrator)
        ensures
            o@ == Machine::initial(order@),
            o@.wf(),
    {
        Orchestrator { order, cursor: 0, answer: None }
    }

    /// What has to be done in this state.
    pub fn action(&self) -> (a: Action)
        ensures
            a == self@.action(),
    {
        match self.answer {
            Some(d) => Action::Finish(Ok(d)),
            None => if self.cursor < self.order.len() {
                Action::Probe(self.order[self.cursor])
            } else {
                Action::Finish(Err(Error::NoProviderAvailable))
            },
        }
    }

    /// Takes the outcome of the pending probe and says what has to be done next.
    /// Where no probe is pending the outcome is ignored.
    pub fn step(&mut self, result: ProviderResult) -> (a: Action)
        ensures
            final(self)@ == old(self)@.step(result),
            old(self)@.wf() ==> final(self)@.wf(),
            a == final(self)@.action(),
    {
        if self.answer.is_none() && self.cursor < self.order.len() {
            match result {
                ProviderResult::Success(d) => {
                    self.answer = Some(d);
                },
                ProviderResult::Unavailable(_) => {
                    self.cursor = self.cursor + 1;
                },
            }
        }
        self.action()
    }
}


/// Where the first success stands at place `k`, the fallback over the outcomes
/// from `from` on yields it and looks at nothing behind it.
proof fn lemma_first_success_from(outcomes: Seq<ProviderResult>, from: int, k: int)
    requires
        0 <= from <= k < outcomes.len(),
        outcomes[k] is Success,
        forall|i: int| from <= i < k ==> outcomes[i] is Unavailable,
    ensures
        resolve_from(outcomes, from) == Ok::<IdleDuration, Error>(outcomes[k]->Success_0),
        probes_from(outcomes, from) == k - from + 1,
    decreases k - from,
{
    if from < k {
        lemma_first_success_from(outcomes, from + 1, k);
    }
}

/// Where no outcome from `from` on is a success, the fallback is exhausted after
/// looking at each of them.
proof fn lemma_no_success_from(outcomes: Seq<ProviderResult>, from: int)
    requires
        0 <= from <= outcomes.len(),
        forall|i: int| from <= i < outcomes.len() ==> outcomes[i] is Unavailable,
    ensures
        resolve_from(outcomes, from) == Err::<IdleDuration, Error>(Error::NoProviderAvailable),
        probes_from(outcomes, from) == outcomes.len() - from,
    decreases outcomes.len() - from,
{
    if from < outcomes.len() {
        lemma_no_success_from(outcomes, from + 1);
    }
}

/// The fallback never looks at more outcomes than there are.
proof fn lemma_probes_bounded(outcomes: Seq<ProviderResult>, from: int)
    requires
        0 <= from <= outcomes.len(),
    ensures
        from + probes_from(outcomes, from) <= outcomes.len(),
    decreases outcomes.len() - from,
{
    if from < outcomes.len() {
        lemma_probes_bounded(outcomes, from + 1);
    }
}

/// A query that has no answer yet and has asked the first `m.cursor` providers
/// ends as the fallback over the remaining outcomes says, and probes exactly the
/// providers that belong to the outcomes it looks at.
proof fn lemma_run_from(m: Machine, outcomes: Seq<ProviderResult>)
    requires
        m.wf(),
        m.answer is None,
        outcomes.len() == m.order.len(),
    ensures
        run(m, outcomes).result == resolve_from(outcomes, m.cursor as int),
        m.cursor + probes_from(outcomes, m.cursor as int) <= m.order.len(),
        run(m, outcomes).probed == m.order.subrange(
            m.cursor as int,
            (m.cursor + probes_from(outcomes, m.cursor as int)) as int,
        ),
    decreases m.order.len() - m.cursor,
{
    let c = m.cursor as int;
    lemma_probes_bounded(outcomes, c);
    if m.cursor < m.order.len() {
        let next = m.step(outcomes[c]);
        match outcomes[c] {
            ProviderResult::Success(d) => {
                assert(next.action() == Action::Finish(Ok(d)));
                assert(run(next, outcomes).probed == Seq::<Provider>::empty());
                assert(run(m, outcomes).probed =~= m.order.subrange(c, c + 1));
            },
            ProviderResult::Unavailable(_) => {
                lemma_run_from(next, outcomes);
                assert(run(m, outcomes).probed =~= m.order.subrange(
                    c,
                    c + probes_from(outcomes, c),
                ));
            },
        }
    } else {
        assert(run(m, outcomes).probed =~= m.order.subrange(c, c));
    }
}

/// The machine agrees with the fallback read off the outcomes: driven from its
/// initial state it ends in the first success, or in total exhaustion, and it
/// probes the providers in their order, up to the first that answers and none
/// behind it.
pub proof fn lemma_run_resolves(order: Seq<Provider>, outcomes: Seq<ProviderResult>)
    requires
        outcomes.len() == order.len(),
    ensures
        run(Machine::initial(order), outcomes).result == resolve(outcomes),
        probes_made(outcomes) <= order.len(),
        run(Machine::initial(order), outcomes).probed == order.take(probes_made(outcomes) as int),
{
    lemma_run_from(Machine::initial(order), outcomes);
    assert(order.subrange(0, probes_made(outcomes) as int) =~= order.take(
        probes_made(outcomes) as int,
    ));
}

/// The fallback short-circuits: where the provider at place `k` is the first that
/// answers, the query returns its duration, the providers up to `k` are each
/// probed once in their order, and no provider behind `k` is probed at all.
pub proof fn lemma_short_circuit(order: Seq<Provider>, outcomes: Seq<ProviderResult>, k: int)
    requires
        outcomes.len() == order.len(),
        0 <= k < order.len(),
        outcomes[k] is Success,
        forall|i: int| 0 <= i < k ==> outcomes[i] is Unavailable,
    ensures
        run(Machine::initial(order), outcomes).result == Ok::<IdleDuration, Error>(
            outcomes[k]->Success_0,
        ),
        run(Machine::initial(order), outcomes).probed == order.take(k + 1),
{
    lemma_run_resolves(order, outcomes);
    lemma_first_success_from(outcomes, 0, k);
}

/// The fallback is exhausted only after every provider was asked: where all of
/// them are unavailable, the query ends in `NoProviderAvailable`, whatever their
/// reasons were, and each provider was probed once, in order.
pub proof fn lemma_exhaustion(order: Seq<Provider>, outcomes: Seq<ProviderResult>)
    requires
        outcomes.len() == order.len(),
        forall|i: int| 0 <= i < outcomes.len() ==> outcomes[i] is Unavailable,
    ensures
        run(Machine::initial(order), outcomes).result == Err::<IdleDuration, Error>(
            Error::NoProviderAvailable,
        ),
        run(Machine::initial(order), outcomes).probed == order,
{
    lemma_run_resolves(order, outcomes);
    lemma_no_success_from(outcomes, 0);
    assert(order.take(order.len() as int) =~= order);
}


/// Whether `probe` can have given the outcomes that a query over `order` looks at:
/// `outcomes[i]` by the provider at place `i`, for each provider that is asked.
/// Of the outcomes behind the first success nothing is said: those providers are
/// never asked.
pub open spec fn answers<F: Fn(Provider) -> ProviderResult>(
    probe: F,
    order: Seq<Provider>,
    outcomes: Seq<ProviderResult>,
) -> bool {
    &&& outcomes.len() == order.len()
    &&& forall|i: int|
        0 <= i < probes_made(outcomes) ==> call_ensures(probe, (#[trigger] order[i],), outcomes[i])
}

/// Asks the providers of `order` one after another through `probe` and returns
/// the first duration that one of them gives. A provider that is unavailable is
/// passed over, whatever its reason; once one has answered, the providers behind
/// it are not asked. Where none answers, the query ends in `NoProviderAvailable`.
pub fn get_idle_time<F: Fn(Provider) -> ProviderResult>(order: Vec<Provider>, probe: F) -> (r:
    Result<IdleDuration, Error>)
    requires
        forall|p: Provider| call_requires(probe, (p,)),
    ensures
        exists|outcomes: Seq<ProviderResult>| #[trigger]
            answers(probe, order@, outcomes) && r == resolve(outcomes),
{
    let ghost providers = order@;
    let mut machine = Orchestrator::new(order);
    let mut action = machine.action();
    let ghost mut seen: Seq<ProviderResult> = Seq::empty();
    loop
        invariant
            providers == order@,
            machine@.order == providers,
            machine@.wf(),
            action == machine@.action(),
            seen.len() == machine@.cursor + if machine@.answer is Some { 1nat } else { 0nat },
            seen.len() <= providers.len(),
            forall|i: int| 0 <= i < seen.len() ==> call_ensures(probe, (providers[i],), seen[i]),
            forall|i: int| 0 <= i < machine@.cursor ==> seen[i] is Unavailable,
            machine@.answer is Some ==> seen[machine@.cursor as int] == ProviderResult::Success(
                machine@.answer->Some_0,
            ),
            forall|p: Provider| call_requires(probe, (p,)),
        decreases machine@.remaining(),
    {
        match action {
            Action::Probe(provider) => {
                let result = probe(provider);
                proof {
                    seen = seen.push(result);
                }
                action = machine.step(result);
            },
            Action::Finish(result) => {
                proof {
                    let rest = Seq::new(
                        (providers.len() - seen.len()) as nat,
                        |j: int| ProviderResult::Unavailable(Error::NoProviderAvailable),
                    );
                    let outcomes = seen + rest;
                    assert(forall|i: int| 0 <= i < seen.len() ==> outcomes[i] == seen[i]);
                    if machine@.answer is Some {
                        lemma_first_success_from(outcomes, 0, machine@.cursor as int);
                    } else {
                        lemma_no_success_from(outcomes, 0);
                    }
                    assert(answers(probe, providers, outcomes));
                }
                return result;
            },
        }
    }
}


} // verus!
