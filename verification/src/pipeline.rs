//! Running the providers of a phase, in order.
//!
//! The pipeline is a function, as each provider is: from what every provider
//! has been told so far to the next probe that the host has to carry out,
//! or to the documents captured, or to the failure that ends the phase.
use crate::context::{
    outcome_of, ContextErased, Observation, ObservationView, Outcome, Probe, ProbeView, Progress,
    RuntimeParams, RuntimeParamsView,
};
use crate::error::{CoreError, CoreErrorView};
use crate::json::{Json, JsonValue};
use crate::views;
use vstd::prelude::*;

verus! {

/// The failure of a phase: which provider failed, counted from zero, and
/// how.
#[derive(Debug, Clone, PartialEq, Eq)]
pub struct PhaseFailure {
    pub index: usize,
    pub error: CoreError,
}

/// Where a phase stands.
#[derive(Debug, PartialEq, Eq)]
pub enum PhaseProgress {
    /// The provider at `index` asks for `probe`; its answer goes to the
    /// end of that provider's observations.
    Ask { index: usize, probe: Probe },
    /// The phase has ended, with one document for each provider, in the
    /// providers' order, or with the first failure.
    Done(Result<Vec<JsonValue>, PhaseFailure>),
}

/// Where a phase stands, as mathematics sees it.
pub enum PhaseOutcome {
    Ask { index: int, probe: ProbeView },
    Captured(Seq<Json>),
    Failed { index: int, error: CoreErrorView },
}

/// The outcome that a phase's progress stands for.
pub open spec fn phase_outcome_of(progress: PhaseProgress) -> PhaseOutcome {
    match progress {
        PhaseProgress::Ask { index, probe } => PhaseOutcome::Ask {
            index: index as int,
            probe: probe@,
        },
        PhaseProgress::Done(Ok(documents)) => PhaseOutcome::Captured(views(documents@)),
        PhaseProgress::Done(Err(failure)) => PhaseOutcome::Failed {
            index: failure.index as int,
            error: failure.error@,
        },
    }
}

/// The observations of each provider, as mathematics sees them.
pub open spec fn log_views(logs: Seq<Vec<Observation>>) -> Seq<Seq<ObservationView>> {
    Seq::new(logs.len(), |i: int| views(logs[i]@))
}

/// What the provider at `i` has been told; nothing where the host holds no
/// observations for it yet.
pub open spec fn log_at(logs: Seq<Seq<ObservationView>>, i: int) -> Seq<ObservationView> {
    if 0 <= i < logs.len() {
        logs[i]
    } else {
        Seq::empty()
    }
}

/// Where the provider at `i` stands.
pub open spec fn outcome_at<P: ContextErased>(
    providers: Seq<P>,
    params: RuntimeParamsView,
    logs: Seq<Seq<ObservationView>>,
    i: int,
) -> Outcome {
    providers[i].erased_outcome(params, log_at(logs, i))
}

/// The place of the first provider, from `from` on, that has not captured
/// its document; the number of providers where all have.
pub open spec fn first_pending_from<P: ContextErased>(
    providers: Seq<P>,
    params: RuntimeParamsView,
    logs: Seq<Seq<ObservationView>>,
    from: int,
) -> int
    decreases providers.len() - from,
{
    if from < 0 || from >= providers.len() {
        providers.len() as int
    } else if !(outcome_at(providers, params, logs, from) is Captured) {
        from
    } else {
        first_pending_from(providers, params, logs, from + 1)
    }
}

/// The place of the first provider that has not captured its document.
pub open spec fn first_pending<P: ContextErased>(
    providers: Seq<P>,
    params: RuntimeParamsView,
    logs: Seq<Seq<ObservationView>>,
) -> int {
    first_pending_from(providers, params, logs, 0)
}

/// Where the phase stands: at the first provider that has not captured its
/// document, with that provider's probe or failure; or, where every
/// provider has captured, at the end, with their documents in the
/// providers' order.
pub open spec fn phase_outcome<P: ContextErased>(
    providers: Seq<P>,
    params: RuntimeParamsView,
    logs: Seq<Seq<ObservationView>>,
) -> PhaseOutcome {
    let k = first_pending(providers, params, logs);
    if k >= providers.len() {
        PhaseOutcome::Captured(
            Seq::new(providers.len(), |i: int| outcome_at(providers, params, logs, i)->Captured_0),
        )
    } else {
        match outcome_at(providers, params, logs, k) {
            Outcome::Ask(probe) => PhaseOutcome::Ask { index: k, probe },
            Outcome::Failed(error) => PhaseOutcome::Failed { index: k, error },
            Outcome::Captured(_) => PhaseOutcome::Captured(Seq::empty()),
        }
    }
}

/// The first pending provider is the one before which all have captured
/// and which has not itself.
pub proof fn lemma_first_pending<P: ContextErased>(
    providers: Seq<P>,
    params: RuntimeParamsView,
    logs: Seq<Seq<ObservationView>>,
    from: int,
    k: int,
)
    requires
        0 <= from <= k <= providers.len(),
        forall|j: int| from <= j < k ==> outcome_at(providers, params, logs, j) is Captured,
        k < providers.len() ==> !(outcome_at(providers, params, logs, k) is Captured),
    ensures
        first_pending_from(providers, params, logs, from) == k,
    decreases k - from,
{
    if from < k {
        lemma_first_pending(providers, params, logs, from + 1, k);
    }
}

/// What the first pending provider is: every provider before it has
/// captured, and it has not.
pub proof fn lemma_first_pending_is_first<P: ContextErased>(
    providers: Seq<P>,
    params: RuntimeParamsView,
    logs: Seq<Seq<ObservationView>>,
    from: int,
)
    requires
        0 <= from <= providers.len(),
    ensures
        from <= first_pending_from(providers, params, logs, from) <= providers.len(),
        forall|j: int|
            from <= j < first_pending_from(providers, params, logs, from) ==> outcome_at(
                providers,
                params,
                logs,
                j,
            ) is Captured,
        first_pending_from(providers, params, logs, from) < providers.len() ==> !(outcome_at(
            providers,
            params,
            logs,
            first_pending_from(providers, params, logs, from),
        ) is Captured),
    decreases providers.len() - from,
{
    if from < providers.len() && outcome_at(providers, params, logs, from) is Captured {
        lemma_first_pending_is_first(providers, params, logs, from + 1);
    }
}

/// A phase that ends well has one document for each provider, and the
/// document at each place is the one that the provider at that place
/// captured: the order of the providers is the order of the documents.
pub proof fn lemma_documents_follow_providers<P: ContextErased>(
    providers: Seq<P>,
    params: RuntimeParamsView,
    logs: Seq<Seq<ObservationView>>,
)
    requires
        phase_outcome(providers, params, logs) is Captured,
    ensures
        ({
            let documents = phase_outcome(providers, params, logs)->Captured_0;
            &&& documents.len() == providers.len()
            &&& forall|i: int|
                0 <= i < providers.len() ==> outcome_at(providers, params, logs, i)
                    == Outcome::Captured(#[trigger] documents[i])
        }),
{
    lemma_first_pending_is_first(providers, params, logs, 0);
}

/// A phase fails fast: where it stands depends on the providers up to the
/// first pending one alone. Whatever the host holds for later providers,
/// they are not asked and nothing of theirs is reported.
pub proof fn lemma_phase_fails_fast<P: ContextErased>(
    providers: Seq<P>,
    params: RuntimeParamsView,
    logs: Seq<Seq<ObservationView>>,
    other: Seq<Seq<ObservationView>>,
)
    requires
        forall|j: int|
            0 <= j <= first_pending(providers, params, logs) ==> log_at(logs, j) == log_at(
                other,
                j,
            ),
    ensures
        phase_outcome(providers, params, other) == phase_outcome(providers, params, logs),
{
    let k = first_pending(providers, params, logs);
    lemma_first_pending_is_first(providers, params, logs, 0);
    assert forall|j: int| 0 <= j < k implies outcome_at(providers, params, other, j) is Captured by {
        assert(log_at(logs, j) == log_at(other, j));
        assert(outcome_at(providers, params, logs, j) is Captured);
    }
    if k < providers.len() {
        assert(log_at(logs, k) == log_at(other, k));
    }
    lemma_first_pending(providers, params, other, 0, k);
    if k >= providers.len() {
        assert forall|i: int| 0 <= i < providers.len() implies outcome_at(
            providers,
            params,
            other,
            i,
        ) == outcome_at(providers, params, logs, i) by {
            assert(log_at(logs, i) == log_at(other, i));
        }
        assert(phase_outcome(providers, params, other)->Captured_0 =~= phase_outcome(
            providers,
            params,
            logs,
        )->Captured_0);
    }
}

/// Asks the providers of a phase in their order, each with the
/// observations that the host holds for it in `logs` at the same place
/// (none, for a place that `logs` does not reach). The first provider that
/// has not captured its document decides: its probe is handed out, or
/// its failure ends the phase. Where every provider has captured, the
/// documents are handed out in the providers' order.
pub fn run_contexts<P: ContextErased>(
    providers: &Vec<P>,
    params: &RuntimeParams,
    logs: &Vec<Vec<Observation>>,
) -> (progress: PhaseProgress)
    ensures
        phase_outcome_of(progress) == phase_outcome(providers@, params@, log_views(logs@)),
{
    let ghost all = log_views(logs@);
    let nothing: Vec<Observation> = Vec::new();
    let mut documents: Vec<JsonValue> = Vec::new();
    let mut i: usize = 0;
    while i < providers.len()
        invariant
            i <= providers.len(),
            all == log_views(logs@),
            nothing@.len() == 0,
            documents@.len() == i,
            forall|j: int|
                #![trigger outcome_at(providers@, params@, all, j)]
                #![trigger documents@[j]]
                0 <= j < i ==> outcome_at(providers@, params@, all, j) == Outcome::Captured(
                    documents@[j]@,
                ),
        decreases providers.len() - i,
    {
        let seen = if i < logs.len() {
            &logs[i]
        } else {
            &nothing
        };
        assert(views(seen@) =~= log_at(all, i as int));
        match providers[i].run_erased(params, seen) {
            Progress::Ask(probe) => {
                proof {
                    lemma_first_pending(providers@, params@, all, 0, i as int);
                }
                return PhaseProgress::Ask { index: i, probe };
            },
            Progress::Done(Err(error)) => {
                proof {
                    lemma_first_pending(providers@, params@, all, 0, i as int);
                }
                return PhaseProgress::Done(Err(PhaseFailure { index: i, error }));
            },
            Progress::Done(Ok(document)) => {
                documents.push(document);
            },
        }
        i = i + 1;
    }
    proof {
        lemma_first_pending(providers@, params@, all, 0, i as int);
        assert(views(documents@) =~= phase_outcome(providers@, params@, all)->Captured_0);
    }
    PhaseProgress::Done(Ok(documents))
}

} // verus!
