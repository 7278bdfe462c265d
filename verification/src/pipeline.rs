//! The proof pipeline, as the decision core of a four-stage run:
//! execution of the verifier program, proof generation, compression with
//! field normalization, and conversion of the STARK-form seal into a
//! SNARK-form seal.
//!
//! The cryptographic transforms themselves are outside collaborators that
//! the host performs; this module fixes what the host must do next in
//! each state, which artifacts each stage hands on, and that a failure at
//! any stage is fatal for the whole run. Only a run that passes every
//! stage exposes a journal/seal pair, and the journal it exposes is the
//! one the execution stage committed, untouched by the later stages.

use vstd::prelude::*;

verus! {

/// Where a proving run stands: which stage result is awaited, with the
/// artifacts fixed so far.
pub enum PipelineState {
    /// Nothing has run yet.
    AwaitingExecution,
    /// The verifier committed `journal`; the execution trace awaits its
    /// proof.
    AwaitingProof { journal: Vec<u8> },
    /// A composite proof exists; it awaits compression and field
    /// normalization into STARK-form seal bytes.
    AwaitingCompression { journal: Vec<u8> },
    /// STARK-form seal bytes exist; they await conversion into a
    /// SNARK-form seal.
    AwaitingConversion { journal: Vec<u8>, stark_seal: Vec<u8> },
    /// The run is complete; the pair below is its only output.
    Done { journal: Vec<u8>, snark_seal: Vec<u8> },
    /// Some stage failed; the run is over and yields nothing.
    Failed,
}

/// What the host reports back after performing a stage.
pub enum PipelineEvent {
    /// Execution finished; `journal` is what the verifier committed, or
    /// nothing if it aborted.
    Executed { journal: Option<Vec<u8>> },
    /// The execution trace was proved into a composite receipt.
    Proved,
    /// The composite receipt was compressed and normalized; these are
    /// the canonical STARK-form seal bytes.
    Compressed { stark_seal: Vec<u8> },
    /// The seal was converted; this is the SNARK-form seal.
    Converted { snark_seal: Vec<u8> },
    /// The stage failed: a trap, a proving error, or a missing backend.
    StageFailed,
}

/// What the host must perform next.
#[derive(Debug, Clone, Copy, PartialEq, Eq, Structural)]
pub enum PipelineAction {
    /// Load the verifier program and the input and run them.
    RunExecution,
    /// Prove the execution trace into a composite receipt.
    GenerateProof,
    /// Compress the receipt and extract normalized seal bytes.
    CompressAndNormalize,
    /// Convert the STARK-form seal into a SNARK-form seal.
    ConvertToSnark,
    /// The run is complete; collect the journal/seal pair.
    Finish,
    /// The run is over with no output; start again from execution.
    Abort,
}

/// The transition relation: each state accepts exactly the event of its
/// stage; an aborted execution, a failed stage, or an event out of order
/// ends the run.
pub open spec fn step_spec(s: PipelineState, e: PipelineEvent) -> PipelineState {
    match (s, e) {
        (
            PipelineState::AwaitingExecution,
            PipelineEvent::Executed { journal: Some(j) },
        ) => PipelineState::AwaitingProof { journal: j },
        (PipelineState::AwaitingProof { journal }, PipelineEvent::Proved) => {
            PipelineState::AwaitingCompression { journal }
        },
        (
            PipelineState::AwaitingCompression { journal },
            PipelineEvent::Compressed { stark_seal },
        ) => PipelineState::AwaitingConversion { journal, stark_seal },
        (
            PipelineState::AwaitingConversion { journal, stark_seal },
            PipelineEvent::Converted { snark_seal },
        ) => PipelineState::Done { journal, snark_seal },
        _ => PipelineState::Failed,
    }
}

/// The action a state calls for.
pub open spec fn action_spec(s: PipelineState) -> PipelineAction {
    match s {
        PipelineState::AwaitingExecution => PipelineAction::RunExecution,
        PipelineState::AwaitingProof { .. } => PipelineAction::GenerateProof,
        PipelineState::AwaitingCompression { .. } => PipelineAction::CompressAndNormalize,
        PipelineState::AwaitingConversion { .. } => PipelineAction::ConvertToSnark,
        PipelineState::Done { .. } => PipelineAction::Finish,
        PipelineState::Failed => PipelineAction::Abort,
    }
}

/// The journal a state has fixed, if execution has committed one.
pub open spec fn state_journal(s: PipelineState) -> Option<Seq<u8>> {
    match s {
        PipelineState::AwaitingExecution => None,
        PipelineState::AwaitingProof { journal } => Some(journal@),
        PipelineState::AwaitingCompression { journal } => Some(journal@),
        PipelineState::AwaitingConversion { journal, .. } => Some(journal@),
        PipelineState::Done { journal, .. } => Some(journal@),
        PipelineState::Failed => None,
    }
}

/// A prover run on the local machine, driven stage by stage.
pub struct LocalProver {
    pub state: PipelineState,
}

impl LocalProver {
    /// Starts a fresh run.
    pub fn new() -> (r: LocalProver)
        ensures
            r.state is AwaitingExecution,
    {
        LocalProver { state: PipelineState::AwaitingExecution }
    }

    /// Says what the host must perform next.
    pub fn next_action(&self) -> (a: PipelineAction)
        ensures
            a == action_spec(self.state),
    {
        match &self.state {
            PipelineState::AwaitingExecution => PipelineAction::RunExecution,
            PipelineState::AwaitingProof { .. } => PipelineAction::GenerateProof,
            PipelineState::AwaitingCompression { .. } => PipelineAction::CompressAndNormalize,
            PipelineState::AwaitingConversion { .. } => PipelineAction::ConvertToSnark,
            PipelineState::Done { .. } => PipelineAction::Finish,
            PipelineState::Failed => PipelineAction::Abort,
        }
    }

    /// Applies the outcome of the stage the host performed.
    pub fn step(self, e: PipelineEvent) -> (r: LocalProver)
        ensures
            r.state == step_spec(self.state, e),
    {
        let next = match (self.state, e) {
            (
                PipelineState::AwaitingExecution,
                PipelineEvent::Executed { journal: Some(j) },
            ) => PipelineState::AwaitingProof { journal: j },
            (PipelineState::AwaitingProof { journal }, PipelineEvent::Proved) => {
                PipelineState::AwaitingCompression { journal }
            },
            (
                PipelineState::AwaitingCompression { journal },
                PipelineEvent::Compressed { stark_seal },
            ) => PipelineState::AwaitingConversion { journal, stark_seal },
            (
                PipelineState::AwaitingConversion { journal, stark_seal },
                PipelineEvent::Converted { snark_seal },
            ) => PipelineState::Done { journal, snark_seal },
            _ => PipelineState::Failed,
        };
        LocalProver { state: next }
    }

    /// Hands out the run's only output: the journal/seal pair of a
    /// completed run, and nothing in any other state.
    pub fn into_output(self) -> (r: Option<(Vec<u8>, Vec<u8>)>)
        ensures
            match r {
                Some(out) => {
                    &&& self.state is Done
                    &&& state_journal(self.state) == Some(out.0@)
                    &&& self.state matches PipelineState::Done { snark_seal, .. }
                        && out.1@ == snark_seal@
                },
                None => !(self.state is Done),
            },
    {
        match self.state {
            PipelineState::Done { journal, snark_seal } => Some((journal, snark_seal)),
            _ => None,
        }
    }
}

/// Running a state machine over a whole sequence of stage outcomes.
pub open spec fn run_spec(s: PipelineState, events: Seq<PipelineEvent>) -> PipelineState
    decreases events.len(),
{
    if events.len() == 0 {
        s
    } else {
        run_spec(step_spec(s, events[0]), events.subrange(1, events.len() as int))
    }
}

/// A failed run stays failed: no later event resurrects it.
pub proof fn lemma_run_failed(events: Seq<PipelineEvent>)
    ensures
        run_spec(PipelineState::Failed, events) is Failed,
    decreases events.len(),
{
    if events.len() > 0 {
        lemma_run_failed(events.subrange(1, events.len() as int));
    }
}

/// One step never rewrites a fixed journal: once execution has committed
/// journal bytes, every state a later event reaches either holds exactly
/// those bytes or is the failed state.
pub proof fn lemma_step_preserves_journal(s: PipelineState, e: PipelineEvent)
    requires
        state_journal(s) is Some,
    ensures
        state_journal(step_spec(s, e)) is Some ==> state_journal(step_spec(s, e))
            == state_journal(s),
{
}

/// Whatever the later stages report, a run that has fixed its journal and
/// ends complete exposes exactly that journal: seals may differ from run
/// to run, the journal may not.
pub proof fn lemma_run_preserves_journal(s: PipelineState, events: Seq<PipelineEvent>)
    requires
        state_journal(s) is Some,
    ensures
        state_journal(run_spec(s, events)) is Some ==> state_journal(run_spec(s, events))
            == state_journal(s),
    decreases events.len(),
{
    if events.len() > 0 {
        let next = step_spec(s, events[0]);
        let rest = events.subrange(1, events.len() as int);
        if state_journal(next) is Some {
            lemma_step_preserves_journal(s, events[0]);
            lemma_run_preserves_journal(next, rest);
        } else {
            assert(next is Failed || next is AwaitingExecution);
            if next is Failed {
                lemma_run_failed(rest);
            }
        }
    }
}

} // verus!
