//! Liveness status of the two chain monitoring loops, as the orchestrator
//! aggregates it from periodic round-trip probes.

use vstd::prelude::*;

use crate::types::ChainId;

verus! {

/// How one liveness probe of a chain's monitoring loop resolved.
#[derive(Clone, Copy, Debug, PartialEq, Eq, Structural)]
pub enum ProbeOutcome {
    /// The monitoring loop answered within the probe timeout.
    Reply(bool),
    /// The reply channel closed with an error before any answer.
    ClosedWithError,
    /// No reply arrived within the probe timeout.
    TimedOut,
    /// The probe could not even be sent to the monitoring loop.
    SendFailed,
}

/// The chain's liveness as one probe outcome reports it: only an
/// affirmative reply within the timeout counts as live.
pub open spec fn spec_probe_status(outcome: ProbeOutcome) -> bool {
    outcome == ProbeOutcome::Reply(true)
}

/// Maps a probe outcome to the chain status it establishes.
pub fn probe_result_status(outcome: ProbeOutcome) -> (r: bool)
    ensures
        r == spec_probe_status(outcome),
{
    match outcome {
        ProbeOutcome::Reply(status) => status,
        ProbeOutcome::ClosedWithError => false,
        ProbeOutcome::TimedOut => false,
        ProbeOutcome::SendFailed => false,
    }
}

/// Aggregate liveness of the two chain monitoring loops.
#[derive(Clone, Copy, Debug, PartialEq, Eq, Structural)]
pub struct HeathCheckStatus {
    pub chain_one: bool,
    pub chain_two: bool,
}

/// The status record with one chain's flag replaced.
pub open spec fn spec_update_state(hs: HeathCheckStatus, chain: ChainId, state: bool) -> HeathCheckStatus {
    match chain {
        ChainId::ONE => HeathCheckStatus { chain_one: state, ..hs },
        ChainId::TWO => HeathCheckStatus { chain_two: state, ..hs },
    }
}

/// One chain's flag of the status record.
pub open spec fn spec_chain_status(hs: HeathCheckStatus, chain: ChainId) -> bool {
    match chain {
        ChainId::ONE => hs.chain_one,
        ChainId::TWO => hs.chain_two,
    }
}

impl HeathCheckStatus {
    /// Both chains are presumed live until a probe says otherwise.
    pub fn new() -> (r: HeathCheckStatus)
        ensures
            r == (HeathCheckStatus { chain_one: true, chain_two: true }),
    {
        HeathCheckStatus { chain_one: true, chain_two: true }
    }

    /// Overall health: both chains must be live.
    pub fn check(&self) -> (r: bool)
        ensures
            r == (self.chain_one && self.chain_two),
    {
        self.chain_one && self.chain_two
    }

    /// Records the latest probe result for one chain.
    pub fn update_state(&mut self, chain: ChainId, state: bool)
        ensures
            *final(self) == spec_update_state(*old(self), chain, state),
    {
        match chain {
            ChainId::ONE => self.chain_one = state,
            ChainId::TWO => self.chain_two = state,
        }
    }

    /// The reply to an external health-check query: `"OK"` when both chains
    /// are live, otherwise a diagnostic line with both flags.
    pub fn response(&self) -> (r: String)
        ensures
            r@ == spec_response(*self),
    {
        if self.chain_one && self.chain_two {
            "OK".to_owned()
        } else if self.chain_one {
            "NOK : chain_one: true, chain_two: false".to_owned()
        } else if self.chain_two {
            "NOK : chain_one: false, chain_two: true".to_owned()
        } else {
            "NOK : chain_one: false, chain_two: false".to_owned()
        }
    }
}

/// The health-check reply text for a given status record.
pub open spec fn spec_response(hs: HeathCheckStatus) -> Seq<char> {
    if hs.chain_one && hs.chain_two {
        "OK"@
    } else if hs.chain_one {
        "NOK : chain_one: true, chain_two: false"@
    } else if hs.chain_two {
        "NOK : chain_one: false, chain_two: true"@
    } else {
        "NOK : chain_one: false, chain_two: false"@
    }
}

/// Liveness timeout: a probe of a chain that gets no reply within the
/// timeout leaves that chain marked not live, whatever its status was.
pub proof fn lemma_liveness_timeout(hs: HeathCheckStatus, chain: ChainId)
    ensures
        !spec_chain_status(
            spec_update_state(hs, chain, spec_probe_status(ProbeOutcome::TimedOut)),
            chain,
        ),
{
}

} // verus!
