//! Per-transfer state, the events each state accepts, and the pure
//! transition functions from (current state, event) to (next state, action).

use vstd::prelude::*;

use crate::actions::{ActionKindModel, TransferAction, TransferActionType};
use crate::actions::ActionModel;
use crate::events::ContractEventModel;
use crate::events::BridgeContractEvent;
use crate::types::{BridgeTransferId, ChainId, TransferDetails};
use crate::types::DetailsModel;

verus! {

/// Where a transfer stands in its life cycle. `Done` is terminal: the step
/// that produces it also removes the transfer from the registry.
#[derive(Clone, Copy, Debug, PartialEq, Eq, Structural)]
pub enum TransferStateType {
    Initialized,
    LockedOnCounterparty,
    CounterpartyCompleted,
    InitiatorCompleted,
    Cancelled,
    Refunded,
    Done,
}

/// The record the registry keeps for one transfer. Created by an `Initiated`
/// event and owned exclusively by the registry from then on.
#[derive(Debug)]
pub struct TransferState {
    pub transfer_id: BridgeTransferId,
    pub init_chain: ChainId,
    pub state: TransferStateType,
    pub retry_on_error: u32,
    pub details: TransferDetails,
}

/// Mathematical image of [`TransferState`].
pub ghost struct StateModel {
    pub transfer_id: Seq<u8>,
    pub init_chain: ChainId,
    pub state: TransferStateType,
    pub retry_on_error: u32,
    pub details: DetailsModel,
}

impl View for TransferState {
    type V = StateModel;

    open spec fn view(&self) -> StateModel {
        StateModel {
            transfer_id: self.transfer_id@,
            init_chain: self.init_chain,
            state: self.state,
            retry_on_error: self.retry_on_error,
            details: self.details@,
        }
    }
}

/// Which events a state accepts as its successor. Each state admits only a
/// specific family: a second `Initiated` is never valid, `Cancelled` and
/// `Refunded` close a swap from any live state, and the remaining events are
/// valid exactly against the state that awaits them.
pub open spec fn accepts(s: TransferStateType, e: ContractEventModel) -> bool {
    match e {
        ContractEventModel::Initiated(_, _) => false,
        ContractEventModel::Locked(_, _) => s == TransferStateType::Initialized,
        ContractEventModel::CounterPartCompleted(_, _) => s
            == TransferStateType::LockedOnCounterparty,
        ContractEventModel::InitiatorCompleted(_) => s == TransferStateType::CounterpartyCompleted,
        ContractEventModel::Cancelled(_) => s != TransferStateType::Done,
        ContractEventModel::Refunded(_) => s != TransferStateType::Done,
    }
}

/// The state an accepted non-`Initiated` event moves a transfer into.
pub open spec fn next_state_type(e: ContractEventModel) -> TransferStateType {
    match e {
        ContractEventModel::Initiated(_, _) => TransferStateType::Initialized,
        ContractEventModel::Locked(_, _) => TransferStateType::LockedOnCounterparty,
        ContractEventModel::CounterPartCompleted(_, _) => TransferStateType::CounterpartyCompleted,
        ContractEventModel::InitiatorCompleted(_) => TransferStateType::Done,
        ContractEventModel::Cancelled(_) => TransferStateType::Cancelled,
        ContractEventModel::Refunded(_) => TransferStateType::Refunded,
    }
}

/// The action an accepted non-`Initiated` event produces.
pub open spec fn event_action_kind(e: ContractEventModel) -> ActionKindModel {
    match e {
        ContractEventModel::Initiated(_, d) => ActionKindModel::LockBridgeTransfer { details: d },
        ContractEventModel::Locked(_, _) => ActionKindModel::WaitAndCompleteInitiator(None),
        ContractEventModel::CounterPartCompleted(_, p) => ActionKindModel::WaitAndCompleteInitiator(
            Some(p),
        ),
        ContractEventModel::InitiatorCompleted(_) => ActionKindModel::TransferDone,
        ContractEventModel::Cancelled(_) => ActionKindModel::NoAction,
        ContractEventModel::Refunded(_) => ActionKindModel::NoAction,
    }
}

impl StateModel {
    /// The same record moved into another life-cycle state.
    pub open spec fn with_state(self, s: TransferStateType) -> StateModel {
        StateModel { state: s, ..self }
    }
}

impl TransferState {
    /// Whether `event` is a valid successor of this record's current state.
    pub fn validate_event(&self, event: &BridgeContractEvent) -> (r: bool)
        ensures
            r == accepts(self@.state, event@),
    {
        match (self.state, event) {
            (_, BridgeContractEvent::Initiated(_, _)) => false,
            (TransferStateType::Initialized, BridgeContractEvent::Locked(_, _)) => true,
            (
                TransferStateType::LockedOnCounterparty,
                BridgeContractEvent::CounterPartCompleted(_, _),
            ) => true,
            (
                TransferStateType::CounterpartyCompleted,
                BridgeContractEvent::InitiatorCompleted(_),
            ) => true,
            (s, BridgeContractEvent::Cancelled(_)) => !matches!(s, TransferStateType::Done),
            (s, BridgeContractEvent::Refunded(_)) => !matches!(s, TransferStateType::Done),
            _ => false,
        }
    }

    /// Creates the record for a freshly initiated transfer, together with the
    /// lock action the counterparty now owes. The caller directs the action
    /// at the counterparty chain.
    pub fn transition_from_initiated(
        chain: ChainId,
        transfer_id: BridgeTransferId,
        details: TransferDetails,
    ) -> (r: (TransferState, TransferAction))
        ensures
            r.0@ == (StateModel {
                transfer_id: transfer_id@,
                init_chain: chain,
                state: TransferStateType::Initialized,
                retry_on_error: 0,
                details: details@,
            }),
            r.1@ == (ActionModel {
                chain,
                transfer_id: transfer_id@,
                kind: ActionKindModel::LockBridgeTransfer { details: details@ },
            }),
    {
        let action_details = details.duplicate();
        let state = TransferState {
            transfer_id,
            init_chain: chain,
            state: TransferStateType::Initialized,
            retry_on_error: 0,
            details,
        };
        let action = TransferAction {
            chain,
            transfer_id,
            kind: TransferActionType::LockBridgeTransfer { details: action_details },
        };
        (state, action)
    }

    /// The counterparty locked its funds: wait for its completion, then
    /// complete on the initiating chain.
    pub fn transition_from_locked_done(
        self,
        _transfer_id: BridgeTransferId,
        _details: TransferDetails,
    ) -> (r: (TransferState, TransferActionType))
        ensures
            r.0@ == self@.with_state(TransferStateType::LockedOnCounterparty),
            r.1@ == ActionKindModel::WaitAndCompleteInitiator(None),
    {
        (
            TransferState { state: TransferStateType::LockedOnCounterparty, ..self },
            TransferActionType::WaitAndCompleteInitiator(None),
        )
    }

    /// The counterparty completed and revealed the secret: complete on the
    /// initiating chain with that secret.
    pub fn transition_from_counterpart_completed(
        self,
        _transfer_id: BridgeTransferId,
        preimage: crate::types::HashLockPreImage,
    ) -> (r: (TransferState, TransferActionType))
        ensures
            r.0@ == self@.with_state(TransferStateType::CounterpartyCompleted),
            r.1@ == ActionKindModel::WaitAndCompleteInitiator(Some(preimage@)),
    {
        (
            TransferState { state: TransferStateType::CounterpartyCompleted, ..self },
            TransferActionType::WaitAndCompleteInitiator(Some(preimage)),
        )
    }

    /// The initiating chain completed: the swap is finished.
    pub fn transition_from_initiator_completed(self, _transfer_id: BridgeTransferId) -> (r: (
        TransferState,
        TransferActionType,
    ))
        ensures
            r.0@ == self@.with_state(TransferStateType::Done),
            r.1@ == ActionKindModel::TransferDone,
    {
        (
            TransferState { state: TransferStateType::Done, ..self },
            TransferActionType::TransferDone,
        )
    }

    /// The swap was abandoned before funds were locked.
    pub fn transition_from_cancelled(self, _transfer_id: BridgeTransferId) -> (r: (
        TransferState,
        TransferActionType,
    ))
        ensures
            r.0@ == self@.with_state(TransferStateType::Cancelled),
            r.1@ == ActionKindModel::NoAction,
    {
        (
            TransferState { state: TransferStateType::Cancelled, ..self },
            TransferActionType::NoAction,
        )
    }

    /// The locked funds were returned to the initiator.
    pub fn transition_from_refunded(self, _transfer_id: BridgeTransferId) -> (r: (
        TransferState,
        TransferActionType,
    ))
        ensures
            r.0@ == self@.with_state(TransferStateType::Refunded),
            r.1@ == ActionKindModel::NoAction,
    {
        (
            TransferState { state: TransferStateType::Refunded, ..self },
            TransferActionType::NoAction,
        )
    }

    /// Escalation only, never driven by a chain event: abandon the transfer
    /// and refund the initiator.
    pub fn transition_to_refund(&self) -> (r: (TransferStateType, TransferActionType))
        ensures
            r.0 == TransferStateType::Refunded,
            r.1@ == ActionKindModel::RefundInitiator,
    {
        (TransferStateType::Refunded, TransferActionType::RefundInitiator)
    }
}

} // verus!
