//! Canonical representation of a chain-originated contract event, tagged
//! with the chain it came from.

use vstd::prelude::*;

use crate::types::{BridgeTransferId, ChainId, HashLockPreImage, TransferDetails};
use crate::types::DetailsModel;

verus! {

/// A typed contract event, as a chain monitor reports it. Every variant
/// carries, or is keyed by, the transfer identifier it concerns.
#[derive(Debug)]
pub enum BridgeContractEvent {
    /// A swap was opened on the originating chain.
    Initiated(BridgeTransferId, TransferDetails),
    /// The counterparty chain locked the matching funds.
    Locked(BridgeTransferId, TransferDetails),
    /// The counterparty completed its side, revealing the secret.
    CounterPartCompleted(BridgeTransferId, HashLockPreImage),
    /// The initiating chain completed its side.
    InitiatorCompleted(BridgeTransferId),
    /// The swap was abandoned before funds were locked.
    Cancelled(BridgeTransferId),
    /// The locked funds were returned to the initiator.
    Refunded(BridgeTransferId),
}

/// Mathematical image of [`BridgeContractEvent`].
pub ghost enum ContractEventModel {
    Initiated(Seq<u8>, DetailsModel),
    Locked(Seq<u8>, DetailsModel),
    CounterPartCompleted(Seq<u8>, Seq<u8>),
    InitiatorCompleted(Seq<u8>),
    Cancelled(Seq<u8>),
    Refunded(Seq<u8>),
}

impl View for BridgeContractEvent {
    type V = ContractEventModel;

    open spec fn view(&self) -> ContractEventModel {
        match self {
            BridgeContractEvent::Initiated(id, d) => ContractEventModel::Initiated(id@, d@),
            BridgeContractEvent::Locked(id, d) => ContractEventModel::Locked(id@, d@),
            BridgeContractEvent::CounterPartCompleted(id, p) => ContractEventModel::CounterPartCompleted(
                id@,
                p@,
            ),
            BridgeContractEvent::InitiatorCompleted(id) => ContractEventModel::InitiatorCompleted(id@),
            BridgeContractEvent::Cancelled(id) => ContractEventModel::Cancelled(id@),
            BridgeContractEvent::Refunded(id) => ContractEventModel::Refunded(id@),
        }
    }
}

impl ContractEventModel {
    /// The transfer identifier the event concerns.
    pub open spec fn transfer_id(self) -> Seq<u8> {
        match self {
            ContractEventModel::Initiated(id, _) => id,
            ContractEventModel::Locked(id, _) => id,
            ContractEventModel::CounterPartCompleted(id, _) => id,
            ContractEventModel::InitiatorCompleted(id) => id,
            ContractEventModel::Cancelled(id) => id,
            ContractEventModel::Refunded(id) => id,
        }
    }

    pub open spec fn is_initiated(self) -> bool {
        self is Initiated
    }
}

impl BridgeContractEvent {
    /// The transfer identifier the event concerns.
    pub fn bridge_transfer_id(&self) -> (r: BridgeTransferId)
        ensures
            r@ == self@.transfer_id(),
    {
        match self {
            BridgeContractEvent::Initiated(id, _) => *id,
            BridgeContractEvent::Locked(id, _) => *id,
            BridgeContractEvent::CounterPartCompleted(id, _) => *id,
            BridgeContractEvent::InitiatorCompleted(id) => *id,
            BridgeContractEvent::Cancelled(id) => *id,
            BridgeContractEvent::Refunded(id) => *id,
        }
    }

    /// Whether the event opens a new swap.
    pub fn is_initiated_event(&self) -> (r: bool)
        ensures
            r == self@.is_initiated(),
    {
        match self {
            BridgeContractEvent::Initiated(_, _) => true,
            _ => false,
        }
    }
}

/// A contract event paired with the chain it originated from.
#[derive(Debug)]
pub struct TransferEvent {
    pub chain: ChainId,
    pub contract_event: BridgeContractEvent,
}

/// Mathematical image of [`TransferEvent`].
pub ghost struct EventModel {
    pub chain: ChainId,
    pub contract_event: ContractEventModel,
}

impl View for TransferEvent {
    type V = EventModel;

    open spec fn view(&self) -> EventModel {
        EventModel { chain: self.chain, contract_event: self.contract_event@ }
    }
}

impl TransferEvent {
    /// Normalizes a chain's native contract event plus the chain it came
    /// from into one tagged event.
    pub fn new(contract_event: BridgeContractEvent, chain: ChainId) -> (r: TransferEvent)
        ensures
            r@ == (EventModel { chain, contract_event: contract_event@ }),
    {
        TransferEvent { chain, contract_event }
    }
}

/// Rejection of a chain event by the registry's validation step.
#[derive(Clone, Copy, Debug, PartialEq, Eq, Structural)]
pub enum InvalidEventError {
    /// The event referenced a transfer with no compatible recorded state,
    /// or tried to initiate a transfer that already exists.
    StateNotFound,
}

} // verus!
