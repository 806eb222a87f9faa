//! The on-chain action produced by every state transition, and the report of
//! a failed action execution.

use vstd::prelude::*;

use crate::types::{BridgeTransferId, ChainId, HashLockPreImage, TransferDetails};
use crate::types::DetailsModel;

verus! {

/// Which contract operation the addressed chain must perform next.
#[derive(Debug)]
pub enum TransferActionType {
    /// Lock the matching funds on the counterparty chain.
    LockBridgeTransfer { details: TransferDetails },
    /// Complete the transfer on the initiating chain; carries the revealed
    /// secret once the counterparty has published it.
    WaitAndCompleteInitiator(Option<HashLockPreImage>),
    /// Return the locked funds to the initiator.
    RefundInitiator,
    /// The transfer has finished; nothing is owed on chain.
    TransferDone,
    /// Nothing to do.
    NoAction,
}

/// Mathematical image of [`TransferActionType`].
pub ghost enum ActionKindModel {
    LockBridgeTransfer { details: DetailsModel },
    WaitAndCompleteInitiator(Option<Seq<u8>>),
    RefundInitiator,
    TransferDone,
    NoAction,
}

impl View for TransferActionType {
    type V = ActionKindModel;

    open spec fn view(&self) -> ActionKindModel {
        match self {
            TransferActionType::LockBridgeTransfer { details } => ActionKindModel::LockBridgeTransfer {
                details: details@,
            },
            TransferActionType::WaitAndCompleteInitiator(p) => ActionKindModel::WaitAndCompleteInitiator(
                match p {
                    Some(pre) => Some(pre@),
                    None => None,
                },
            ),
            TransferActionType::RefundInitiator => ActionKindModel::RefundInitiator,
            TransferActionType::TransferDone => ActionKindModel::TransferDone,
            TransferActionType::NoAction => ActionKindModel::NoAction,
        }
    }
}

/// The output of a state transition: the next required contract operation,
/// directed at the chain that must act.
#[derive(Debug)]
pub struct TransferAction {
    pub chain: ChainId,
    pub transfer_id: BridgeTransferId,
    pub kind: TransferActionType,
}

/// Mathematical image of [`TransferAction`].
pub ghost struct ActionModel {
    pub chain: ChainId,
    pub transfer_id: Seq<u8>,
    pub kind: ActionKindModel,
}

impl View for TransferAction {
    type V = ActionModel;

    open spec fn view(&self) -> ActionModel {
        ActionModel { chain: self.chain, transfer_id: self.transfer_id@, kind: self.kind@ }
    }
}

/// Report that executing an action against its chain's client failed; wraps
/// the action together with the client's error rendered as text.
#[derive(Debug)]
pub struct ActionExecError(pub TransferAction, pub String);

impl ActionExecError {
    /// The failed action and the underlying error.
    pub fn inner(self) -> (r: (TransferAction, String))
        ensures
            r.0@ == self.0@,
            r.1@ == self.1@,
    {
        (self.0, self.1)
    }
}

} // verus!
