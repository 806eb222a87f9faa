//! End-to-end exercises of the transfer registry and its state machine.

use bridge_service::actions::{ActionExecError, TransferAction, TransferActionType};
use bridge_service::events::{BridgeContractEvent, InvalidEventError, TransferEvent};
use bridge_service::runtime::Runtime;
use bridge_service::states::TransferStateType;
use bridge_service::types::{BridgeTransferId, ChainId, HashLockPreImage, TransferDetails};

fn details() -> TransferDetails {
    TransferDetails {
        amount: 1000,
        hash_lock: [0xab; 32],
        time_lock: 500,
        initiator_address: vec![1, 2, 3],
        recipient_address: vec![4, 5, 6],
    }
}

fn initiated(chain: ChainId, id: [u8; 32]) -> TransferEvent {
    TransferEvent {
        chain,
        contract_event: BridgeContractEvent::Initiated(BridgeTransferId(id), details()),
    }
}

fn locked(chain: ChainId, id: [u8; 32]) -> TransferEvent {
    TransferEvent {
        chain,
        contract_event: BridgeContractEvent::Locked(BridgeTransferId(id), details()),
    }
}

fn holds(rt: &Runtime, id: [u8; 32]) -> usize {
    rt.iter_state().iter().filter(|s| s.transfer_id.0 == id).count()
}

#[test]
fn initiated_creates_initialized_and_targets_counterparty() {
    let mut rt = Runtime::new();
    let id = [7u8; 32];
    let action = rt.process_event(initiated(ChainId::ONE, id)).expect("accepted");
    assert_eq!(action.chain, ChainId::TWO);
    assert_eq!(action.transfer_id.0, id);
    match action.kind {
        TransferActionType::LockBridgeTransfer { details: d } => {
            assert_eq!(d.amount, 1000);
            assert_eq!(d.hash_lock, [0xab; 32]);
            assert_eq!(d.time_lock, 500);
            assert_eq!(d.initiator_address, vec![1, 2, 3]);
            assert_eq!(d.recipient_address, vec![4, 5, 6]);
        }
        other => panic!("unexpected action kind: {:?}", other),
    }
    let states = rt.iter_state();
    assert_eq!(states.len(), 1);
    assert_eq!(states[0].transfer_id.0, id);
    assert_eq!(states[0].init_chain, ChainId::ONE);
    assert_eq!(states[0].state, TransferStateType::Initialized);
    assert_eq!(states[0].retry_on_error, 0);
}

#[test]
fn locked_moves_to_locked_on_counterparty_and_targets_initiator() {
    let mut rt = Runtime::new();
    let id = [7u8; 32];
    rt.process_event(initiated(ChainId::ONE, id)).expect("accepted");
    let action = rt.process_event(locked(ChainId::TWO, id)).expect("accepted");
    assert_eq!(action.chain, ChainId::ONE);
    assert_eq!(action.transfer_id.0, id);
    assert!(matches!(action.kind, TransferActionType::WaitAndCompleteInitiator(None)));
    let states = rt.iter_state();
    assert_eq!(states.len(), 1);
    assert_eq!(states[0].state, TransferStateType::LockedOnCounterparty);
}

#[test]
fn locked_for_unknown_id_is_rejected() {
    let mut rt = Runtime::new();
    let err = rt.process_event(locked(ChainId::TWO, [9u8; 32])).unwrap_err();
    assert_eq!(err, InvalidEventError::StateNotFound);
    assert!(rt.iter_state().is_empty());
}

#[test]
fn second_initiated_for_same_id_is_rejected() {
    let mut rt = Runtime::new();
    let id = [3u8; 32];
    rt.process_event(initiated(ChainId::ONE, id)).expect("accepted");
    let err = rt.process_event(initiated(ChainId::TWO, id)).unwrap_err();
    assert_eq!(err, InvalidEventError::StateNotFound);
    assert_eq!(holds(&rt, id), 1);
    assert_eq!(rt.iter_state()[0].init_chain, ChainId::ONE);
}

#[test]
fn registry_holds_at_most_one_state_per_id() {
    let mut rt = Runtime::new();
    let a = [1u8; 32];
    let b = [2u8; 32];
    rt.process_event(initiated(ChainId::ONE, a)).expect("accepted");
    rt.process_event(initiated(ChainId::TWO, b)).expect("accepted");
    let _ = rt.process_event(initiated(ChainId::TWO, a));
    let _ = rt.process_event(locked(ChainId::TWO, a));
    assert_eq!(holds(&rt, a), 1);
    assert_eq!(holds(&rt, b), 1);
    assert_eq!(rt.iter_state().len(), 2);
}

#[test]
fn counterpart_completed_carries_the_preimage() {
    let mut rt = Runtime::new();
    let id = [5u8; 32];
    rt.process_event(initiated(ChainId::ONE, id)).expect("accepted");
    rt.process_event(locked(ChainId::TWO, id)).expect("accepted");
    let event = TransferEvent {
        chain: ChainId::TWO,
        contract_event: BridgeContractEvent::CounterPartCompleted(
            BridgeTransferId(id),
            HashLockPreImage(vec![0xde, 0xad]),
        ),
    };
    let action = rt.process_event(event).expect("accepted");
    assert_eq!(action.chain, ChainId::ONE);
    match action.kind {
        TransferActionType::WaitAndCompleteInitiator(Some(pre)) => {
            assert_eq!(pre.0, vec![0xde, 0xad]);
        }
        other => panic!("unexpected action kind: {:?}", other),
    }
    assert_eq!(rt.iter_state()[0].state, TransferStateType::CounterpartyCompleted);
}

#[test]
fn transfer_reaching_done_is_removed() {
    let mut rt = Runtime::new();
    let id = [8u8; 32];
    rt.process_event(initiated(ChainId::ONE, id)).expect("accepted");
    rt.process_event(locked(ChainId::TWO, id)).expect("accepted");
    let completed = TransferEvent {
        chain: ChainId::TWO,
        contract_event: BridgeContractEvent::CounterPartCompleted(
            BridgeTransferId(id),
            HashLockPreImage(vec![1]),
        ),
    };
    rt.process_event(completed).expect("accepted");
    let done = TransferEvent {
        chain: ChainId::ONE,
        contract_event: BridgeContractEvent::InitiatorCompleted(BridgeTransferId(id)),
    };
    let action = rt.process_event(done).expect("accepted");
    assert!(matches!(action.kind, TransferActionType::TransferDone));
    assert_eq!(holds(&rt, id), 0);
    assert!(rt.iter_state().is_empty());
    // No further event is valid against the removed transfer.
    let late = TransferEvent {
        chain: ChainId::ONE,
        contract_event: BridgeContractEvent::Refunded(BridgeTransferId(id)),
    };
    assert_eq!(rt.process_event(late).unwrap_err(), InvalidEventError::StateNotFound);
}

#[test]
fn cancelled_event_parks_the_transfer() {
    let mut rt = Runtime::new();
    let id = [4u8; 32];
    rt.process_event(initiated(ChainId::ONE, id)).expect("accepted");
    let event = TransferEvent {
        chain: ChainId::ONE,
        contract_event: BridgeContractEvent::Cancelled(BridgeTransferId(id)),
    };
    let action = rt.process_event(event).expect("accepted");
    assert!(matches!(action.kind, TransferActionType::NoAction));
    assert_eq!(rt.iter_state()[0].state, TransferStateType::Cancelled);
}

#[test]
fn refunded_event_parks_the_transfer() {
    let mut rt = Runtime::new();
    let id = [6u8; 32];
    rt.process_event(initiated(ChainId::TWO, id)).expect("accepted");
    rt.process_event(locked(ChainId::ONE, id)).expect("accepted");
    let event = TransferEvent {
        chain: ChainId::TWO,
        contract_event: BridgeContractEvent::Refunded(BridgeTransferId(id)),
    };
    let action = rt.process_event(event).expect("accepted");
    assert!(matches!(action.kind, TransferActionType::NoAction));
    assert_eq!(rt.iter_state()[0].state, TransferStateType::Refunded);
}

#[test]
fn locked_event_is_invalid_against_locked_state() {
    let mut rt = Runtime::new();
    let id = [2u8; 32];
    rt.process_event(initiated(ChainId::ONE, id)).expect("accepted");
    rt.process_event(locked(ChainId::TWO, id)).expect("accepted");
    let err = rt.process_event(locked(ChainId::TWO, id)).unwrap_err();
    assert_eq!(err, InvalidEventError::StateNotFound);
    assert_eq!(rt.iter_state()[0].state, TransferStateType::LockedOnCounterparty);
}

#[test]
fn validate_state_matches_process_event() {
    let mut rt = Runtime::new();
    let id = [1u8; 32];
    assert!(rt.validate_state(&initiated(ChainId::ONE, id)).is_ok());
    assert_eq!(
        rt.validate_state(&locked(ChainId::TWO, id)).unwrap_err(),
        InvalidEventError::StateNotFound
    );
    rt.process_event(initiated(ChainId::ONE, id)).expect("accepted");
    assert!(rt.validate_state(&locked(ChainId::TWO, id)).is_ok());
    assert_eq!(
        rt.validate_state(&initiated(ChainId::ONE, id)).unwrap_err(),
        InvalidEventError::StateNotFound
    );
}

fn lock_error(id: [u8; 32]) -> ActionExecError {
    ActionExecError(
        TransferAction {
            chain: ChainId::TWO,
            transfer_id: BridgeTransferId(id),
            kind: TransferActionType::LockBridgeTransfer { details: details() },
        },
        "transaction submission failed".to_string(),
    )
}

#[test]
fn sixth_lock_failure_escalates_to_refund() {
    let mut rt = Runtime::new();
    let id = [7u8; 32];
    rt.process_event(initiated(ChainId::ONE, id)).expect("accepted");
    for round in 1..=5u32 {
        let retry = rt
            .process_action_exec_error(lock_error(id))
            .expect("below the threshold the action is handed back");
        assert!(matches!(retry.kind, TransferActionType::LockBridgeTransfer { .. }));
        assert_eq!(retry.chain, ChainId::TWO);
        assert_eq!(rt.iter_state()[0].retry_on_error, round);
    }
    let escalated = rt
        .process_action_exec_error(lock_error(id))
        .expect("the sixth failure escalates");
    assert!(matches!(escalated.kind, TransferActionType::RefundInitiator));
    assert_eq!(escalated.chain, ChainId::ONE);
    assert_eq!(escalated.transfer_id.0, id);
    assert_eq!(rt.iter_state()[0].state, TransferStateType::Refunded);
    assert_eq!(rt.iter_state()[0].retry_on_error, 6);
}

#[test]
fn failure_report_for_unknown_transfer_is_discarded() {
    let mut rt = Runtime::new();
    assert!(rt.process_action_exec_error(lock_error([9u8; 32])).is_none());
    assert!(rt.iter_state().is_empty());
}

#[test]
fn persistent_refund_failure_is_left_alone() {
    let mut rt = Runtime::new();
    let id = [3u8; 32];
    rt.process_event(initiated(ChainId::ONE, id)).expect("accepted");
    let refund_error = || {
        ActionExecError(
            TransferAction {
                chain: ChainId::ONE,
                transfer_id: BridgeTransferId(id),
                kind: TransferActionType::RefundInitiator,
            },
            "transaction submission failed".to_string(),
        )
    };
    for _ in 0..5 {
        assert!(rt.process_action_exec_error(refund_error()).is_some());
    }
    // Above the threshold a refund failure produces no further action, but
    // the transfer stays recorded.
    assert!(rt.process_action_exec_error(refund_error()).is_none());
    assert_eq!(holds(&rt, id), 1);
    assert_eq!(rt.iter_state()[0].retry_on_error, 6);
}
