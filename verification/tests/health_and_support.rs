//! Liveness aggregation, chain identifiers, and the small support types.

use bridge_service::chains::{EthInitiatorError, MoveCounterpartyError};
use bridge_service::health::{probe_result_status, HeathCheckStatus, ProbeOutcome};
use bridge_service::signing::{Bytes, Message, Signature};
use bridge_service::types::{vec_to_array, BridgeTransferId, ChainId};

#[test]
fn other_swaps_the_chains() {
    assert_eq!(ChainId::ONE.other(), ChainId::TWO);
    assert_eq!(ChainId::TWO.other(), ChainId::ONE);
}

#[test]
fn transfer_id_equality_is_by_bytes() {
    let a = BridgeTransferId([1u8; 32]);
    let b = BridgeTransferId([1u8; 32]);
    let mut c = [1u8; 32];
    c[31] = 2;
    let c = BridgeTransferId(c);
    assert!(a.equals(&b));
    assert!(!a.equals(&c));
}

#[test]
fn probe_outcomes_resolve_to_status() {
    assert!(probe_result_status(ProbeOutcome::Reply(true)));
    assert!(!probe_result_status(ProbeOutcome::Reply(false)));
    assert!(!probe_result_status(ProbeOutcome::ClosedWithError));
    assert!(!probe_result_status(ProbeOutcome::TimedOut));
    assert!(!probe_result_status(ProbeOutcome::SendFailed));
}

#[test]
fn probe_timeout_marks_the_chain_down() {
    let mut hs = HeathCheckStatus::new();
    assert!(hs.check());
    hs.update_state(ChainId::TWO, probe_result_status(ProbeOutcome::TimedOut));
    assert!(!hs.check());
    assert!(hs.chain_one);
    assert!(!hs.chain_two);
}

#[test]
fn health_response_reports_both_flags() {
    let mut hs = HeathCheckStatus::new();
    assert_eq!(hs.response(), "OK");
    hs.update_state(ChainId::TWO, false);
    assert_eq!(hs.response(), "NOK : chain_one: true, chain_two: false");
    hs.update_state(ChainId::ONE, false);
    hs.update_state(ChainId::TWO, true);
    assert_eq!(hs.response(), "NOK : chain_one: false, chain_two: true");
    hs.update_state(ChainId::TWO, false);
    assert_eq!(hs.response(), "NOK : chain_one: false, chain_two: false");
    hs.update_state(ChainId::ONE, true);
    hs.update_state(ChainId::TWO, true);
    assert_eq!(hs.response(), "OK");
}

#[test]
fn vec_to_array_accepts_exactly_32_bytes() {
    let v: Vec<u8> = (0..32).collect();
    let a = vec_to_array(v.clone()).expect("32 bytes convert");
    assert_eq!(a.to_vec(), v);
    assert!(vec_to_array(vec![0u8; 31]).is_err());
    assert!(vec_to_array(vec![0u8; 33]).is_err());
    assert!(vec_to_array(Vec::new()).is_err());
}

#[test]
fn chain_error_messages() {
    assert_eq!(MoveCounterpartyError::TransferNotFound.message(), "Transfer not found");
    assert_eq!(
        MoveCounterpartyError::InvalidHashLockPreImage.message(),
        "Invalid hash lock pre image (secret)"
    );
    assert_eq!(
        EthInitiatorError::InitiateTransferError.message(),
        "Failed to initiate bridge transfer"
    );
    assert_eq!(EthInitiatorError::TransferNotFound.message(), "Transfer not found");
    assert_eq!(
        EthInitiatorError::InvalidHashLockPreImage.message(),
        "Invalid hash lock pre image (secret)"
    );
}

#[test]
fn signing_messages_carry_their_payloads() {
    let sign = Message::Sign(Bytes(vec![1, 2, 3]));
    match sign {
        Message::Sign(bytes) => assert_eq!(bytes.0, vec![1, 2, 3]),
        Message::Verify(_, _) => panic!("expected a sign job"),
    }
    let verify = Message::Verify(Bytes(vec![4]), Signature(vec![5, 6]));
    match verify {
        Message::Verify(bytes, sig) => {
            assert_eq!(bytes.0, vec![4]);
            assert_eq!(sig.0, vec![5, 6]);
        }
        Message::Sign(_) => panic!("expected a verify job"),
    }
}
