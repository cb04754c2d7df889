use soroban_sdk::testutils::EnvTestConfig;
use soroban_sdk::Env;
use stellar_insured::address::Address;
use stellar_insured::bridge::contract::{
    u64_be_bytes, FeeTransfer, PropertyBridge, CONTRACT_VERSION, MAX_HISTORY_ITEMS, MAX_OPERATORS,
};
use stellar_insured::bridge::types::{BridgeError, BridgeOperationStatus, PropertyMetadata, RecoveryAction};
use stellar_insured::bridge::validation::{
    require_future_timestamp, require_non_zero_u128, require_non_zero_u32, require_non_zero_u64,
};


/// A host environment that writes no test snapshot when dropped.
fn quiet_env() -> Env {
    Env::new_with_config(EnvTestConfig { capture_snapshot_at_drop: false })
}

fn addr(n: u128) -> Address {
    Address::account(n, n)
}

fn metadata() -> PropertyMetadata {
    PropertyMetadata {
        location: "1 Main St".to_string(),
        size: 120,
        legal_description: "Lot 7".to_string(),
        valuation: 500_000,
        documents_url: "ipfs://docs".to_string(),
    }
}

const ADMIN: u128 = 1;
const FEE_TOKEN: u128 = 2;
const FEE_RECIPIENT: u128 = 3;

fn setup(fee: i128) -> PropertyBridge {
    let mut b = PropertyBridge::new();
    b.init(addr(ADMIN), vec![2, 3], 1, 3, 3600, 100_000, fee, addr(FEE_TOKEN), addr(FEE_RECIPIENT))
        .unwrap();
    b
}

fn request(b: &mut PropertyBridge, caller: Address, nonce: u64, sigs: u32) -> u64 {
    b.initiate_bridge_multisig(caller, 7, 2, addr(50), sigs, Some(600), metadata(), nonce, 100)
        .unwrap()
        .0
}

#[test]
fn initialization_sets_up_the_bridge() {
    let b = setup(0);
    assert_eq!(b.version(), CONTRACT_VERSION);
    assert_eq!(b.get_admin(), Ok(addr(ADMIN)));
    assert!(b.is_operator(addr(ADMIN)));
    let config = b.get_config().unwrap();
    assert_eq!(config.supported_chains, vec![2, 3]);
    assert!(!config.emergency_pause);
    let info = b.get_chain_info(3).unwrap();
    assert_eq!(info.chain_name, "Chain".to_string());
    assert_eq!(info.gas_multiplier, 100);
    assert_eq!(info.confirmation_blocks, 6);
    assert!(b.get_chain_info(4).is_none());
}

#[test]
fn initialization_validates_its_configuration() {
    let mut b = PropertyBridge::new();
    assert_eq!(b.get_config().map(|c| c.min_signatures_required), Err(BridgeError::NotInitialized));
    assert_eq!(
        b.init(addr(1), vec![], 1, 3, 3600, 1, 0, addr(2), addr(3)),
        Err(BridgeError::InvalidConfig)
    );
    assert_eq!(
        b.init(addr(1), vec![2], 0, 3, 3600, 1, 0, addr(2), addr(3)),
        Err(BridgeError::InvalidParameter)
    );
    assert_eq!(
        b.init(addr(1), vec![2, 0], 1, 3, 3600, 1, 0, addr(2), addr(3)),
        Err(BridgeError::InvalidParameter)
    );
    assert_eq!(
        b.init(addr(1), (1..=21).collect(), 1, 3, 3600, 1, 0, addr(2), addr(3)),
        Err(BridgeError::InvalidConfig)
    );
    assert_eq!(
        b.init(addr(1), vec![2], 4, 3, 3600, 1, 0, addr(2), addr(3)),
        Err(BridgeError::InvalidConfig)
    );
    b.init(addr(1), vec![2], 1, 3, 3600, 1, 0, addr(2), addr(3)).unwrap();
    assert_eq!(
        b.init(addr(1), vec![2], 1, 3, 3600, 1, 0, addr(2), addr(3)),
        Err(BridgeError::AlreadyInitialized)
    );
}

#[test]
fn a_request_collects_the_service_fee() {
    let mut b = setup(25);
    let (id, fee) = b
        .initiate_bridge_multisig(addr(9), 7, 2, addr(50), 1, None, metadata(), 1, 100)
        .unwrap();
    assert_eq!(id, 1);
    assert_eq!(
        fee,
        Some(FeeTransfer::Collect { token: addr(FEE_TOKEN), payer: addr(9), amount: 25 })
    );
    assert_eq!(b.get_nonce(addr(9)), 1);
    let q = b.get_request(1).unwrap();
    assert_eq!(q.status, BridgeOperationStatus::Pending);
    assert_eq!(q.source_chain, 1);
    assert_eq!(q.expires_at, None);
}

#[test]
fn a_nonce_is_used_once() {
    let mut b = setup(0);
    request(&mut b, addr(9), 1, 1);
    assert_eq!(
        b.initiate_bridge_multisig(addr(9), 7, 2, addr(50), 1, None, metadata(), 1, 100),
        Err(BridgeError::InvalidNonce)
    );
    assert_eq!(request(&mut b, addr(9), 2, 1), 2);
}

#[test]
fn requests_are_checked_against_the_configuration() {
    let mut b = setup(0);
    assert_eq!(
        b.initiate_bridge_multisig(addr(9), 0, 2, addr(50), 1, None, metadata(), 1, 100),
        Err(BridgeError::InvalidParameter)
    );
    assert_eq!(
        b.initiate_bridge_multisig(addr(9), 7, 9, addr(50), 1, None, metadata(), 1, 100),
        Err(BridgeError::UnsupportedChain)
    );
    assert_eq!(
        b.initiate_bridge_multisig(addr(9), 7, 2, addr(50), 4, None, metadata(), 1, 100),
        Err(BridgeError::InvalidSignatureRequirement)
    );
    // A refused request leaves the nonce untouched.
    assert_eq!(b.get_nonce(addr(9)), 0);
    let mut fresh = PropertyBridge::new();
    assert_eq!(
        fresh.initiate_bridge_multisig(addr(9), 7, 2, addr(50), 1, None, metadata(), 1, 100),
        Err(BridgeError::NotInitialized)
    );
}

#[test]
fn approvals_lock_a_request_and_execution_records_it() {
    let env = quiet_env();
    let mut b = setup(40);
    b.add_operator(addr(ADMIN), addr(60)).unwrap();
    let id = request(&mut b, addr(9), 1, 2);
    b.sign_bridge_request(addr(ADMIN), id, true, 200).unwrap();
    assert_eq!(b.get_request(id).unwrap().status, BridgeOperationStatus::Pending);
    assert_eq!(b.execute_bridge(&env, addr(ADMIN), id, 250), Err(BridgeError::RequestNotReady));
    b.sign_bridge_request(addr(60), id, true, 300).unwrap();
    assert_eq!(b.get_request(id).unwrap().status, BridgeOperationStatus::Locked);

    let transfer = b.execute_bridge(&env, addr(60), id, 400).unwrap();
    assert_eq!(
        transfer,
        Some(FeeTransfer::Release { token: addr(FEE_TOKEN), recipient: addr(FEE_RECIPIENT), amount: 40 })
    );
    assert_eq!(b.get_request(id).unwrap().status, BridgeOperationStatus::Completed);
    let history = b.get_history(addr(9));
    assert_eq!(history.len(), 1);
    assert_eq!(history[0].transaction_id, 1);
    assert_eq!(history[0].status, BridgeOperationStatus::InTransit);
    assert_eq!(history[0].timestamp, 400);
    assert_eq!(
        history[0].transaction_hash,
        [
            205, 38, 98, 21, 78, 109, 118, 178, 178, 185, 46, 112, 192, 202, 195, 204, 245, 52, 249,
            183, 78, 181, 184, 152, 25, 236, 80, 144, 131, 208, 10, 80
        ]
    );
    assert_eq!(b.verified_txs.len(), 1);
    assert_eq!(b.execute_bridge(&env, addr(60), id, 500), Err(BridgeError::RequestNotReady));
}

#[test]
fn request_ids_are_encoded_big_endian() {
    assert_eq!(u64_be_bytes(1), vec![0, 0, 0, 0, 0, 0, 0, 1]);
    assert_eq!(u64_be_bytes(0x0102030405060708), vec![1, 2, 3, 4, 5, 6, 7, 8]);
}

#[test]
fn an_operator_signs_once() {
    let mut b = setup(0);
    let id = request(&mut b, addr(9), 1, 3);
    b.sign_bridge_request(addr(ADMIN), id, false, 200).unwrap();
    assert_eq!(b.sign_bridge_request(addr(ADMIN), id, true, 200), Err(BridgeError::AlreadySigned));
    assert_eq!(b.sign_bridge_request(addr(70), id, true, 200), Err(BridgeError::NotOperator));
    assert_eq!(b.sign_bridge_request(addr(ADMIN), 0, true, 200), Err(BridgeError::InvalidParameter));
    assert_eq!(b.sign_bridge_request(addr(ADMIN), 42, true, 200), Err(BridgeError::RequestNotFound));
}

#[test]
fn expired_and_failed_requests_are_not_signed() {
    let mut b = setup(0);
    let id = request(&mut b, addr(9), 1, 1);
    // The request expires 600 after it was made at 100.
    assert_eq!(b.sign_bridge_request(addr(ADMIN), id, true, 701), Err(BridgeError::RequestExpired));
    b.sign_bridge_request(addr(ADMIN), id, false, 700).unwrap();
    assert_eq!(b.get_request(id).unwrap().status, BridgeOperationStatus::Failed);
    assert_eq!(b.sign_bridge_request(addr(ADMIN), id, true, 700), Err(BridgeError::RequestNotPending));
}

#[test]
fn recovery_refunds_the_fee_and_can_retry() {
    let mut b = setup(15);
    let id = request(&mut b, addr(9), 1, 1);
    assert_eq!(
        b.recover_failed_bridge(addr(ADMIN), id, RecoveryAction::RetryBridge),
        Err(BridgeError::RequestNotFailed)
    );
    b.sign_bridge_request(addr(ADMIN), id, false, 200).unwrap();
    assert_eq!(
        b.recover_failed_bridge(addr(70), id, RecoveryAction::RetryBridge),
        Err(BridgeError::Unauthorized)
    );
    assert_eq!(
        b.recover_failed_bridge(addr(ADMIN), id, RecoveryAction::RetryBridge),
        Ok(Some(FeeTransfer::Release { token: addr(FEE_TOKEN), recipient: addr(9), amount: 15 }))
    );
    let q = b.get_request(id).unwrap();
    assert_eq!(q.status, BridgeOperationStatus::Pending);
    assert!(q.signatures.is_empty());
    assert!(q.rejections.is_empty());
    // The fee was returned once; a second failure refunds nothing.
    b.sign_bridge_request(addr(ADMIN), id, false, 300).unwrap();
    assert_eq!(b.recover_failed_bridge(addr(ADMIN), id, RecoveryAction::CancelBridge), Ok(None));
    assert_eq!(b.get_request(id).unwrap().status, BridgeOperationStatus::Failed);
}

#[test]
fn the_pause_stops_bridging() {
    let mut b = setup(0);
    let id = request(&mut b, addr(9), 1, 1);
    assert_eq!(b.set_pause(addr(70), true), Err(BridgeError::Unauthorized));
    b.set_pause(addr(ADMIN), true).unwrap();
    assert_eq!(b.sign_bridge_request(addr(ADMIN), id, true, 200), Err(BridgeError::BridgePaused));
    assert_eq!(
        b.initiate_bridge_multisig(addr(9), 7, 2, addr(50), 1, None, metadata(), 2, 100),
        Err(BridgeError::BridgePaused)
    );
    b.set_pause(addr(ADMIN), false).unwrap();
    assert_eq!(b.sign_bridge_request(addr(ADMIN), id, true, 200), Ok(()));
}

#[test]
fn the_operator_list_is_bounded() {
    let mut b = setup(0);
    for n in 0..(MAX_OPERATORS as u128 - 1) {
        b.add_operator(addr(ADMIN), addr(100 + n)).unwrap();
    }
    // Adding one already listed changes nothing.
    assert_eq!(b.add_operator(addr(ADMIN), addr(100)), Err(BridgeError::TooManyOperators));
    let mut small = setup(0);
    small.add_operator(addr(ADMIN), addr(100)).unwrap();
    small.add_operator(addr(ADMIN), addr(100)).unwrap();
    assert!(small.is_operator(addr(100)));
    assert_eq!(small.operators.as_ref().unwrap().len(), 2);
}

#[test]
fn removing_operators_keeps_the_quorum() {
    let mut b = setup(0);
    assert_eq!(
        b.remove_operator(addr(ADMIN), addr(ADMIN)),
        Err(BridgeError::OperatorRemovalWouldBreakQuorum)
    );
    b.add_operator(addr(ADMIN), addr(100)).unwrap();
    b.remove_operator(addr(ADMIN), addr(ADMIN)).unwrap();
    assert!(!b.is_operator(addr(ADMIN)));
    assert!(b.is_operator(addr(100)));
}

#[test]
fn the_history_keeps_the_latest_transfers() {
    let env = quiet_env();
    let mut b = setup(0);
    let n = MAX_HISTORY_ITEMS as u64 + 2;
    for k in 1..=n {
        let id = request(&mut b, addr(9), k, 1);
        b.sign_bridge_request(addr(ADMIN), id, true, 200).unwrap();
        b.execute_bridge(&env, addr(ADMIN), id, 300).unwrap();
    }
    let history = b.get_history(addr(9));
    assert_eq!(history.len(), MAX_HISTORY_ITEMS as usize);
    assert_eq!(history[0].transaction_id, 3);
    assert_eq!(history[history.len() - 1].transaction_id, n);
}

#[test]
fn the_bridge_validators_reject_zero() {
    assert_eq!(require_non_zero_u32(0), Err(BridgeError::InvalidParameter));
    assert_eq!(require_non_zero_u64(5), Ok(()));
    assert_eq!(require_non_zero_u128(0), Err(BridgeError::InvalidParameter));
    assert_eq!(require_future_timestamp(10, 10), Err(BridgeError::InvalidTimestamp));
    assert_eq!(require_future_timestamp(11, 10), Ok(()));
}
