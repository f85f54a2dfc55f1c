use bridge_engine::bridge::Module;
use bridge_engine::codec::{add_validator_key, pause_key, remove_validator_key, resume_key, transfer_message_key};
use bridge_engine::types::{BridgeError, Kind, Status};

const DEPOSIT_ID: &[u8; 32] = b"0x5617efe391571b5dc8230db92ba65b";
const OTHER_ID: &[u8; 32] = b"0x0000000000000000000000000000ff";
const ETH_ADDRESS: &[u8; 20] = b"0x00b46c2526ebb8f4c9";
const V1: u64 = 1;
const V2: u64 = 2;
const V3: u64 = 3;
const USER1: u64 = 4;
const USER2: u64 = 5;

fn three() -> Module {
    Module::new(vec![V1, V2, V3])
}

fn funded(amount: u128) -> Module {
    let mut bridge = three();
    let id = DEPOSIT_ID.to_vec();
    assert_eq!(bridge.multi_signed_mint(V1, &id, *ETH_ADDRESS, USER2, amount), Ok(()));
    assert_eq!(bridge.multi_signed_mint(V2, &id, *ETH_ADDRESS, USER2, amount), Ok(()));
    bridge
}

fn approved_withdrawal(bridge: &mut Module, amount: u128) -> Vec<u8> {
    assert_eq!(bridge.set_transfer(USER2, *ETH_ADDRESS, amount), Ok(()));
    let key = transfer_message_key(USER2, ETH_ADDRESS, amount);
    assert_eq!(bridge.approve_transfer(V1, &key), Ok(()));
    assert_eq!(bridge.approve_transfer(V2, &key), Ok(()));
    key
}

#[test]
fn two_of_three_votes_reach_quorum() {
    let bridge = three();
    assert!(bridge.votes_are_enough(2));
    assert!(!bridge.votes_are_enough(1));
    assert!(!bridge.votes_are_enough(0));
}

#[test]
fn quorum_boundary_is_inclusive() {
    let bridge = Module::new((1..=100).collect());
    assert!(bridge.votes_are_enough(51));
    assert!(!bridge.votes_are_enough(50));
    let two = Module::new(vec![V1, V2]);
    assert!(!two.votes_are_enough(1));
    assert!(two.votes_are_enough(2));
}

#[test]
fn transfer_key_is_scale_encoding() {
    let key = transfer_message_key(5, ETH_ADDRESS, 500);
    let mut expected = vec![5u8, 0, 0, 0, 0, 0, 0, 0];
    expected.extend_from_slice(ETH_ADDRESS);
    expected.extend_from_slice(&[0xf4, 0x01, 0, 0, 0, 0, 0, 0, 0, 0, 0, 0, 0, 0, 0, 0]);
    expected.extend_from_slice(&[0u8; 8]);
    assert_eq!(key, expected);
    assert_eq!(key.len(), 52);
}

#[test]
fn validator_and_bridge_keys_are_scale_encoding() {
    assert_eq!(add_validator_key(0x0102), vec![12, b'a', b'd', b'd', 2, 1, 0, 0, 0, 0, 0, 0]);
    assert_eq!(
        remove_validator_key(7),
        vec![24, b'r', b'e', b'm', b'o', b'v', b'e', 7, 0, 0, 0, 0, 0, 0, 0]
    );
    assert_eq!(pause_key(), vec![20, b'p', b'a', b'u', b's', b'e', 0, 0, 0, 0, 0, 0, 0, 0]);
    assert_eq!(resume_key(), vec![24, b'r', b'e', b's', b'u', b'm', b'e', 0, 0, 0, 0, 0, 0, 0, 0]);
}

#[test]
fn votes_grow_by_one_and_freeze_when_closed() {
    let mut bridge = three();
    let id = DEPOSIT_ID.to_vec();
    assert_eq!(bridge.multi_signed_mint(V1, &id, *ETH_ADDRESS, USER2, 10), Ok(()));
    assert_eq!(bridge.transfers(0).votes, 1);
    assert!(bridge.transfers(0).open);
    assert_eq!(bridge.multi_signed_mint(V2, &id, *ETH_ADDRESS, USER2, 10), Ok(()));
    assert_eq!(bridge.transfers(0).votes, 2);
    assert!(!bridge.transfers(0).open);
    assert_eq!(bridge.approve_transfer(V3, &id), Err(BridgeError::NotOpen));
    assert_eq!(bridge.transfers(0).votes, 2);
}

#[test]
fn same_message_twice_makes_one_proposal() {
    let mut bridge = three();
    let id = DEPOSIT_ID.to_vec();
    assert_eq!(bridge.multi_signed_mint(V1, &id, *ETH_ADDRESS, USER2, 10), Ok(()));
    assert_eq!(bridge.bridge_transfers_count(), 1);
    assert_eq!(bridge.multi_signed_mint(V1, &id, *ETH_ADDRESS, USER2, 10), Ok(()));
    assert_eq!(bridge.bridge_transfers_count(), 1);
    assert_eq!(bridge.transfer_id_by_hash(&id), 0);
    assert_eq!(bridge.set_transfer(USER2, *ETH_ADDRESS, 3), Ok(()));
    assert_eq!(bridge.set_transfer(USER2, *ETH_ADDRESS, 3), Ok(()));
    assert_eq!(bridge.bridge_transfers_count(), 2);
    let key = transfer_message_key(USER2, ETH_ADDRESS, 3);
    assert_eq!(bridge.transfer_id_by_hash(&key), 1);
    assert_eq!(bridge.message_id_by_transfer_id(1), key);
    assert_eq!(bridge.transfers(1).kind, Kind::Transfer);
}

#[test]
fn withdrawal_locks_then_burns() {
    let mut bridge = funded(1000);
    let key = approved_withdrawal(&mut bridge, 500);
    assert_eq!(bridge.token.locked(USER2), 500);
    assert_eq!(bridge.token.balance_of(USER2), 1000);
    assert_eq!(bridge.token.total_supply(), 1000);
    assert_eq!(bridge.confirm_transfer(V1, &key), Ok(()));
    assert_eq!(bridge.transfers(1).votes, 1);
    assert_eq!(bridge.token.locked(USER2), 500);
    assert_eq!(bridge.confirm_transfer(V3, &key), Ok(()));
    assert_eq!(bridge.token.balance_of(USER2), 500);
    assert_eq!(bridge.token.total_supply(), 500);
    assert_eq!(bridge.token.locked(USER2), 0);
    assert!(!bridge.transfers(1).open);
    assert_eq!(bridge.messages(&key).status, Status::Confirmed);
}

#[test]
fn cancel_after_approval_releases_funds() {
    let mut bridge = funded(1000);
    let key = approved_withdrawal(&mut bridge, 500);
    assert_eq!(bridge.cancel_transfer(V3, &key), Ok(()));
    assert_eq!(bridge.token.locked(USER2), 0);
    assert_eq!(bridge.token.balance_of(USER2), 1000);
    assert_eq!(bridge.messages(&key).status, Status::Canceled);
    assert!(!bridge.transfers(1).open);
    assert_eq!(bridge.confirm_transfer(V1, &key), Err(BridgeError::NotApproved));
    assert_eq!(bridge.cancel_transfer(V1, &key), Err(BridgeError::UnsupportedStatusForAction));
}

#[test]
fn cancel_during_burn_round_releases_funds() {
    let mut bridge = funded(1000);
    let key = approved_withdrawal(&mut bridge, 500);
    assert_eq!(bridge.confirm_transfer(V1, &key), Ok(()));
    assert_eq!(bridge.cancel_transfer(V2, &key), Ok(()));
    assert_eq!(bridge.token.locked(USER2), 0);
    assert_eq!(bridge.token.total_supply(), 1000);
    assert_eq!(bridge.confirm_transfer(V2, &key), Err(BridgeError::NotApproved));
}

#[test]
fn cancel_before_approval_touches_no_funds() {
    let mut bridge = funded(1000);
    assert_eq!(bridge.set_transfer(USER2, *ETH_ADDRESS, 500), Ok(()));
    let key = transfer_message_key(USER2, ETH_ADDRESS, 500);
    assert_eq!(bridge.cancel_transfer(V1, &key), Ok(()));
    assert_eq!(bridge.token.locked(USER2), 0);
    assert_eq!(bridge.messages(&key).status, Status::Canceled);
    assert_eq!(bridge.approve_transfer(V1, &key), Err(BridgeError::NotOpen));
}

#[test]
fn cancel_after_burn_is_refused() {
    let mut bridge = funded(1000);
    let key = approved_withdrawal(&mut bridge, 500);
    assert_eq!(bridge.confirm_transfer(V1, &key), Ok(()));
    assert_eq!(bridge.confirm_transfer(V2, &key), Ok(()));
    assert_eq!(bridge.cancel_transfer(V3, &key), Err(BridgeError::UnsupportedStatusForAction));
    assert_eq!(bridge.token.balance_of(USER2), 500);
}

#[test]
fn cancel_of_deposit_is_refused() {
    let mut bridge = funded(1000);
    let id = DEPOSIT_ID.to_vec();
    assert_eq!(bridge.cancel_transfer(V1, &id), Err(BridgeError::UnsupportedStatusForAction));
    assert_eq!(bridge.cancel_transfer(V1, &OTHER_ID.to_vec()), Err(BridgeError::UnknownMessage));
}

#[test]
fn withdrawal_without_funds_is_rejected_whole() {
    let mut bridge = three();
    assert_eq!(bridge.set_transfer(USER1, *ETH_ADDRESS, 500), Ok(()));
    let key = transfer_message_key(USER1, ETH_ADDRESS, 500);
    assert_eq!(bridge.approve_transfer(V1, &key), Ok(()));
    assert_eq!(bridge.approve_transfer(V2, &key), Err(BridgeError::InsufficientFunds));
    assert_eq!(bridge.transfers(0).votes, 1);
    assert!(bridge.transfers(0).open);
    assert_eq!(bridge.messages(&key).status, Status::Pending);
    assert_eq!(bridge.token.locked(USER1), 0);
}

#[test]
fn only_validators_vote() {
    let mut bridge = three();
    let id = DEPOSIT_ID.to_vec();
    assert_eq!(
        bridge.multi_signed_mint(USER1, &id, *ETH_ADDRESS, USER2, 10),
        Err(BridgeError::NotAuthorized)
    );
    assert_eq!(bridge.pause_bridge(USER1), Err(BridgeError::NotAuthorized));
    assert_eq!(bridge.bridge_transfers_count(), 0);
    assert!(bridge.validators(V1));
    assert!(!bridge.validators(USER1));
}

#[test]
fn unknown_message_cannot_be_approved() {
    let mut bridge = three();
    assert_eq!(bridge.approve_transfer(V1, &OTHER_ID.to_vec()), Err(BridgeError::UnknownMessage));
    assert_eq!(bridge.confirm_transfer(V1, &OTHER_ID.to_vec()), Err(BridgeError::NotApproved));
}

#[test]
fn mint_overflow_leaves_no_trace() {
    let mut bridge = Module::new(vec![V1]);
    let id = DEPOSIT_ID.to_vec();
    assert_eq!(bridge.multi_signed_mint(V1, &id, *ETH_ADDRESS, USER2, u128::MAX), Ok(()));
    assert_eq!(bridge.token.total_supply(), u128::MAX);
    let other = OTHER_ID.to_vec();
    assert_eq!(bridge.multi_signed_mint(V1, &other, *ETH_ADDRESS, USER1, 1), Err(BridgeError::Overflow));
    assert_eq!(bridge.bridge_transfers_count(), 1);
    assert_eq!(bridge.messages(&other).status, Status::Revoked);
    assert_eq!(bridge.token.balance_of(USER1), 0);
}

#[test]
fn last_validator_cannot_be_removed() {
    let mut single = Module::new(vec![V1]);
    assert_eq!(single.remove_validator(V1, V1), Err(BridgeError::LastValidator));
    assert_eq!(single.validators_count(), 1);

    let mut bridge = three();
    assert_eq!(bridge.remove_validator(V1, V3), Ok(()));
    assert_eq!(bridge.remove_validator(V2, V3), Ok(()));
    assert_eq!(bridge.remove_validator(V1, V2), Ok(()));
    assert_eq!(bridge.remove_validator(V2, V2), Ok(()));
    assert_eq!(bridge.validators_count(), 1);
    assert_eq!(bridge.remove_validator(V1, V1), Err(BridgeError::LastValidator));
    assert_eq!(bridge.validators_count(), 1);
    assert!(bridge.validators(V1));
}

#[test]
fn full_validator_set_refuses_additions() {
    let mut bridge = Module::new((1..=100_000).collect());
    assert_eq!(bridge.validators_count(), 100_000);
    assert_eq!(bridge.add_validator(V1, 200_000), Err(BridgeError::CapacityExceeded));
    assert_eq!(bridge.bridge_transfers_count(), 0);
}

#[test]
fn paused_bridge_refuses_operations_but_resumes() {
    let mut bridge = three();
    assert_eq!(bridge.pause_bridge(V1), Ok(()));
    assert_eq!(bridge.pause_bridge(V3), Ok(()));
    assert_eq!(bridge.set_transfer(USER2, *ETH_ADDRESS, 1), Err(BridgeError::GateClosed));
    assert_eq!(bridge.add_validator(V1, 9), Err(BridgeError::GateClosed));
    assert_eq!(bridge.pause_bridge(V2), Err(BridgeError::AlreadyPaused));
    assert_eq!(bridge.resume_bridge(V2), Ok(()));
    assert!(!bridge.bridge_is_operational());
    assert_eq!(bridge.resume_bridge(V3), Ok(()));
    assert!(bridge.bridge_is_operational());
    assert_eq!(bridge.set_transfer(USER2, *ETH_ADDRESS, 1), Ok(()));
}

#[test]
fn burned_withdrawal_is_not_reopened() {
    let mut bridge = funded(1000);
    let first = approved_withdrawal(&mut bridge, 300);
    assert_eq!(bridge.confirm_transfer(V1, &first), Ok(()));
    assert_eq!(bridge.confirm_transfer(V2, &first), Ok(()));
    assert_eq!(bridge.token.balance_of(USER2), 700);
    let second = approved_withdrawal(&mut bridge, 200);
    assert_eq!(bridge.token.locked(USER2), 200);
    assert_eq!(bridge.confirm_transfer(V3, &first), Err(BridgeError::NotOpen));
    assert!(!bridge.transfers(1).open);
    assert_eq!(bridge.transfers(1).votes, 2);
    assert_eq!(bridge.token.locked(USER2), 200);
    assert_eq!(bridge.token.balance_of(USER2), 700);
    assert_eq!(bridge.token.total_supply(), 700);
    assert_eq!(bridge.cancel_transfer(V3, &first), Err(BridgeError::UnsupportedStatusForAction));
    assert_eq!(bridge.messages(&second).status, Status::Approved);
}
