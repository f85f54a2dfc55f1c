use bridge_engine::bridge::Module;
use bridge_engine::types::{BridgeError, Status};

const ETH_MESSAGE_ID: &[u8; 32] = b"0x5617efe391571b5dc8230db92ba65b";
const ETH_ADDRESS: &[u8; 20] = b"0x00b46c2526ebb8f4c9";
const V1: u64 = 1;
const V2: u64 = 2;
const V3: u64 = 3;
const V4: u64 = 4;
const USER2: u64 = 5;

fn new_test_ext() -> Module {
    Module::new(vec![V1, V2, V3])
}

#[test]
fn token_eth2sub_mint_works() {
    let mut bridge = new_test_ext();
    let message_id = ETH_MESSAGE_ID.to_vec();
    let eth_address = *ETH_ADDRESS;

    assert_eq!(bridge.multi_signed_mint(V2, &message_id, eth_address, USER2, 1000), Ok(()));
    let mut message = bridge.messages(&message_id);
    assert_eq!(message.status, Status::Pending);

    assert_eq!(bridge.multi_signed_mint(V1, &message_id, eth_address, USER2, 1000), Ok(()));
    message = bridge.messages(&message_id);
    assert_eq!(message.status, Status::Confirmed);

    let transfer = bridge.transfers(0);
    assert_eq!(transfer.open, false);

    assert_eq!(bridge.token.balance_of(USER2), 1000);
    assert_eq!(bridge.token.total_supply(), 1000);
}

#[test]
fn token_eth2sub_closed_transfer_fail() {
    let mut bridge = new_test_ext();
    let message_id = ETH_MESSAGE_ID.to_vec();
    let eth_address = *ETH_ADDRESS;

    assert_eq!(bridge.multi_signed_mint(V2, &message_id, eth_address, USER2, 1000), Ok(()));
    assert_eq!(bridge.multi_signed_mint(V1, &message_id, eth_address, USER2, 1000), Ok(()));
    assert_eq!(
        bridge.multi_signed_mint(V3, &message_id, eth_address, USER2, 1000),
        Err(BridgeError::NotOpen)
    );
    assert_eq!(bridge.token.balance_of(USER2), 1000);
    assert_eq!(bridge.token.total_supply(), 1000);
    let transfer = bridge.transfers(0);
    assert_eq!(transfer.open, false);

    let message = bridge.messages(&message_id);
    assert_eq!(message.status, Status::Confirmed);
}

#[test]
fn token_sub2eth_burn_works() {
    let mut bridge = new_test_ext();
    let eth_message_id = ETH_MESSAGE_ID.to_vec();
    let eth_address = *ETH_ADDRESS;

    assert_eq!(bridge.multi_signed_mint(V2, &eth_message_id, eth_address, USER2, 1000), Ok(()));
    assert_eq!(bridge.multi_signed_mint(V1, &eth_message_id, eth_address, USER2, 1000), Ok(()));

    assert_eq!(bridge.set_transfer(USER2, eth_address, 500), Ok(()));

    let sub_message_id = bridge.message_id_by_transfer_id(1);

    let mut message = bridge.messages(&sub_message_id);
    assert_eq!(message.status, Status::Withdraw);

    assert_eq!(bridge.token.locked(USER2), 0);
    assert_eq!(bridge.approve_transfer(V1, &sub_message_id), Ok(()));
    assert_eq!(bridge.approve_transfer(V2, &sub_message_id), Ok(()));

    message = bridge.messages(&sub_message_id);
    assert_eq!(message.status, Status::Approved);

    assert_eq!(bridge.token.locked(USER2), 500);
    assert_eq!(bridge.token.balance_of(USER2), 1000);

    assert_eq!(bridge.confirm_transfer(V2, &sub_message_id), Ok(()));

    message = bridge.messages(&sub_message_id);
    let transfer = bridge.transfers(1);
    assert_eq!(message.status, Status::Confirmed);
    assert_eq!(transfer.open, true);
    assert_eq!(bridge.confirm_transfer(V1, &sub_message_id), Ok(()));

    assert_eq!(bridge.token.balance_of(USER2), 500);
    assert_eq!(bridge.token.total_supply(), 500);
}

#[test]
fn token_sub2eth_burn_fail_skip_approval() {
    let mut bridge = new_test_ext();
    let eth_message_id = ETH_MESSAGE_ID.to_vec();
    let eth_address = *ETH_ADDRESS;

    assert_eq!(bridge.multi_signed_mint(V2, &eth_message_id, eth_address, USER2, 1000), Ok(()));
    assert_eq!(bridge.multi_signed_mint(V1, &eth_message_id, eth_address, USER2, 1000), Ok(()));
    assert_eq!(bridge.token.balance_of(USER2), 1000);
    assert_eq!(bridge.token.total_supply(), 1000);

    assert_eq!(bridge.set_transfer(USER2, eth_address, 500), Ok(()));

    let sub_message_id = bridge.message_id_by_transfer_id(1);
    let message = bridge.messages(&sub_message_id);
    assert_eq!(message.status, Status::Withdraw);

    assert_eq!(bridge.token.locked(USER2), 0);
    assert_eq!(bridge.confirm_transfer(V1, &sub_message_id), Err(BridgeError::NotApproved));
    assert_eq!(bridge.messages(&sub_message_id).status, Status::Withdraw);
}

#[test]
fn add_validator_should_work() {
    let mut bridge = new_test_ext();
    assert_eq!(bridge.add_validator(V2, V4), Ok(()));
    let id = bridge.message_id_by_transfer_id(0);
    let mut message = bridge.validator_history(&id);
    assert_eq!(message.status, Status::Pending);

    assert_eq!(bridge.add_validator(V1, V4), Ok(()));
    message = bridge.validator_history(&id);
    assert_eq!(message.status, Status::Confirmed);
    assert_eq!(bridge.validators_count(), 4);
}

#[test]
fn remove_validator_should_work() {
    let mut bridge = new_test_ext();
    assert_eq!(bridge.remove_validator(V2, V3), Ok(()));
    let id = bridge.message_id_by_transfer_id(0);
    let mut message = bridge.validator_history(&id);
    assert_eq!(message.status, Status::Pending);

    assert_eq!(bridge.remove_validator(V1, V3), Ok(()));
    message = bridge.validator_history(&id);
    assert_eq!(message.status, Status::Revoked);
    assert_eq!(bridge.validators_count(), 2);
}

#[test]
fn remove_last_validator_should_fail() {
    let mut bridge = new_test_ext();
    assert_eq!(bridge.remove_validator(V2, V3), Ok(()));
    assert_eq!(bridge.remove_validator(V1, V3), Ok(()));
    assert_eq!(bridge.validators_count(), 2);

    assert_eq!(bridge.remove_validator(V1, V2), Ok(()));
    assert_eq!(bridge.remove_validator(V2, V2), Ok(()));

    assert_eq!(bridge.validators_count(), 1);
}

#[test]
fn pause_the_bridge_should_work() {
    let mut bridge = new_test_ext();
    assert_eq!(bridge.pause_bridge(V2), Ok(()));

    assert_eq!(bridge.bridge_transfers_count(), 1);
    assert_eq!(bridge.bridge_is_operational(), true);
    let id = bridge.message_id_by_transfer_id(0);
    let mut message = bridge.bridge_messages(&id);
    assert_eq!(message.status, Status::Pending);

    assert_eq!(bridge.pause_bridge(V1), Ok(()));
    assert_eq!(bridge.bridge_is_operational(), false);
    message = bridge.bridge_messages(&id);
    assert_eq!(message.status, Status::Confirmed);
}

#[test]
fn extrinsics_restricted_should_fail() {
    let mut bridge = new_test_ext();
    let eth_message_id = ETH_MESSAGE_ID.to_vec();
    let eth_address = *ETH_ADDRESS;

    assert_eq!(bridge.pause_bridge(V2), Ok(()));
    assert_eq!(bridge.pause_bridge(V1), Ok(()));

    assert_eq!(
        bridge.multi_signed_mint(V2, &eth_message_id, eth_address, USER2, 1000),
        Err(BridgeError::GateClosed)
    );
    assert_eq!(bridge.token.balance_of(USER2), 0);
}

#[test]
fn double_pause_should_fail() {
    let mut bridge = new_test_ext();
    assert_eq!(bridge.bridge_is_operational(), true);
    assert_eq!(bridge.pause_bridge(V2), Ok(()));
    assert_eq!(bridge.pause_bridge(V1), Ok(()));
    assert_eq!(bridge.bridge_is_operational(), false);
    assert_eq!(bridge.pause_bridge(V1), Err(BridgeError::AlreadyPaused));
    assert_eq!(bridge.bridge_transfers_count(), 1);
}

#[test]
fn pause_and_resume_the_bridge_should_work() {
    let mut bridge = new_test_ext();
    assert_eq!(bridge.bridge_is_operational(), true);
    assert_eq!(bridge.pause_bridge(V2), Ok(()));
    assert_eq!(bridge.pause_bridge(V1), Ok(()));
    assert_eq!(bridge.bridge_is_operational(), false);
    assert_eq!(bridge.resume_bridge(V1), Ok(()));
    assert_eq!(bridge.resume_bridge(V2), Ok(()));
    assert_eq!(bridge.bridge_is_operational(), true);
}
