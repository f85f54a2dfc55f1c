use vstd::prelude::*;

verus! {

/// Largest number of trusted validators the registry may hold.
pub const MAX_VALIDATORS: u32 = 100000;

/// Sequential identifier of a proposal.
pub type ProposalId = u32;

/// Amount of bridged tokens.
pub type TokenBalance = u128;

/// Account identifier on the local chain.
pub type AccountId = u64;

/// Address on the paired external chain.
pub type H160 = [u8; 20];

/// Both the declared action of a message and its lifecycle status.
#[derive(Clone, Copy, Debug, PartialEq, Eq, Structural)]
pub enum Status {
    Revoked,
    Pending,
    PauseTheBridge,
    ResumeTheBridge,
    AddValidator,
    RemoveValidator,
    Deposit,
    Withdraw,
    Approved,
    Canceled,
    Confirmed,
}

/// Which store the message behind a proposal lives in.
#[derive(Clone, Copy, Debug, PartialEq, Eq, Structural)]
pub enum Kind {
    Transfer,
    Validator,
    Bridge,
}

/// A votable unit that references one message by its content key.
#[derive(Debug)]
pub struct BridgeTransfer {
    pub transfer_id: ProposalId,
    pub message_id: Vec<u8>,
    pub open: bool,
    pub votes: u64,
    pub kind: Kind,
}

/// A mint (deposit) or burn (withdraw) between the two chains.
#[derive(Debug)]
pub struct TransferMessage {
    pub message_id: Vec<u8>,
    pub eth_address: H160,
    pub substrate_address: AccountId,
    pub amount: TokenBalance,
    pub status: Status,
    pub action: Status,
}

/// A request to add or remove a validator.
#[derive(Debug)]
pub struct ValidatorMessage {
    pub message_id: Vec<u8>,
    pub account: AccountId,
    pub action: Status,
    pub status: Status,
}

/// A request to pause or resume the bridge.
#[derive(Debug)]
pub struct BridgeMessage {
    pub message_id: Vec<u8>,
    pub account: AccountId,
    pub action: Status,
    pub status: Status,
}

/// Why a call was rejected. A rejected call changes nothing.
#[derive(Clone, Copy, Debug, PartialEq, Eq, Structural)]
pub enum BridgeError {
    /// The caller is not a trusted validator.
    NotAuthorized,
    /// The bridge is paused.
    GateClosed,
    /// A pause was asked for while the bridge is already paused.
    AlreadyPaused,
    /// A vote on a closed proposal.
    NotOpen,
    /// A withdrawal was confirmed before it was approved.
    NotApproved,
    /// No message or proposal is known under the given key.
    UnknownMessage,
    /// A proposal already exists for the key.
    AlreadyExists,
    /// The message's action and status do not allow execution.
    UnsupportedStatusForAction,
    /// The validator set is full.
    CapacityExceeded,
    /// The last validator cannot be removed.
    LastValidator,
    /// A counter or a balance would overflow.
    Overflow,
    /// The available (unlocked) balance is too small.
    InsufficientFunds,
    /// The locked balance is too small.
    InsufficientLocked,
}

} // verus!
