//! The engine's state as plain values, and what each step does to it.
use vstd::prelude::*;
use crate::types::{
    AccountId, BridgeError, BridgeMessage, BridgeTransfer, Kind, Status, TokenBalance,
    TransferMessage, ValidatorMessage, MAX_VALIDATORS,
};
use crate::token::value_or_zero;

verus! {
/// What a proposal holds, as plain values.
pub struct ProposalView {
    pub id: u32,
    pub key: Seq<u8>,
    pub open: bool,
    pub votes: u64,
    pub kind: Kind,
}

/// What a transfer message holds, as plain values.
pub struct TransferView {
    pub key: Seq<u8>,
    pub eth_address: Seq<u8>,
    pub account: AccountId,
    pub amount: TokenBalance,
    pub status: Status,
    pub action: Status,
}

/// What a validator or bridge message holds, as plain values.
pub struct AccountMessageView {
    pub key: Seq<u8>,
    pub account: AccountId,
    pub action: Status,
    pub status: Status,
}

impl View for BridgeTransfer {
    type V = ProposalView;

    open spec fn view(&self) -> ProposalView {
        ProposalView {
            id: self.transfer_id,
            key: self.message_id@,
            open: self.open,
            votes: self.votes,
            kind: self.kind,
        }
    }
}

impl View for TransferMessage {
    type V = TransferView;

    open spec fn view(&self) -> TransferView {
        TransferView {
            key: self.message_id@,
            eth_address: self.eth_address@,
            account: self.substrate_address,
            amount: self.amount,
            status: self.status,
            action: self.action,
        }
    }
}

impl View for ValidatorMessage {
    type V = AccountMessageView;

    open spec fn view(&self) -> AccountMessageView {
        AccountMessageView {
            key: self.message_id@,
            account: self.account,
            action: self.action,
            status: self.status,
        }
    }
}

impl View for BridgeMessage {
    type V = AccountMessageView;

    open spec fn view(&self) -> AccountMessageView {
        AccountMessageView {
            key: self.message_id@,
            account: self.account,
            action: self.action,
            status: self.status,
        }
    }
}

/// Some position of `key` in `keys`.
pub open spec fn position_of(keys: Seq<Seq<u8>>, key: Seq<u8>) -> int {
    choose|i: int| 0 <= i < keys.len() && keys[i] == key
}

/// The whole state of the engine, as plain values.
pub struct BridgeState {
    pub operational: bool,
    pub validators: Seq<AccountId>,
    pub proposals: Seq<ProposalView>,
    pub transfers: Seq<TransferView>,
    pub validator_messages: Seq<AccountMessageView>,
    pub bridge_messages: Seq<AccountMessageView>,
    pub balances: Map<AccountId, TokenBalance>,
    pub locks: Map<AccountId, TokenBalance>,
    pub supply: TokenBalance,
}

impl BridgeState {
    /// Number of trusted validators.
    pub open spec fn count(&self) -> nat {
        self.validators.len()
    }

    pub open spec fn is_validator(&self, a: AccountId) -> bool {
        self.validators.contains(a)
    }

    pub open spec fn balance(&self, a: AccountId) -> TokenBalance {
        value_or_zero(self.balances, a)
    }

    pub open spec fn locked_of(&self, a: AccountId) -> TokenBalance {
        value_or_zero(self.locks, a)
    }

    /// What of the balance of `a` is free to lock or burn.
    pub open spec fn available(&self, a: AccountId) -> int {
        self.balance(a) - self.locked_of(a)
    }

    /// The same balances, locks and supply.
    pub open spec fn same_ledger(&self, o: BridgeState) -> bool {
        &&& self.balances == o.balances
        &&& self.locks == o.locks
        &&& self.supply == o.supply
    }

    /// The same state but for the proposals.
    pub open spec fn same_but_proposals(&self, o: BridgeState) -> bool {
        &&& self.operational == o.operational
        &&& self.validators == o.validators
        &&& self.transfers == o.transfers
        &&& self.validator_messages == o.validator_messages
        &&& self.bridge_messages == o.bridge_messages
        &&& self.same_ledger(o)
    }

    pub open spec fn has_proposal(&self, key: Seq<u8>) -> bool {
        exists|i: int| 0 <= i < self.proposals.len() && #[trigger] self.proposals[i].key == key
    }

    /// Index of the proposal for `key`, where there is one.
    pub open spec fn proposal_index(&self, key: Seq<u8>) -> int {
        choose|i: int| 0 <= i < self.proposals.len() && #[trigger] self.proposals[i].key == key
    }

    /// Keys of the messages in the store of `kind`, in order.
    pub open spec fn keys(&self, kind: Kind) -> Seq<Seq<u8>> {
        match kind {
            Kind::Transfer => self.transfers.map_values(|m: TransferView| m.key),
            Kind::Validator => self.validator_messages.map_values(|m: AccountMessageView| m.key),
            Kind::Bridge => self.bridge_messages.map_values(|m: AccountMessageView| m.key),
        }
    }

    /// Whether the store of `kind` holds a message under `key`.
    pub open spec fn has_message(&self, kind: Kind, key: Seq<u8>) -> bool {
        self.keys(kind).contains(key)
    }

    /// Status of message `i` in the store of `kind`.
    pub open spec fn status_at(&self, kind: Kind, i: int) -> Status {
        match kind {
            Kind::Transfer => self.transfers[i].status,
            Kind::Validator => self.validator_messages[i].status,
            Kind::Bridge => self.bridge_messages[i].status,
        }
    }

    /// Position of the message under `key` in the store of `kind`.
    pub open spec fn message_index(&self, kind: Kind, key: Seq<u8>) -> int {
        position_of(self.keys(kind), key)
    }
}
/// `votes / count >= 0.51`, in exact arithmetic.
pub open spec fn quorum(votes: nat, count: nat) -> bool {
    votes * 100 >= count * 51
}

/// Whether the finalizer of `kind` succeeds on message `mi` seen with `status`.
pub open spec fn exec_ok(s: BridgeState, kind: Kind, mi: int, status: Status) -> bool {
    match kind {
        Kind::Transfer => transfer_exec_ok(s, mi, status),
        Kind::Validator => validator_exec_ok(s, mi, status),
        Kind::Bridge => bridge_exec_ok(s, mi, status),
    }
}

/// The error of the finalizer of `kind` where it fails.
pub open spec fn exec_err(s: BridgeState, kind: Kind, mi: int, status: Status) -> BridgeError {
    match kind {
        Kind::Transfer => transfer_exec_err(s, mi, status),
        Kind::Validator => validator_exec_err(s, mi, status),
        Kind::Bridge => BridgeError::UnsupportedStatusForAction,
    }
}

/// The effect of the finalizer of `kind`, proposals aside.
pub open spec fn exec_post(s: BridgeState, t: BridgeState, kind: Kind, mi: int, status: Status) -> bool {
    match kind {
        Kind::Transfer => transfer_exec_post(s, t, mi, status),
        Kind::Validator => validator_exec_post(s, t, mi),
        Kind::Bridge => bridge_exec_post(s, t, mi),
    }
}

/// A vote that does not reach quorum marks message `mi` of `kind` pending,
/// unless it is confirmed; nothing else changes, proposals aside.
pub open spec fn pending_post(s: BridgeState, t: BridgeState, kind: Kind, mi: int) -> bool {
    let keep = s.status_at(kind, mi) == Status::Confirmed;
    &&& t.operational == s.operational
    &&& t.validators == s.validators
    &&& t.same_ledger(s)
    &&& t.transfers == if kind == Kind::Transfer && !keep {
        s.transfers.update(mi, transfer_with_status(s.transfers[mi], Status::Pending))
    } else {
        s.transfers
    }
    &&& t.validator_messages == if kind == Kind::Validator && !keep {
        s.validator_messages.update(mi, account_with_status(s.validator_messages[mi], Status::Pending))
    } else {
        s.validator_messages
    }
    &&& t.bridge_messages == if kind == Kind::Bridge && !keep {
        s.bridge_messages.update(mi, account_with_status(s.bridge_messages[mi], Status::Pending))
    } else {
        s.bridge_messages
    }
}

/// Proposal `p` after one more vote, with `count` validators: closed at quorum.
pub open spec fn voted(p: ProposalView, count: nat) -> ProposalView {
    let votes = (p.votes + 1) as u64;
    ProposalView { votes, open: !quorum(votes as nat, count), ..p }
}

/// Whether a vote on proposal `p` is accepted in state `s`.
pub open spec fn vote_ok(s: BridgeState, p: ProposalView) -> bool {
    let mi = s.message_index(p.kind, p.key);
    &&& p.open
    &&& p.votes < u64::MAX
    &&& s.has_message(p.kind, p.key)
    &&& quorum((p.votes + 1) as nat, s.count())
        ==> exec_ok(s, p.kind, mi, status_on_quorum(s.status_at(p.kind, mi)))
}

/// Why a vote on proposal `p` is rejected in state `s`.
pub open spec fn vote_err(s: BridgeState, p: ProposalView) -> BridgeError {
    let mi = s.message_index(p.kind, p.key);
    if !p.open {
        BridgeError::NotOpen
    } else if p.votes == u64::MAX {
        BridgeError::Overflow
    } else if !s.has_message(p.kind, p.key) {
        BridgeError::UnknownMessage
    } else {
        exec_err(s, p.kind, mi, status_on_quorum(s.status_at(p.kind, mi)))
    }
}

/// The effect of an accepted vote on `p`, proposals aside: at quorum the
/// finalizer runs, otherwise the message is marked pending.
pub open spec fn vote_post(s: BridgeState, t: BridgeState, p: ProposalView) -> bool {
    let q = quorum((p.votes + 1) as nat, s.count());
    let mi = s.message_index(p.kind, p.key);
    &&& q ==> exec_post(s, t, p.kind, mi, status_on_quorum(s.status_at(p.kind, mi)))
    &&& !q ==> pending_post(s, t, p.kind, mi)
}

/// Whether a vote on proposal `pid` is accepted.
pub open spec fn sign_ok(s: BridgeState, pid: int) -> bool {
    vote_ok(s, s.proposals[pid])
}

/// Why a vote on proposal `pid` is rejected.
pub open spec fn sign_err(s: BridgeState, pid: int) -> BridgeError {
    vote_err(s, s.proposals[pid])
}

/// The effect of an accepted vote on proposal `pid`: the vote is counted, the
/// proposal closes at quorum, and the rest goes by `vote_post`.
pub open spec fn sign_post(s: BridgeState, t: BridgeState, pid: int) -> bool {
    let p = s.proposals[pid];
    &&& t.proposals == s.proposals.update(pid, voted(p, s.count()))
    &&& vote_post(s, t, p)
}

/// The proposal a new key gets: the next id, open, no votes.
pub open spec fn fresh_proposal(s: BridgeState, key: Seq<u8>, kind: Kind) -> ProposalView {
    ProposalView { id: s.proposals.len() as u32, key, open: true, votes: 0, kind }
}

/// The proposal for `key`: the one that exists, or the one it would get.
pub open spec fn proposal_for(s: BridgeState, key: Seq<u8>, kind: Kind) -> ProposalView {
    if s.has_proposal(key) {
        s.proposals[s.proposal_index(key)]
    } else {
        fresh_proposal(s, key, kind)
    }
}

/// Position of the proposal for `key`, existing or to be created.
pub open spec fn proposal_pos(s: BridgeState, key: Seq<u8>) -> int {
    if s.has_proposal(key) { s.proposal_index(key) } else { s.proposals.len() as int }
}

/// The proposals once `key` has one: unchanged if it had one already.
pub open spec fn proposals_with(s: BridgeState, key: Seq<u8>, kind: Kind) -> Seq<ProposalView> {
    if s.has_proposal(key) {
        s.proposals
    } else {
        s.proposals.push(fresh_proposal(s, key, kind))
    }
}

/// Whether a vote for `key` is accepted, its proposal created first where missing.
pub open spec fn submit_ok(s: BridgeState, key: Seq<u8>, kind: Kind) -> bool {
    &&& s.has_proposal(key) || s.proposals.len() < u32::MAX
    &&& vote_ok(s, proposal_for(s, key, kind))
}

/// Why a vote for `key` is rejected.
pub open spec fn submit_err(s: BridgeState, key: Seq<u8>, kind: Kind) -> BridgeError {
    if !s.has_proposal(key) && s.proposals.len() == u32::MAX {
        BridgeError::Overflow
    } else {
        vote_err(s, proposal_for(s, key, kind))
    }
}

/// The effect of an accepted vote for `key`: at most one proposal is created,
/// and the vote goes to the proposal of that key.
pub open spec fn submit_post(s: BridgeState, t: BridgeState, key: Seq<u8>, kind: Kind) -> bool {
    let p = proposal_for(s, key, kind);
    &&& t.proposals == proposals_with(s, key, kind).update(proposal_pos(s, key), voted(p, s.count()))
    &&& vote_post(s, t, p)
}

/// The message `m` with its status replaced.
pub open spec fn transfer_with_status(m: TransferView, status: Status) -> TransferView {
    TransferView { status, ..m }
}

/// The message `m` with its status replaced.
pub open spec fn account_with_status(m: AccountMessageView, status: Status) -> AccountMessageView {
    AccountMessageView { status, ..m }
}

/// The status a message takes when its proposal reaches quorum: a confirmed
/// withdrawal stays confirmed, anything else is approved.
pub open spec fn status_on_quorum(current: Status) -> Status {
    if current == Status::Confirmed { Status::Confirmed } else { Status::Approved }
}

/// Whether the transfer finalizer succeeds on message `mi` seen with `status`.
pub open spec fn transfer_exec_ok(s: BridgeState, mi: int, status: Status) -> bool {
    let m = s.transfers[mi];
    if m.action == Status::Deposit && status == Status::Approved {
        s.balance(m.account) + m.amount <= TokenBalance::MAX
            && s.supply + m.amount <= TokenBalance::MAX
    } else if m.action == Status::Withdraw && status == Status::Approved {
        s.available(m.account) >= m.amount
    } else if m.action == Status::Withdraw && status == Status::Confirmed {
        s.locked_of(m.account) >= m.amount
    } else {
        false
    }
}

/// The error of the transfer finalizer where it fails.
pub open spec fn transfer_exec_err(s: BridgeState, mi: int, status: Status) -> BridgeError {
    let m = s.transfers[mi];
    if m.action == Status::Deposit && status == Status::Approved {
        BridgeError::Overflow
    } else if m.action == Status::Withdraw && status == Status::Approved {
        BridgeError::InsufficientFunds
    } else if m.action == Status::Withdraw && status == Status::Confirmed {
        BridgeError::InsufficientLocked
    } else {
        BridgeError::UnsupportedStatusForAction
    }
}

/// The effect of a successful transfer finalizer: a deposit mints and is
/// confirmed; an approved withdrawal locks its amount; a confirmed withdrawal
/// unlocks and burns it.
pub open spec fn transfer_exec_post(s: BridgeState, t: BridgeState, mi: int, status: Status) -> bool {
    let m = s.transfers[mi];
    let a = m.account;
    &&& t.operational == s.operational
    &&& t.validators == s.validators
    &&& t.validator_messages == s.validator_messages
    &&& t.bridge_messages == s.bridge_messages
    &&& if m.action == Status::Deposit {
        &&& t.balances == s.balances.insert(a, (s.balance(a) + m.amount) as TokenBalance)
        &&& t.locks == s.locks
        &&& t.supply == s.supply + m.amount
        &&& t.transfers == s.transfers.update(mi, transfer_with_status(m, Status::Confirmed))
    } else if status == Status::Approved {
        &&& t.balances == s.balances
        &&& t.locks == s.locks.insert(a, (s.locked_of(a) + m.amount) as TokenBalance)
        &&& t.supply == s.supply
        &&& t.transfers == s.transfers.update(mi, transfer_with_status(m, Status::Approved))
    } else {
        &&& t.balances == s.balances.insert(a, (s.balance(a) - m.amount) as TokenBalance)
        &&& t.locks == s.locks.insert(a, (s.locked_of(a) - m.amount) as TokenBalance)
        &&& t.supply == s.supply - m.amount
        &&& t.transfers == s.transfers
    }
}

/// Whether the validator finalizer succeeds on message `mi` seen with `status`.
pub open spec fn validator_exec_ok(s: BridgeState, mi: int, status: Status) -> bool {
    let m = s.validator_messages[mi];
    if m.action == Status::AddValidator && status == Status::Approved {
        s.count() < MAX_VALIDATORS
    } else if m.action == Status::RemoveValidator && status == Status::Approved {
        s.count() > 1
    } else {
        false
    }
}

/// The error of the validator finalizer where it fails.
pub open spec fn validator_exec_err(s: BridgeState, mi: int, status: Status) -> BridgeError {
    let m = s.validator_messages[mi];
    if m.action == Status::AddValidator && status == Status::Approved {
        BridgeError::CapacityExceeded
    } else if m.action == Status::RemoveValidator && status == Status::Approved {
        BridgeError::LastValidator
    } else {
        BridgeError::UnsupportedStatusForAction
    }
}

/// The effect of a successful validator finalizer: an addition trusts the
/// account and is confirmed; a removal distrusts it and purges the message.
pub open spec fn validator_exec_post(s: BridgeState, t: BridgeState, mi: int) -> bool {
    let m = s.validator_messages[mi];
    &&& t.operational == s.operational
    &&& t.transfers == s.transfers
    &&& t.bridge_messages == s.bridge_messages
    &&& t.same_ledger(s)
    &&& if m.action == Status::AddValidator {
        &&& forall|a: AccountId| #[trigger] t.validators.contains(a) <==> s.validators.contains(a) || a == m.account
        &&& t.validator_messages == s.validator_messages.update(mi, account_with_status(m, Status::Confirmed))
    } else {
        &&& forall|a: AccountId| #[trigger] t.validators.contains(a) <==> s.validators.contains(a) && a != m.account
        &&& t.validator_messages == s.validator_messages.remove(mi)
    }
}

/// Whether the bridge finalizer succeeds on message `mi` seen with `status`.
pub open spec fn bridge_exec_ok(s: BridgeState, mi: int, status: Status) -> bool {
    let m = s.bridge_messages[mi];
    status == Status::Approved
        && (m.action == Status::PauseTheBridge || m.action == Status::ResumeTheBridge)
}

/// The effect of a successful bridge finalizer: the bridge stops on a pause and
/// restarts on a resume, and the message is confirmed.
pub open spec fn bridge_exec_post(s: BridgeState, t: BridgeState, mi: int) -> bool {
    let m = s.bridge_messages[mi];
    &&& t.operational == (m.action == Status::ResumeTheBridge)
    &&& t.validators == s.validators
    &&& t.transfers == s.transfers
    &&& t.validator_messages == s.validator_messages
    &&& t.same_ledger(s)
    &&& t.bridge_messages == s.bridge_messages.update(mi, account_with_status(m, Status::Confirmed))
}


/// `s` with message `m` in the transfer store, where its key was not there yet.
pub open spec fn with_transfer(s: BridgeState, m: TransferView) -> BridgeState {
    if s.has_message(Kind::Transfer, m.key) {
        s
    } else {
        BridgeState { transfers: s.transfers.push(m), ..s }
    }
}

/// `s` with message `m` in the validator store, where its key was not there yet.
pub open spec fn with_validator_message(s: BridgeState, m: AccountMessageView) -> BridgeState {
    if s.has_message(Kind::Validator, m.key) {
        s
    } else {
        BridgeState { validator_messages: s.validator_messages.push(m), ..s }
    }
}

/// `s` with message `m` in the bridge store, where its key was not there yet.
pub open spec fn with_bridge_message(s: BridgeState, m: AccountMessageView) -> BridgeState {
    if s.has_message(Kind::Bridge, m.key) {
        s
    } else {
        BridgeState { bridge_messages: s.bridge_messages.push(m), ..s }
    }
}

/// A new message whose status starts equal to its action.
pub open spec fn new_transfer(key: Seq<u8>, eth: Seq<u8>, account: AccountId, amount: TokenBalance, action: Status) -> TransferView {
    TransferView { key, eth_address: eth, account, amount, status: action, action }
}

/// A new message whose status starts equal to its action.
pub open spec fn new_account_message(key: Seq<u8>, account: AccountId, action: Status) -> AccountMessageView {
    AccountMessageView { key, account, action, status: action }
}

/// The transfer message under `key` in `s`.
pub open spec fn transfer_of(s: BridgeState, key: Seq<u8>) -> TransferView {
    s.transfers[s.message_index(Kind::Transfer, key)]
}

/// Whether the proposal for `key` exists and is open.
pub open spec fn proposal_open(s: BridgeState, key: Seq<u8>) -> bool {
    s.has_proposal(key) && s.proposals[s.proposal_index(key)].open
}

/// The state once the withdrawal under `key` is confirmed: its status becomes
/// `Confirmed`; then a closed transfer proposal whose message is a `Confirmed`
/// withdrawal is reopened with no votes.
pub open spec fn confirm_state(s: BridgeState, key: Seq<u8>) -> BridgeState {
    let mi = s.message_index(Kind::Transfer, key);
    let c = with_status(s, Kind::Transfer, mi, Status::Confirmed);
    let pi = s.proposal_index(key);
    let p = s.proposals[pi];
    if reopens(p, c.transfers[mi]) {
        BridgeState { proposals: s.proposals.update(pi, ProposalView { open: true, votes: 0, ..p }), ..c }
    } else {
        c
    }
}

/// The re-open rule: a closed transfer proposal whose message is a withdrawal
/// with status `Confirmed` is opened again for the burn quorum.
pub open spec fn reopens(p: ProposalView, m: TransferView) -> bool {
    &&& !p.open
    &&& p.kind == Kind::Transfer
    &&& m.status == Status::Confirmed
    &&& m.action == Status::Withdraw
}

/// Whether the withdrawal under `key` is burned: confirmed, with its proposal
/// closed after the burn quorum.
pub open spec fn burned(s: BridgeState, key: Seq<u8>) -> bool {
    transfer_of(s, key).status == Status::Confirmed && !proposal_open(s, key)
}

/// `s` with the status of message `mi` of the store of `kind` replaced.
pub open spec fn with_status(s: BridgeState, kind: Kind, mi: int, status: Status) -> BridgeState {
    match kind {
        Kind::Transfer => BridgeState {
            transfers: s.transfers.update(mi, transfer_with_status(s.transfers[mi], status)),
            ..s
        },
        Kind::Validator => BridgeState {
            validator_messages: s.validator_messages.update(
                mi,
                account_with_status(s.validator_messages[mi], status),
            ),
            ..s
        },
        Kind::Bridge => BridgeState {
            bridge_messages: s.bridge_messages.update(mi, account_with_status(s.bridge_messages[mi], status)),
            ..s
        },
    }
}

/// Whether the funds of the withdrawal under `key` are locked and not yet burned.
pub open spec fn funds_locked(s: BridgeState, key: Seq<u8>) -> bool {
    let m = transfer_of(s, key);
    &&& m.action == Status::Withdraw
    &&& m.status == Status::Approved || (m.status == Status::Confirmed && proposal_open(s, key))
}

/// Whether the message under `key` is a withdrawal that can still be canceled:
/// neither canceled already nor burned.
pub open spec fn cancellable(s: BridgeState, key: Seq<u8>) -> bool {
    let m = transfer_of(s, key);
    &&& m.action == Status::Withdraw
    &&& m.status != Status::Canceled
    &&& !(m.status == Status::Confirmed && !proposal_open(s, key))
}

/// The effect of a cancel: the message is canceled, locked funds are released,
/// and the proposal is closed.
pub open spec fn cancel_post(s: BridgeState, t: BridgeState, key: Seq<u8>) -> bool {
    let mi = s.message_index(Kind::Transfer, key);
    let m = s.transfers[mi];
    let pi = s.proposal_index(key);
    &&& t.operational == s.operational
    &&& t.validators == s.validators
    &&& t.validator_messages == s.validator_messages
    &&& t.bridge_messages == s.bridge_messages
    &&& t.balances == s.balances
    &&& t.supply == s.supply
    &&& t.transfers == s.transfers.update(mi, transfer_with_status(m, Status::Canceled))
    &&& t.locks == if funds_locked(s, key) {
        s.locks.insert(m.account, (s.locked_of(m.account) - m.amount) as TokenBalance)
    } else {
        s.locks
    }
    &&& t.proposals == if s.has_proposal(key) {
        s.proposals.update(pi, ProposalView { open: false, ..s.proposals[pi] })
    } else {
        s.proposals
    }
}

/// The message of every open proposal is in the store of its kind.
pub open spec fn open_messages_stored(s: BridgeState) -> bool {
    forall|i: int| 0 <= i < s.proposals.len() && (#[trigger] s.proposals[i]).open
        ==> s.has_message(s.proposals[i].kind, s.proposals[i].key)
}

/// Every proposal open in `t` was open in `s`, for the same key and kind.
pub open spec fn opens_no_new(s: BridgeState, t: BridgeState) -> bool {
    forall|i: int| 0 <= i < t.proposals.len() && (#[trigger] t.proposals[i]).open ==> {
        &&& i < s.proposals.len()
        &&& s.proposals[i].open
        &&& t.proposals[i].key == s.proposals[i].key
        &&& t.proposals[i].kind == s.proposals[i].kind
    }
}

/// `a` is `b` or the start of it.
pub open spec fn is_prefix(a: Seq<Seq<u8>>, b: Seq<Seq<u8>>) -> bool {
    a.len() <= b.len() && forall|i: int| 0 <= i < a.len() ==> b[i] == a[i]
}

/// Open proposals keep their messages where no proposal opens and each store
/// keeps its keys, with perhaps more after them.
pub proof fn lemma_open_messages_kept(s: BridgeState, t: BridgeState)
    requires
        open_messages_stored(s),
        opens_no_new(s, t),
        is_prefix(s.keys(Kind::Transfer), t.keys(Kind::Transfer)),
        is_prefix(s.keys(Kind::Validator), t.keys(Kind::Validator)),
        is_prefix(s.keys(Kind::Bridge), t.keys(Kind::Bridge)),
    ensures
        open_messages_stored(t),
{
    assert forall|i: int| 0 <= i < t.proposals.len() && (#[trigger] t.proposals[i]).open
        implies t.has_message(t.proposals[i].kind, t.proposals[i].key) by {
        assert(s.proposals[i].open);
        let k = s.proposals[i].kind;
        let key = s.proposals[i].key;
        assert(s.has_message(k, key));
        let j = choose|j: int| 0 <= j < s.keys(k).len() && s.keys(k)[j] == key;
        assert(is_prefix(s.keys(k), t.keys(k)));
        assert(t.keys(k)[j] == key);
    }
}

} // verus!
