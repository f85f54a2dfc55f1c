//! The voting engine: proposals over content-keyed messages, quorum arithmetic,
//! and the finalizers that apply a proposal's effect once.
use vstd::prelude::*;
use crate::codec::{
    add_validator_key, bridge_key, bytes_eq, copy_bytes, pause_key, remove_validator_key,
    resume_key, transfer_key, transfer_message_key, validator_key,
};
use crate::state::{
    account_with_status, lemma_open_messages_kept, open_messages_stored,
    burned, reopens, bridge_exec_ok, bridge_exec_post, cancel_post, cancellable, confirm_state,
    exec_post, funds_locked, new_account_message, new_transfer, pending_post, proposal_for,
    proposal_pos, proposals_with, quorum, sign_err, sign_ok, sign_post, status_on_quorum,
    submit_err, submit_ok, submit_post, transfer_exec_err, transfer_exec_ok, transfer_exec_post,
    transfer_of, transfer_with_status, validator_exec_err, validator_exec_ok, validator_exec_post,
    vote_err, vote_ok, vote_post, voted, with_bridge_message, with_status, with_transfer,
    with_validator_message, AccountMessageView, BridgeState, ProposalView, TransferView,
};
use crate::token::TokenLedger;
use crate::types::{
    AccountId, BridgeError, BridgeMessage, BridgeTransfer, H160, Kind, ProposalId, Status,
    TokenBalance, TransferMessage, ValidatorMessage, MAX_VALIDATORS,
};

verus! {

/// The engine's whole state.
pub struct Module {
    /// Whether the bridge accepts transfer and validator operations.
    pub operational: bool,
    /// Trusted validators, each once.
    pub validator_set: Vec<AccountId>,
    /// Proposals; a proposal's id is its index.
    pub proposals: Vec<BridgeTransfer>,
    pub transfer_store: Vec<TransferMessage>,
    pub validator_store: Vec<ValidatorMessage>,
    pub bridge_store: Vec<BridgeMessage>,
    /// The ledger that deposits mint into and withdrawals lock and burn from.
    pub token: TokenLedger,
}

impl View for Module {
    type V = BridgeState;

    open spec fn view(&self) -> BridgeState {
        BridgeState {
            operational: self.operational,
            validators: self.validator_set@,
            proposals: self.props(),
            transfers: self.transfers_view(),
            validator_messages: self.validators_view(),
            bridge_messages: self.bridge_view(),
            balances: self.token.balances@,
            locks: self.token.locks@,
            supply: self.token.supply,
        }
    }
}

impl Module {
    pub open spec fn props(&self) -> Seq<ProposalView> {
        self.proposals@.map_values(|p: BridgeTransfer| p@)
    }

    pub open spec fn transfers_view(&self) -> Seq<TransferView> {
        self.transfer_store@.map_values(|m: TransferMessage| m@)
    }

    pub open spec fn validators_view(&self) -> Seq<AccountMessageView> {
        self.validator_store@.map_values(|m: ValidatorMessage| m@)
    }

    pub open spec fn bridge_view(&self) -> Seq<AccountMessageView> {
        self.bridge_store@.map_values(|m: BridgeMessage| m@)
    }

    /// Number of trusted validators.
    pub open spec fn count(&self) -> nat {
        self.validator_set@.len()
    }

    /// The state invariant: a bounded validator set without repeats, dense
    /// proposal ids, one proposal per key, one message per key in each store,
    /// the message of every open proposal in its store, and a sound ledger.
    pub open spec fn wf(&self) -> bool {
        &&& self.validator_set@.no_duplicates()
        &&& 1 <= self.count() <= MAX_VALIDATORS
        &&& self.props().len() <= u32::MAX
        &&& forall|i: int| 0 <= i < self.props().len() ==> #[trigger] self.props()[i].id == i
        &&& forall|i: int, j: int| 0 <= i < j < self.props().len()
            ==> #[trigger] self.props()[i].key != #[trigger] self.props()[j].key
        &&& forall|i: int, j: int| 0 <= i < j < self.transfers_view().len()
            ==> #[trigger] self.transfers_view()[i].key != #[trigger] self.transfers_view()[j].key
        &&& forall|i: int, j: int| 0 <= i < j < self.validators_view().len()
            ==> #[trigger] self.validators_view()[i].key != #[trigger] self.validators_view()[j].key
        &&& forall|i: int, j: int| 0 <= i < j < self.bridge_view().len()
            ==> #[trigger] self.bridge_view()[i].key != #[trigger] self.bridge_view()[j].key
        &&& open_messages_stored(self@)
        &&& self.token.wf()
    }

    /// A bridge with the given validators, operational, with no proposals and
    /// an empty ledger.
    pub fn new(validators: Vec<AccountId>) -> (r: Self)
        requires
            validators@.no_duplicates(),
            1 <= validators@.len() <= MAX_VALIDATORS,
        ensures
            r.wf(),
            r.operational,
            r.validator_set@ == validators@,
            r.props().len() == 0,
            r.transfers_view().len() == 0,
            r.validators_view().len() == 0,
            r.bridge_view().len() == 0,
            r.token.supply == 0,
            forall|a: AccountId| r.token.balance(a) == 0 && r.token.locked_of(a) == 0,
    {
        let r = Module {
            operational: true,
            validator_set: validators,
            proposals: Vec::new(),
            transfer_store: Vec::new(),
            validator_store: Vec::new(),
            bridge_store: Vec::new(),
            token: TokenLedger::new(),
        };
        assert(r.props() =~= Seq::<ProposalView>::empty());
        assert(r.transfers_view() =~= Seq::<TransferView>::empty());
        assert(r.validators_view() =~= Seq::<AccountMessageView>::empty());
        assert(r.bridge_view() =~= Seq::<AccountMessageView>::empty());
        r
    }

    /// Whether `votes` votes reach quorum against the current number of validators.
    pub fn votes_are_enough(&self, votes: u64) -> (r: bool)
        ensures
            r == quorum(votes as nat, self.count()),
    {
        (votes as u128) * 100 >= (self.validator_set.len() as u128) * 51
    }

    /// Fails with `NotAuthorized` unless `validator` is trusted.
    pub fn check_validator(&self, validator: AccountId) -> (r: Result<(), BridgeError>)
        ensures
            r is Ok <==> self@.is_validator(validator),
            r is Err ==> r == Err::<(), BridgeError>(BridgeError::NotAuthorized),
    {
        match self.validator_index(validator) {
            Some(_) => Ok(()),
            None => Err(BridgeError::NotAuthorized),
        }
    }

    /// Position of `validator` in the validator set.
    fn validator_index(&self, validator: AccountId) -> (r: Option<usize>)
        ensures
            match r {
                Some(i) => i < self.validator_set@.len() && self.validator_set@[i as int] == validator,
                None => !self@.is_validator(validator),
            },
    {
        let mut i: usize = 0;
        while i < self.validator_set.len()
            invariant
                0 <= i <= self.validator_set@.len(),
                forall|j: int| 0 <= j < i ==> self.validator_set@[j] != validator,
            decreases self.validator_set@.len() - i,
        {
            if self.validator_set[i] == validator {
                return Some(i);
            }
            i = i + 1;
        }
        None
    }

    /// Opens a new proposal with no votes for `key`, under the next id.
    fn create_transfer(&mut self, key: &Vec<u8>, kind: Kind) -> (r: Result<(), BridgeError>)
        requires
            old(self).wf(),
            old(self)@.has_message(kind, key@),
        ensures
            final(self).wf(),
            old(self)@.has_proposal(key@) ==> r == Err::<(), BridgeError>(BridgeError::AlreadyExists),
            !old(self)@.has_proposal(key@) && old(self).props().len() == u32::MAX
                ==> r == Err::<(), BridgeError>(BridgeError::Overflow),
            r is Err ==> final(self)@ == old(self)@,
            r is Ok <==> !old(self)@.has_proposal(key@) && old(self).props().len() < u32::MAX,
            r is Ok ==> final(self).props() == old(self).props().push(
                ProposalView { id: old(self).props().len() as u32, key: key@, open: true, votes: 0, kind },
            ),
            r is Ok ==> final(self)@.same_but_proposals(old(self)@),
    {
        if self.find_proposal(key).is_some() {
            return Err(BridgeError::AlreadyExists);
        }
        let count = self.proposals.len();
        if count >= 4294967295 {
            return Err(BridgeError::Overflow);
        }
        let transfer_id = count as ProposalId;
        let transfer = BridgeTransfer {
            transfer_id,
            message_id: copy_bytes(key),
            open: true,
            votes: 0,
            kind,
        };
        self.proposals.push(transfer);
        assert(self.props() =~= old(self).props().push(
            ProposalView { id: transfer_id, key: key@, open: true, votes: 0, kind },
        ));
        Ok(())
    }

    /// The proposal for `key`, created if there is none yet. Gives its index and
    /// whether it was created.
    fn get_transfer_id_checked(&mut self, key: &Vec<u8>, kind: Kind) -> (r: Result<(usize, bool), BridgeError>)
        requires
            old(self).wf(),
            old(self)@.has_message(kind, key@),
        ensures
            final(self).wf(),
            r is Err <==> !old(self)@.has_proposal(key@) && old(self).props().len() == u32::MAX,
            r is Err ==> r == Err::<(usize, bool), BridgeError>(BridgeError::Overflow)
                && final(self)@ == old(self)@,
            r matches Ok((i, created)) ==> {
                &&& i < final(self).props().len()
                &&& final(self).props()[i as int].key == key@
                &&& created == !old(self)@.has_proposal(key@)
                &&& final(self)@.same_but_proposals(old(self)@)
                &&& created ==> final(self).props() == old(self).props().push(
                    ProposalView { id: i as u32, key: key@, open: true, votes: 0, kind },
                ) && i == old(self).props().len()
                &&& !created ==> final(self).props() == old(self).props()
            },
    {
        match self.find_proposal(key) {
            Some(i) => Ok((i, false)),
            None => {
                let i = self.proposals.len();
                match self.create_transfer(key, kind) {
                    Ok(()) => Ok((i, true)),
                    Err(e) => Err(e),
                }
            },
        }
    }

    /// Index of the proposal for `key`.
    fn find_proposal(&self, key: &Vec<u8>) -> (r: Option<usize>)
        ensures
            match r {
                Some(i) => i < self.props().len() && self.props()[i as int].key == key@,
                None => !self@.has_proposal(key@),
            },
    {
        let mut i: usize = 0;
        while i < self.proposals.len()
            invariant
                0 <= i <= self.props().len(),
                forall|j: int| 0 <= j < i ==> #[trigger] self.props()[j].key != key@,
            decreases self.props().len() - i,
        {
            if bytes_eq(&self.proposals[i].message_id, key) {
                return Some(i);
            }
            i = i + 1;
        }
        None
    }

    /// Index of the transfer message for `key`.
    fn find_transfer(&self, key: &Vec<u8>) -> (r: Option<usize>)
        ensures
            match r {
                Some(i) => i < self.transfers_view().len() && self.transfers_view()[i as int].key == key@
                    && self@.has_message(Kind::Transfer, key@),
                None => !self@.has_message(Kind::Transfer, key@),
            },
    {
        let mut i: usize = 0;
        while i < self.transfer_store.len()
            invariant
                0 <= i <= self.transfers_view().len(),
                forall|j: int| 0 <= j < i ==> #[trigger] self.transfers_view()[j].key != key@,
            decreases self.transfers_view().len() - i,
        {
            if bytes_eq(&self.transfer_store[i].message_id, key) {
                assert(self@.keys(Kind::Transfer)[i as int] == key@);
                return Some(i);
            }
            i = i + 1;
        }
        None
    }

    /// Index of the validator message for `key`.
    fn find_validator_message(&self, key: &Vec<u8>) -> (r: Option<usize>)
        ensures
            match r {
                Some(i) => i < self.validators_view().len() && self.validators_view()[i as int].key == key@
                    && self@.has_message(Kind::Validator, key@),
                None => !self@.has_message(Kind::Validator, key@),
            },
    {
        let mut i: usize = 0;
        while i < self.validator_store.len()
            invariant
                0 <= i <= self.validators_view().len(),
                forall|j: int| 0 <= j < i ==> #[trigger] self.validators_view()[j].key != key@,
            decreases self.validators_view().len() - i,
        {
            if bytes_eq(&self.validator_store[i].message_id, key) {
                assert(self@.keys(Kind::Validator)[i as int] == key@);
                return Some(i);
            }
            i = i + 1;
        }
        None
    }

    /// Index of the bridge message for `key`.
    fn find_bridge_message(&self, key: &Vec<u8>) -> (r: Option<usize>)
        ensures
            match r {
                Some(i) => i < self.bridge_view().len() && self.bridge_view()[i as int].key == key@
                    && self@.has_message(Kind::Bridge, key@),
                None => !self@.has_message(Kind::Bridge, key@),
            },
    {
        let mut i: usize = 0;
        while i < self.bridge_store.len()
            invariant
                0 <= i <= self.bridge_view().len(),
                forall|j: int| 0 <= j < i ==> #[trigger] self.bridge_view()[j].key != key@,
            decreases self.bridge_view().len() - i,
        {
            if bytes_eq(&self.bridge_store[i].message_id, key) {
                assert(self@.keys(Kind::Bridge)[i as int] == key@);
                return Some(i);
            }
            i = i + 1;
        }
        None
    }
}

impl Module {
    /// Mints, locks, or unlocks and burns, by the action of transfer message `mi`
    /// and the status it is seen with.
    fn execute_transfer(&mut self, mi: usize, status: Status) -> (r: Result<(), BridgeError>)
        requires
            old(self).wf(),
            mi < old(self).transfers_view().len(),
        ensures
            final(self).wf(),
            final(self).props() == old(self).props(),
            r is Ok <==> transfer_exec_ok(old(self)@, mi as int, status),
            r is Err ==> r == Err::<(), BridgeError>(transfer_exec_err(old(self)@, mi as int, status))
                && final(self)@ == old(self)@,
            r is Ok ==> transfer_exec_post(old(self)@, final(self)@, mi as int, status),
    {
        let action = self.transfer_store[mi].action;
        let account = self.transfer_store[mi].substrate_address;
        let amount = self.transfer_store[mi].amount;
        if action == Status::Deposit && status == Status::Approved {
            self.token.mint(account, amount)?;
            self.transfer_store[mi].status = Status::Confirmed;
        } else if action == Status::Withdraw && status == Status::Approved {
            self.token.lock(account, amount)?;
            self.transfer_store[mi].status = Status::Approved;
        } else if action == Status::Withdraw && status == Status::Confirmed {
            self.execute_burn(account, amount)?;
        } else {
            return Err(BridgeError::UnsupportedStatusForAction);
        }
        assert(self.transfers_view() =~= old(self).transfers_view().update(
            mi as int,
            transfer_with_status(old(self).transfers_view()[mi as int], self.transfer_store@[mi as int].status),
        ));
        proof {
            assert(self@.keys(Kind::Transfer) =~= old(self)@.keys(Kind::Transfer));
            lemma_open_messages_kept(old(self)@, self@);
        }
        Ok(())
    }

    /// Second phase of a withdrawal: releases the locked amount and burns it.
    fn execute_burn(&mut self, account: AccountId, amount: TokenBalance) -> (r: Result<(), BridgeError>)
        requires
            old(self).wf(),
        ensures
            final(self).wf(),
            r is Ok <==> old(self).token.locked_of(account) >= amount,
            r is Err ==> final(self)@ == old(self)@
                && r == Err::<(), BridgeError>(BridgeError::InsufficientLocked),
            final(self).operational == old(self).operational,
            final(self).validator_set@ == old(self).validator_set@,
            final(self).props() == old(self).props(),
            final(self).transfers_view() == old(self).transfers_view(),
            final(self).validators_view() == old(self).validators_view(),
            final(self).bridge_view() == old(self).bridge_view(),
            r is Ok ==> {
                &&& final(self).token.balances@ == old(self).token.balances@.insert(
                    account,
                    (old(self).token.balance(account) - amount) as TokenBalance,
                )
                &&& final(self).token.locks@ == old(self).token.locks@.insert(
                    account,
                    (old(self).token.locked_of(account) - amount) as TokenBalance,
                )
                &&& final(self).token.supply == old(self).token.supply - amount
            },
    {
        let locked = self.token.locked(account);
        if locked < amount {
            return Err(BridgeError::InsufficientLocked);
        }
        self.token.unlock(account, amount)?;
        self.token.burn(account, amount)?;
        Ok(())
    }

    /// Adds or removes a validator, by the action of validator message `mi`.
    fn manage_validator(&mut self, mi: usize, status: Status) -> (r: Result<(), BridgeError>)
        requires
            old(self).wf(),
            mi < old(self).validators_view().len(),
            forall|i: int| 0 <= i < old(self)@.proposals.len() && (#[trigger] old(self)@.proposals[i]).open
                ==> old(self)@.proposals[i].key != old(self)@.validator_messages[mi as int].key,
        ensures
            final(self).wf(),
            final(self).props() == old(self).props(),
            r is Ok <==> validator_exec_ok(old(self)@, mi as int, status),
            r is Err ==> r == Err::<(), BridgeError>(validator_exec_err(old(self)@, mi as int, status))
                && final(self)@ == old(self)@,
            r is Ok ==> validator_exec_post(old(self)@, final(self)@, mi as int),
    {
        let action = self.validator_store[mi].action;
        if action == Status::AddValidator && status == Status::Approved {
            self._add_validator(mi)
        } else if action == Status::RemoveValidator && status == Status::Approved {
            self._remove_validator(mi)
        } else {
            Err(BridgeError::UnsupportedStatusForAction)
        }
    }

    /// Trusts the account of validator message `mi` and confirms the message.
    fn _add_validator(&mut self, mi: usize) -> (r: Result<(), BridgeError>)
        requires
            old(self).wf(),
            mi < old(self).validators_view().len(),
            old(self).validators_view()[mi as int].action == Status::AddValidator,
        ensures
            final(self).wf(),
            final(self).props() == old(self).props(),
            r is Ok <==> old(self).count() < MAX_VALIDATORS,
            r is Err ==> r == Err::<(), BridgeError>(BridgeError::CapacityExceeded)
                && final(self)@ == old(self)@,
            r is Ok ==> validator_exec_post(old(self)@, final(self)@, mi as int),
    {
        if self.validator_set.len() >= MAX_VALIDATORS as usize {
            return Err(BridgeError::CapacityExceeded);
        }
        let account = self.validator_store[mi].account;
        assert(old(self).validators_view()[mi as int].account == account);
        let present = self.check_validator(account).is_ok();
        if !present {
            self.validator_set.push(account);
            proof {
                assert forall|i: int, j: int| 0 <= i < j < self.validator_set@.len()
                    implies self.validator_set@[i] != self.validator_set@[j] by {
                    if j == self.validator_set@.len() - 1 {
                        assert(old(self).validator_set@.contains(old(self).validator_set@[i]));
                    }
                }
                assert forall|a: AccountId| #[trigger] self.validator_set@.contains(a)
                    <==> old(self).validator_set@.contains(a) || a == account by {
                    if old(self)@.is_validator(a) {
                        let k = choose|k: int| 0 <= k < old(self).validator_set@.len()
                            && old(self).validator_set@[k] == a;
                        assert(self.validator_set@[k] == a);
                    }
                    if a == account {
                        assert(self.validator_set@[self.validator_set@.len() - 1] == a);
                    }
                }
            }
        }
        assert(forall|a: AccountId| #[trigger] self.validator_set@.contains(a)
            <==> old(self).validator_set@.contains(a) || a == account);
        self.validator_store[mi].status = Status::Confirmed;
        assert(self.validators_view() =~= old(self).validators_view().update(
            mi as int,
            account_with_status(old(self).validators_view()[mi as int], Status::Confirmed),
        ));
        proof {
            assert(self@.keys(Kind::Validator) =~= old(self)@.keys(Kind::Validator));
            lemma_open_messages_kept(old(self)@, self@);
        }
        Ok(())
    }

    /// Distrusts the account of validator message `mi` and purges the message.
    fn _remove_validator(&mut self, mi: usize) -> (r: Result<(), BridgeError>)
        requires
            old(self).wf(),
            mi < old(self).validators_view().len(),
            forall|i: int| 0 <= i < old(self)@.proposals.len() && (#[trigger] old(self)@.proposals[i]).open
                ==> old(self)@.proposals[i].key != old(self)@.validator_messages[mi as int].key,
            old(self).validators_view()[mi as int].action == Status::RemoveValidator,
        ensures
            final(self).wf(),
            final(self).props() == old(self).props(),
            r is Ok <==> old(self).count() > 1,
            r is Err ==> r == Err::<(), BridgeError>(BridgeError::LastValidator)
                && final(self)@ == old(self)@,
            r is Ok ==> validator_exec_post(old(self)@, final(self)@, mi as int),
    {
        if self.validator_set.len() <= 1 {
            return Err(BridgeError::LastValidator);
        }
        let account = self.validator_store[mi].account;
        assert(old(self).validators_view()[mi as int].account == account);
        let found = self.validator_index(account);
        let i: usize = match found {
            Some(k) => k,
            None => self.validator_set.len(),
        };
        if i < self.validator_set.len() {
            self.validator_set.remove(i);
        }
        proof {
            let o = old(self).validator_set@;
            assert forall|a: AccountId| #[trigger] self.validator_set@.contains(a)
                <==> old(self).validator_set@.contains(a) && a != account by {
                if old(self)@.is_validator(a) && a != account {
                    let k = choose|k: int| 0 <= k < o.len() && o[k] == a;
                    if i < o.len() {
                        if k < i {
                            assert(self.validator_set@[k] == a);
                        } else {
                            assert(o[i as int] == account);
                            assert(k != i);
                            assert(self.validator_set@[k - 1] == a);
                        }
                    } else {
                        assert(self.validator_set@[k] == a);
                    }
                }
                if self@.is_validator(a) {
                    let k = choose|k: int| 0 <= k < self.validator_set@.len() && self.validator_set@[k] == a;
                    if i < o.len() {
                        if k < i {
                            assert(o[k] == a);
                        } else {
                            assert(o[k + 1] == a);
                            assert(o[i as int] == account);
                        }
                    } else {
                        assert(o[k] == a);
                    }
                }
            }
            assert forall|x: int, y: int| 0 <= x < y < self.validator_set@.len()
                implies self.validator_set@[x] != self.validator_set@[y] by {
                if i < o.len() {
                    let x0 = if x < i { x } else { x + 1 };
                    let y0 = if y < i { y } else { y + 1 };
                    assert(self.validator_set@[x] == o[x0]);
                    assert(self.validator_set@[y] == o[y0]);
                }
            }
        }
        let ghost before = self.validator_set@;
        self.validator_store.remove(mi);
        assert(self.validator_set@ == before);
        assert(self.validators_view() =~= old(self).validators_view().remove(mi as int));
        proof {
            let ok = old(self)@.keys(Kind::Validator);
            let nk = self@.keys(Kind::Validator);
            assert(nk =~= ok.remove(mi as int));
            assert forall|i: int| 0 <= i < self@.proposals.len() && (#[trigger] self@.proposals[i]).open
                implies self@.has_message(self@.proposals[i].kind, self@.proposals[i].key) by {
                let k = self@.proposals[i].kind;
                let key = self@.proposals[i].key;
                assert(old(self)@.proposals[i].open);
                assert(old(self)@.has_message(k, key));
                if k == Kind::Validator {
                    let j = choose|j: int| 0 <= j < ok.len() && ok[j] == key;
                    assert(j != mi as int);
                    if j < mi as int {
                        assert(nk[j] == key);
                    } else {
                        assert(nk[j - 1] == key);
                    }
                } else {
                    assert(self@.keys(k) == old(self)@.keys(k));
                }
            }
        }
        Ok(())
    }

    /// Stops or restarts the bridge, by the action of bridge message `mi`.
    fn manage_bridge(&mut self, mi: usize, status: Status) -> (r: Result<(), BridgeError>)
        requires
            old(self).wf(),
            mi < old(self).bridge_view().len(),
        ensures
            final(self).wf(),
            final(self).props() == old(self).props(),
            r is Ok <==> bridge_exec_ok(old(self)@, mi as int, status),
            r is Err ==> r == Err::<(), BridgeError>(BridgeError::UnsupportedStatusForAction)
                && final(self)@ == old(self)@,
            r is Ok ==> bridge_exec_post(old(self)@, final(self)@, mi as int),
    {
        let action = self.bridge_store[mi].action;
        if status != Status::Approved {
            return Err(BridgeError::UnsupportedStatusForAction);
        }
        if action == Status::PauseTheBridge {
            self.operational = false;
        } else if action == Status::ResumeTheBridge {
            self.operational = true;
        } else {
            return Err(BridgeError::UnsupportedStatusForAction);
        }
        self.bridge_store[mi].status = Status::Confirmed;
        assert(self.bridge_view() =~= old(self).bridge_view().update(
            mi as int,
            account_with_status(old(self).bridge_view()[mi as int], Status::Confirmed),
        ));
        proof {
            assert(self@.keys(Kind::Bridge) =~= old(self)@.keys(Kind::Bridge));
            lemma_open_messages_kept(old(self)@, self@);
        }
        Ok(())
    }
}

impl Module {
    /// Records one vote on proposal `pid`; at quorum, runs the finalizer of the
    /// proposal's kind and closes it, otherwise marks its message pending.
    fn _sign(&mut self, pid: usize) -> (r: Result<(), BridgeError>)
        requires
            old(self).wf(),
            pid < old(self).props().len(),
        ensures
            final(self).wf(),
            r is Ok <==> sign_ok(old(self)@, pid as int),
            r is Err ==> r == Err::<(), BridgeError>(sign_err(old(self)@, pid as int))
                && final(self)@ == old(self)@,
            r is Ok ==> sign_post(old(self)@, final(self)@, pid as int),
            old(self)@.proposals[pid as int].open && old(self)@.proposals[pid as int].votes < u64::MAX
                && !quorum((old(self)@.proposals[pid as int].votes + 1) as nat, old(self)@.count())
                ==> r is Ok,
    {
        if !self.proposals[pid].open {
            return Err(BridgeError::NotOpen);
        }
        if self.proposals[pid].votes == u64::MAX {
            return Err(BridgeError::Overflow);
        }
        let votes = self.proposals[pid].votes + 1;
        let kind = self.proposals[pid].kind;
        let ghost p = self.props()[pid as int];
        let found = match kind {
            Kind::Transfer => self.find_transfer(&self.proposals[pid].message_id),
            Kind::Validator => self.find_validator_message(&self.proposals[pid].message_id),
            Kind::Bridge => self.find_bridge_message(&self.proposals[pid].message_id),
        };
        let mi = match found {
            Some(mi) => mi,
            None => return Err(BridgeError::UnknownMessage),
        };
        proof {
            let keys = self@.keys(kind);
            assert(keys[mi as int] == p.key);
            let c = self@.message_index(kind, p.key);
            assert(0 <= c < keys.len() && keys[c] == p.key);
            assert(c == mi as int) by {
                if c < mi as int {
                    assert(keys[c] != keys[mi as int]);
                } else if c > mi as int {
                    assert(keys[mi as int] != keys[c]);
                }
            }
        }
        let current = match kind {
            Kind::Transfer => self.transfer_store[mi].status,
            Kind::Validator => self.validator_store[mi].status,
            Kind::Bridge => self.bridge_store[mi].status,
        };
        let enough = self.votes_are_enough(votes);
        let ghost mid;
        if enough {
            let status = if current == Status::Confirmed { Status::Confirmed } else { Status::Approved };
            self.proposals[pid].votes = votes;
            self.proposals[pid].open = false;
            let ghost closed = self@;
            proof {
                assert(self.props() =~= old(self).props().update(pid as int, ProposalView { votes, open: false, ..p }));
                lemma_open_messages_kept(old(self)@, self@);
                assert forall|i: int| 0 <= i < self@.proposals.len() && (#[trigger] self@.proposals[i]).open
                    && kind == Kind::Validator implies self@.proposals[i].key != self@.validator_messages[mi as int].key by {
                    assert(i != pid as int);
                    assert(self@.proposals[i] == old(self)@.proposals[i]);
                    if i < pid as int {
                        assert(old(self).props()[i].key != old(self).props()[pid as int].key);
                    } else {
                        assert(old(self).props()[pid as int].key != old(self).props()[i].key);
                    }
                }
            }
            let r = match kind {
                Kind::Transfer => self.execute_transfer(mi, status),
                Kind::Validator => self.manage_validator(mi, status),
                Kind::Bridge => self.manage_bridge(mi, status),
            };
            proof { mid = self@; }
            if r.is_err() {
                let ghost pb = self.props();
                assert(pb == closed.proposals);
                self.proposals[pid].votes = votes - 1;
                self.proposals[pid].open = true;
                assert forall|i: int| 0 <= i < old(self).props().len()
                    implies #[trigger] self.props()[i] == old(self).props()[i] by {
                    if i != pid as int {
                        assert(self.props()[i] == pb[i]);
                    } else {
                        assert(pb[i] == ProposalView { votes, open: false, ..p });
                        assert(self.props()[i].key == pb[i].key);
                        assert(self.props()[i].id == pb[i].id);
                        assert(self.props()[i].kind == pb[i].kind);
                    }
                }
                assert(self.props() =~= old(self).props());
                return r;
            }
        } else {
            if current != Status::Confirmed {
                self.update_status(kind, mi, Status::Pending);
            }
            proof { mid = self@; }
            self.proposals[pid].votes = votes;
            self.proposals[pid].open = true;
        }
        assert(self.props() =~= old(self).props().update(
            pid as int,
            ProposalView { votes, open: !enough, ..p },
        ));
        proof {
            let st = status_on_quorum(current);
            if enough {
                assert(exec_post(old(self)@, mid, kind, mi as int, st));
                assert(self@.same_but_proposals(mid));
                if kind == Kind::Validator {
                    assert(forall|a: AccountId| #[trigger] self@.validators.contains(a) <==> mid.validators.contains(a));
                }
                assert(exec_post(old(self)@, self@, kind, mi as int, st));
            } else {
                assert(pending_post(old(self)@, self@, kind, mi as int));
            }
        }
        Ok(())
    }
}

impl Module {
    /// Votes for the proposal of `key`, creating it first where there is none.
    /// A rejected vote leaves no proposal behind.
    fn vote_on_key(&mut self, key: &Vec<u8>, kind: Kind) -> (r: Result<(), BridgeError>)
        requires
            old(self).wf(),
            old(self)@.has_message(kind, key@),
        ensures
            final(self).wf(),
            r is Ok <==> submit_ok(old(self)@, key@, kind),
            r is Err ==> r == Err::<(), BridgeError>(submit_err(old(self)@, key@, kind))
                && final(self)@ == old(self)@,
            r is Ok ==> submit_post(old(self)@, final(self)@, key@, kind),
    {
        let (pid, created) = self.get_transfer_id_checked(key, kind)?;
        let ghost s0 = old(self)@;
        let ghost s1 = self@;
        let ghost p = proposal_for(s0, key@, kind);
        proof {
            if !created {
                let c = s0.proposal_index(key@);
                assert(0 <= c < s0.proposals.len() && s0.proposals[c].key == key@);
                assert(c == pid as int) by {
                    if c < pid as int {
                        assert(s0.proposals[c].key != s0.proposals[pid as int].key);
                    } else if c > pid as int {
                        assert(s0.proposals[pid as int].key != s0.proposals[c].key);
                    }
                }
            }
            assert(s1.proposals[pid as int] == p);
            assert(s1.proposals == proposals_with(s0, key@, kind));
            assert(pid as int == proposal_pos(s0, key@));
            assert(s1.same_but_proposals(s0));
            assert(vote_ok(s1, p) == vote_ok(s0, p));
            assert(vote_err(s1, p) == vote_err(s0, p));
        }
        let r = self._sign(pid);
        proof {
            if r is Ok {
                assert(vote_post(s0, self@, p) == vote_post(s1, self@, p));
            }
        }
        if r.is_err() && created {
            assert(self.props() == s1.proposals);
            assert(s1.proposals == s0.proposals.push(p));
            let ghost before = self.proposals@;
            self.proposals.pop();
            assert(self.proposals@ == before.drop_last());
            assert forall|i: int| 0 <= i < s0.proposals.len() implies #[trigger] self.props()[i] == s0.proposals[i] by {
                assert(self.props()[i] == before[i]@);
                assert(s1.proposals[i] == before[i]@);
            }
            assert(self.props() =~= s0.proposals);
        }
        r
    }
}

impl Module {
    /// Puts `m` in the transfer store unless its key is there already; says
    /// whether it did.
    fn insert_transfer(&mut self, m: TransferMessage) -> (created: bool)
        requires
            old(self).wf(),
        ensures
            final(self).wf(),
            created == !old(self)@.has_message(Kind::Transfer, m@.key),
            final(self)@.has_message(Kind::Transfer, m@.key),
            final(self)@ == with_transfer(old(self)@, m@),
    {
        if self.find_transfer(&m.message_id).is_some() {
            return false;
        }
        let ghost v = m@;
        self.transfer_store.push(m);
        assert(self.transfers_view() =~= old(self).transfers_view().push(v));
        proof {
            assert forall|i: int| 0 <= i < old(self).transfers_view().len()
                implies old(self).transfers_view()[i].key != v.key by {
                assert(old(self)@.keys(Kind::Transfer)[i] == old(self).transfers_view()[i].key);
            }
            assert(self@.keys(Kind::Transfer) =~= old(self)@.keys(Kind::Transfer).push(v.key));
            lemma_open_messages_kept(old(self)@, self@);
            assert(self@.keys(Kind::Transfer)[old(self)@.keys(Kind::Transfer).len() as int] == v.key);
        }
        true
    }

    /// Puts `m` in the validator store unless its key is there already; says
    /// whether it did.
    fn insert_validator_message(&mut self, m: ValidatorMessage) -> (created: bool)
        requires
            old(self).wf(),
        ensures
            final(self).wf(),
            created == !old(self)@.has_message(Kind::Validator, m@.key),
            final(self)@.has_message(Kind::Validator, m@.key),
            final(self)@ == with_validator_message(old(self)@, m@),
    {
        if self.find_validator_message(&m.message_id).is_some() {
            return false;
        }
        let ghost v = m@;
        self.validator_store.push(m);
        assert(self.validators_view() =~= old(self).validators_view().push(v));
        proof {
            assert forall|i: int| 0 <= i < old(self).validators_view().len()
                implies old(self).validators_view()[i].key != v.key by {
                assert(old(self)@.keys(Kind::Validator)[i] == old(self).validators_view()[i].key);
            }
            assert(self@.keys(Kind::Validator) =~= old(self)@.keys(Kind::Validator).push(v.key));
            lemma_open_messages_kept(old(self)@, self@);
            assert(self@.keys(Kind::Validator)[old(self)@.keys(Kind::Validator).len() as int] == v.key);
        }
        true
    }

    /// Puts `m` in the bridge store unless its key is there already; says
    /// whether it did.
    fn insert_bridge_message(&mut self, m: BridgeMessage) -> (created: bool)
        requires
            old(self).wf(),
        ensures
            final(self).wf(),
            created == !old(self)@.has_message(Kind::Bridge, m@.key),
            final(self)@.has_message(Kind::Bridge, m@.key),
            final(self)@ == with_bridge_message(old(self)@, m@),
    {
        if self.find_bridge_message(&m.message_id).is_some() {
            return false;
        }
        let ghost v = m@;
        self.bridge_store.push(m);
        assert(self.bridge_view() =~= old(self).bridge_view().push(v));
        proof {
            assert forall|i: int| 0 <= i < old(self).bridge_view().len()
                implies old(self).bridge_view()[i].key != v.key by {
                assert(old(self)@.keys(Kind::Bridge)[i] == old(self).bridge_view()[i].key);
            }
            assert(self@.keys(Kind::Bridge) =~= old(self)@.keys(Kind::Bridge).push(v.key));
            lemma_open_messages_kept(old(self)@, self@);
            assert(self@.keys(Kind::Bridge)[old(self)@.keys(Kind::Bridge).len() as int] == v.key);
        }
        true
    }
}

impl Module {
    /// Stores `m` where its key is new, then votes for the proposal of its key.
    /// A rejected vote leaves neither message nor proposal behind.
    fn submit_transfer(&mut self, m: TransferMessage) -> (r: Result<(), BridgeError>)
        requires
            old(self).wf(),
        ensures
            final(self).wf(),
            r is Ok <==> submit_ok(with_transfer(old(self)@, m@), m@.key, Kind::Transfer),
            r is Err ==> r == Err::<(), BridgeError>(submit_err(with_transfer(old(self)@, m@), m@.key, Kind::Transfer))
                && final(self)@ == old(self)@,
            r is Ok ==> submit_post(with_transfer(old(self)@, m@), final(self)@, m@.key, Kind::Transfer),
    {
        let key = copy_bytes(&m.message_id);
        let ghost mv = m@;
        let ghost s1 = with_transfer(old(self)@, m@);
        let created = self.insert_transfer(m);
        let r = self.vote_on_key(&key, Kind::Transfer);
        if r.is_err() && created {
            assert(self@ == s1);
            let ghost before = self.transfer_store@;
            self.transfer_store.pop();
            assert(self.transfer_store@ == before.drop_last());
            assert(s1.transfers == old(self).transfers_view().push(mv));
            assert forall|i: int| 0 <= i < old(self).transfers_view().len()
                implies #[trigger] self.transfers_view()[i] == old(self).transfers_view()[i] by {
                assert(self.transfers_view()[i] == before[i]@);
                assert(s1.transfers[i] == before[i]@);
            }
            assert(self.transfers_view() =~= old(self).transfers_view());
        }
        r
    }

    /// Stores `m` where its key is new, then votes for the proposal of its key.
    /// A rejected vote leaves neither message nor proposal behind.
    fn submit_validator_message(&mut self, m: ValidatorMessage) -> (r: Result<(), BridgeError>)
        requires
            old(self).wf(),
        ensures
            final(self).wf(),
            r is Ok <==> submit_ok(with_validator_message(old(self)@, m@), m@.key, Kind::Validator),
            r is Err ==> r == Err::<(), BridgeError>(submit_err(with_validator_message(old(self)@, m@), m@.key, Kind::Validator))
                && final(self)@ == old(self)@,
            r is Ok ==> submit_post(with_validator_message(old(self)@, m@), final(self)@, m@.key, Kind::Validator),
    {
        let key = copy_bytes(&m.message_id);
        let ghost mv = m@;
        let ghost s1 = with_validator_message(old(self)@, m@);
        let created = self.insert_validator_message(m);
        let r = self.vote_on_key(&key, Kind::Validator);
        if r.is_err() && created {
            assert(self@ == s1);
            let ghost before = self.validator_store@;
            self.validator_store.pop();
            assert(self.validator_store@ == before.drop_last());
            assert(s1.validator_messages == old(self).validators_view().push(mv));
            assert forall|i: int| 0 <= i < old(self).validators_view().len()
                implies #[trigger] self.validators_view()[i] == old(self).validators_view()[i] by {
                assert(self.validators_view()[i] == before[i]@);
                assert(s1.validator_messages[i] == before[i]@);
            }
            assert(self.validators_view() =~= old(self).validators_view());
        }
        r
    }

    /// Stores `m` where its key is new, then votes for the proposal of its key.
    /// A rejected vote leaves neither message nor proposal behind.
    fn submit_bridge_message(&mut self, m: BridgeMessage) -> (r: Result<(), BridgeError>)
        requires
            old(self).wf(),
        ensures
            final(self).wf(),
            r is Ok <==> submit_ok(with_bridge_message(old(self)@, m@), m@.key, Kind::Bridge),
            r is Err ==> r == Err::<(), BridgeError>(submit_err(with_bridge_message(old(self)@, m@), m@.key, Kind::Bridge))
                && final(self)@ == old(self)@,
            r is Ok ==> submit_post(with_bridge_message(old(self)@, m@), final(self)@, m@.key, Kind::Bridge),
    {
        let key = copy_bytes(&m.message_id);
        let ghost mv = m@;
        let ghost s1 = with_bridge_message(old(self)@, m@);
        let created = self.insert_bridge_message(m);
        let r = self.vote_on_key(&key, Kind::Bridge);
        if r.is_err() && created {
            assert(self@ == s1);
            let ghost before = self.bridge_store@;
            self.bridge_store.pop();
            assert(self.bridge_store@ == before.drop_last());
            assert(s1.bridge_messages == old(self).bridge_view().push(mv));
            assert forall|i: int| 0 <= i < old(self).bridge_view().len()
                implies #[trigger] self.bridge_view()[i] == old(self).bridge_view()[i] by {
                assert(self.bridge_view()[i] == before[i]@);
                assert(s1.bridge_messages[i] == before[i]@);
            }
            assert(self.bridge_view() =~= old(self).bridge_view());
        }
        r
    }
}

impl Module {
    /// Starts a withdrawal of `amount` from `from` to the external address `to`:
    /// opens a proposal for it and stores the message, keyed by its content.
    /// Nothing is voted yet.
    pub fn set_transfer(&mut self, from: AccountId, to: H160, amount: TokenBalance) -> (r: Result<(), BridgeError>)
        requires
            old(self).wf(),
        ensures
            final(self).wf(),
            ({
                let s = old(self)@;
                let key = transfer_key(from, to@, amount);
                let m = new_transfer(key, to@, from, amount, Status::Withdraw);
                &&& !s.operational ==> r == Err::<(), BridgeError>(BridgeError::GateClosed)
                &&& s.operational && !s.has_proposal(key) && s.proposals.len() == u32::MAX
                    ==> r == Err::<(), BridgeError>(BridgeError::Overflow)
                &&& r is Ok <==> s.operational && (s.has_proposal(key) || s.proposals.len() < u32::MAX)
                &&& r is Ok ==> final(self)@ == BridgeState {
                    proposals: proposals_with(s, key, Kind::Transfer),
                    ..with_transfer(s, m)
                }
            }),
            r is Err ==> final(self)@ == old(self)@,
    {
        if !self.operational {
            return Err(BridgeError::GateClosed);
        }
        let key = transfer_message_key(from, &to, amount);
        let message = TransferMessage {
            message_id: copy_bytes(&key),
            eth_address: to,
            substrate_address: from,
            amount,
            status: Status::Withdraw,
            action: Status::Withdraw,
        };
        let ghost mv = message@;
        let created = self.insert_transfer(message);
        let ghost s1 = self@;
        match self.get_transfer_id_checked(&key, Kind::Transfer) {
            Ok(_) => Ok(()),
            Err(e) => {
                if created {
                    let ghost before = self.transfer_store@;
                    self.transfer_store.pop();
                    assert(self.transfer_store@ == before.drop_last());
                    assert(s1.transfers == old(self).transfers_view().push(mv));
                    assert forall|i: int| 0 <= i < old(self).transfers_view().len()
                        implies #[trigger] self.transfers_view()[i] == old(self).transfers_view()[i] by {
                        assert(self.transfers_view()[i] == before[i]@);
                        assert(s1.transfers[i] == before[i]@);
                    }
                    assert(self.transfers_view() =~= old(self).transfers_view());
                }
                Err(e)
            },
        }
    }

    /// A validator asserts that `amount` was deposited on the external chain for
    /// `to`, under the external message id `message_id`, and votes to mint it.
    pub fn multi_signed_mint(
        &mut self,
        validator: AccountId,
        message_id: &Vec<u8>,
        from: H160,
        to: AccountId,
        amount: TokenBalance,
    ) -> (r: Result<(), BridgeError>)
        requires
            old(self).wf(),
        ensures
            final(self).wf(),
            ({
                let s = old(self)@;
                let s1 = with_transfer(s, new_transfer(message_id@, from@, to, amount, Status::Deposit));
                &&& !s.operational ==> r == Err::<(), BridgeError>(BridgeError::GateClosed)
                &&& s.operational && !s.is_validator(validator)
                    ==> r == Err::<(), BridgeError>(BridgeError::NotAuthorized)
                &&& s.operational && s.is_validator(validator) ==> {
                    &&& r is Ok <==> submit_ok(s1, message_id@, Kind::Transfer)
                    &&& r is Err ==> r == Err::<(), BridgeError>(submit_err(s1, message_id@, Kind::Transfer))
                    &&& r is Ok ==> submit_post(s1, final(self)@, message_id@, Kind::Transfer)
                }
            }),
            r is Err ==> final(self)@ == old(self)@,
    {
        if !self.operational {
            return Err(BridgeError::GateClosed);
        }
        self.check_validator(validator)?;
        let message = TransferMessage {
            message_id: copy_bytes(message_id),
            eth_address: from,
            substrate_address: to,
            amount,
            status: Status::Deposit,
            action: Status::Deposit,
        };
        self.submit_transfer(message)
    }

    /// A validator votes to approve the message under `message_id`.
    pub fn approve_transfer(&mut self, validator: AccountId, message_id: &Vec<u8>) -> (r: Result<(), BridgeError>)
        requires
            old(self).wf(),
        ensures
            final(self).wf(),
            ({
                let s = old(self)@;
                &&& !s.operational ==> r == Err::<(), BridgeError>(BridgeError::GateClosed)
                &&& s.operational && !s.is_validator(validator)
                    ==> r == Err::<(), BridgeError>(BridgeError::NotAuthorized)
                &&& s.operational && s.is_validator(validator) && !s.has_proposal(message_id@)
                    ==> r == Err::<(), BridgeError>(BridgeError::UnknownMessage)
                &&& s.operational && s.is_validator(validator) && s.has_proposal(message_id@) ==> {
                    &&& r is Ok <==> sign_ok(s, s.proposal_index(message_id@))
                    &&& r is Err ==> r == Err::<(), BridgeError>(sign_err(s, s.proposal_index(message_id@)))
                    &&& r is Ok ==> sign_post(s, final(self)@, s.proposal_index(message_id@))
                }
            }),
            r is Err ==> final(self)@ == old(self)@,
    {
        if !self.operational {
            return Err(BridgeError::GateClosed);
        }
        self.check_validator(validator)?;
        let pid = match self.find_proposal(message_id) {
            Some(pid) => pid,
            None => return Err(BridgeError::UnknownMessage),
        };
        proof { self.lemma_proposal_index(message_id@, pid as int); }
        self._sign(pid)
    }

    /// A validator votes to add `address` to the validator set.
    pub fn add_validator(&mut self, validator: AccountId, address: AccountId) -> (r: Result<(), BridgeError>)
        requires
            old(self).wf(),
        ensures
            final(self).wf(),
            ({
                let s = old(self)@;
                let key = validator_key("add"@, address);
                let s1 = with_validator_message(s, new_account_message(key, address, Status::AddValidator));
                &&& !s.operational ==> r == Err::<(), BridgeError>(BridgeError::GateClosed)
                &&& s.operational && !s.is_validator(validator)
                    ==> r == Err::<(), BridgeError>(BridgeError::NotAuthorized)
                &&& s.operational && s.is_validator(validator) && s.count() >= MAX_VALIDATORS
                    ==> r == Err::<(), BridgeError>(BridgeError::CapacityExceeded)
                &&& s.operational && s.is_validator(validator) && s.count() < MAX_VALIDATORS ==> {
                    &&& r is Ok <==> submit_ok(s1, key, Kind::Validator)
                    &&& r is Err ==> r == Err::<(), BridgeError>(submit_err(s1, key, Kind::Validator))
                    &&& r is Ok ==> submit_post(s1, final(self)@, key, Kind::Validator)
                }
            }),
            r is Err ==> final(self)@ == old(self)@,
    {
        if !self.operational {
            return Err(BridgeError::GateClosed);
        }
        self.check_validator(validator)?;
        if self.validator_set.len() >= MAX_VALIDATORS as usize {
            return Err(BridgeError::CapacityExceeded);
        }
        let message = ValidatorMessage {
            message_id: add_validator_key(address),
            account: address,
            action: Status::AddValidator,
            status: Status::AddValidator,
        };
        self.submit_validator_message(message)
    }

    /// A validator votes to remove `address` from the validator set.
    pub fn remove_validator(&mut self, validator: AccountId, address: AccountId) -> (r: Result<(), BridgeError>)
        requires
            old(self).wf(),
        ensures
            final(self).wf(),
            ({
                let s = old(self)@;
                let key = validator_key("remove"@, address);
                let s1 = with_validator_message(s, new_account_message(key, address, Status::RemoveValidator));
                &&& !s.operational ==> r == Err::<(), BridgeError>(BridgeError::GateClosed)
                &&& s.operational && !s.is_validator(validator)
                    ==> r == Err::<(), BridgeError>(BridgeError::NotAuthorized)
                &&& s.operational && s.is_validator(validator) && s.count() <= 1
                    ==> r == Err::<(), BridgeError>(BridgeError::LastValidator)
                &&& s.operational && s.is_validator(validator) && s.count() > 1 ==> {
                    &&& r is Ok <==> submit_ok(s1, key, Kind::Validator)
                    &&& r is Err ==> r == Err::<(), BridgeError>(submit_err(s1, key, Kind::Validator))
                    &&& r is Ok ==> submit_post(s1, final(self)@, key, Kind::Validator)
                }
            }),
            r is Err ==> final(self)@ == old(self)@,
    {
        if !self.operational {
            return Err(BridgeError::GateClosed);
        }
        self.check_validator(validator)?;
        if self.validator_set.len() <= 1 {
            return Err(BridgeError::LastValidator);
        }
        let message = ValidatorMessage {
            message_id: remove_validator_key(address),
            account: address,
            action: Status::RemoveValidator,
            status: Status::RemoveValidator,
        };
        self.submit_validator_message(message)
    }

    /// A validator votes to pause the bridge. Refused while it is paused.
    pub fn pause_bridge(&mut self, validator: AccountId) -> (r: Result<(), BridgeError>)
        requires
            old(self).wf(),
        ensures
            final(self).wf(),
            ({
                let s = old(self)@;
                let key = bridge_key("pause"@);
                let s1 = with_bridge_message(s, new_account_message(key, validator, Status::PauseTheBridge));
                &&& !s.is_validator(validator) ==> r == Err::<(), BridgeError>(BridgeError::NotAuthorized)
                &&& s.is_validator(validator) && !s.operational
                    ==> r == Err::<(), BridgeError>(BridgeError::AlreadyPaused)
                &&& s.is_validator(validator) && s.operational ==> {
                    &&& r is Ok <==> submit_ok(s1, key, Kind::Bridge)
                    &&& r is Err ==> r == Err::<(), BridgeError>(submit_err(s1, key, Kind::Bridge))
                    &&& r is Ok ==> submit_post(s1, final(self)@, key, Kind::Bridge)
                }
            }),
            r is Err ==> final(self)@ == old(self)@,
    {
        self.check_validator(validator)?;
        if !self.operational {
            return Err(BridgeError::AlreadyPaused);
        }
        let message = BridgeMessage {
            message_id: pause_key(),
            account: validator,
            action: Status::PauseTheBridge,
            status: Status::PauseTheBridge,
        };
        self.submit_bridge_message(message)
    }

    /// A validator votes to resume the bridge. Accepted whether or not it is paused.
    pub fn resume_bridge(&mut self, validator: AccountId) -> (r: Result<(), BridgeError>)
        requires
            old(self).wf(),
        ensures
            final(self).wf(),
            ({
                let s = old(self)@;
                let key = bridge_key("resume"@);
                let s1 = with_bridge_message(s, new_account_message(key, validator, Status::ResumeTheBridge));
                &&& !s.is_validator(validator) ==> r == Err::<(), BridgeError>(BridgeError::NotAuthorized)
                &&& s.is_validator(validator) ==> {
                    &&& r is Ok <==> submit_ok(s1, key, Kind::Bridge)
                    &&& r is Err ==> r == Err::<(), BridgeError>(submit_err(s1, key, Kind::Bridge))
                    &&& r is Ok ==> submit_post(s1, final(self)@, key, Kind::Bridge)
                }
            }),
            r is Err ==> final(self)@ == old(self)@,
    {
        self.check_validator(validator)?;
        let message = BridgeMessage {
            message_id: resume_key(),
            account: validator,
            action: Status::ResumeTheBridge,
            status: Status::ResumeTheBridge,
        };
        self.submit_bridge_message(message)
    }

    /// `proposal_index` picks the one proposal that holds `key`.
    proof fn lemma_proposal_index(&self, key: Seq<u8>, pid: int)
        requires
            self.wf(),
            0 <= pid < self@.proposals.len(),
            self@.proposals[pid].key == key,
        ensures
            self@.has_proposal(key),
            self@.proposal_index(key) == pid,
    {
        let s = self@;
        assert(s.proposals[pid].key == key);
        let c = s.proposal_index(key);
        assert(c == pid) by {
            if c < pid {
                assert(s.proposals[c].key != s.proposals[pid].key);
            } else if c > pid {
                assert(s.proposals[pid].key != s.proposals[c].key);
            }
        }
    }
}

impl Module {
    /// A validator asserts that an approved withdrawal was released on the
    /// external chain. The message becomes `Confirmed`; a closed withdrawal
    /// proposal is reopened with no votes, so that the burn takes a quorum of
    /// its own; then the validator's vote is cast. A burned withdrawal (confirmed,
    /// proposal closed) is refused with `NotOpen`.
    pub fn confirm_transfer(&mut self, validator: AccountId, message_id: &Vec<u8>) -> (r: Result<(), BridgeError>)
        requires
            old(self).wf(),
        ensures
            final(self).wf(),
            ({
                let s = old(self)@;
                let key = message_id@;
                let approved = s.has_message(Kind::Transfer, key) && (transfer_of(s, key).status
                    == Status::Approved || transfer_of(s, key).status == Status::Confirmed);
                let pi = s.proposal_index(key);
                &&& !s.operational ==> r == Err::<(), BridgeError>(BridgeError::GateClosed)
                &&& s.operational && !s.is_validator(validator)
                    ==> r == Err::<(), BridgeError>(BridgeError::NotAuthorized)
                &&& s.operational && s.is_validator(validator) && !approved
                    ==> r == Err::<(), BridgeError>(BridgeError::NotApproved)
                &&& s.operational && s.is_validator(validator) && approved && !s.has_proposal(key)
                    ==> r == Err::<(), BridgeError>(BridgeError::UnknownMessage)
                &&& s.operational && s.is_validator(validator) && approved && s.has_proposal(key)
                    && burned(s, key) ==> r == Err::<(), BridgeError>(BridgeError::NotOpen)
                &&& s.operational && s.is_validator(validator) && approved && s.has_proposal(key)
                    && !burned(s, key) ==> {
                    &&& r is Ok <==> sign_ok(confirm_state(s, key), pi)
                    &&& r is Err ==> r == Err::<(), BridgeError>(sign_err(confirm_state(s, key), pi))
                    &&& r is Ok ==> sign_post(confirm_state(s, key), final(self)@, pi)
                }
            }),
            r is Err ==> final(self)@ == old(self)@,
    {
        if !self.operational {
            return Err(BridgeError::GateClosed);
        }
        self.check_validator(validator)?;
        let mi = match self.find_transfer(message_id) {
            Some(mi) => mi,
            None => return Err(BridgeError::NotApproved),
        };
        proof { self.lemma_message_index(Kind::Transfer, message_id@, mi as int); }
        let status = self.transfer_store[mi].status;
        if status != Status::Approved && status != Status::Confirmed {
            return Err(BridgeError::NotApproved);
        }
        let pid = match self.find_proposal(message_id) {
            Some(pid) => pid,
            None => return Err(BridgeError::UnknownMessage),
        };
        proof { self.lemma_proposal_index(message_id@, pid as int); }
        if status == Status::Confirmed && !self.proposals[pid].open {
            return Err(BridgeError::NotOpen);
        }
        let votes = self.proposals[pid].votes;
        self.update_status(Kind::Transfer, mi, Status::Confirmed);
        let reopen = self.reopen_for_burn_confirmation(pid, mi);
        proof {
            let s2 = confirm_state(old(self)@, message_id@);
            assert(self.transfers_view() =~= s2.transfers);
            assert(self.props() =~= s2.proposals);
            assert(self@ == s2);
        }
        let ghost s2 = self@;
        let r = self._sign(pid);
        if r.is_err() {
            self.update_status(Kind::Transfer, mi, status);
            let ghost p_before = self.props();
            assert(p_before == s2.proposals);
            if reopen {
                self.proposals[pid].votes = votes;
                self.proposals[pid].open = false;
            }
            assert(self.transfers_view() =~= old(self).transfers_view());
            assert forall|i: int| 0 <= i < old(self).props().len()
                implies #[trigger] self.props()[i] == old(self).props()[i] by {
                if i != pid as int || !reopen {
                    assert(self.props()[i] == p_before[i]);
                }
            }
            assert(self.props() =~= old(self).props());
        }
        r
    }

    /// A validator cancels a withdrawal on its own, without a vote: funds
    /// locked for it are released, the message becomes `Canceled` and its
    /// proposal is closed for good.
    pub fn cancel_transfer(&mut self, validator: AccountId, message_id: &Vec<u8>) -> (r: Result<(), BridgeError>)
        requires
            old(self).wf(),
        ensures
            final(self).wf(),
            ({
                let s = old(self)@;
                let key = message_id@;
                let m = transfer_of(s, key);
                &&& !s.operational ==> r == Err::<(), BridgeError>(BridgeError::GateClosed)
                &&& s.operational && !s.is_validator(validator)
                    ==> r == Err::<(), BridgeError>(BridgeError::NotAuthorized)
                &&& s.operational && s.is_validator(validator) && !s.has_message(Kind::Transfer, key)
                    ==> r == Err::<(), BridgeError>(BridgeError::UnknownMessage)
                &&& s.operational && s.is_validator(validator) && s.has_message(Kind::Transfer, key)
                    && !cancellable(s, key)
                    ==> r == Err::<(), BridgeError>(BridgeError::UnsupportedStatusForAction)
                &&& s.operational && s.is_validator(validator) && s.has_message(Kind::Transfer, key)
                    && cancellable(s, key) && funds_locked(s, key) && s.locked_of(m.account) < m.amount
                    ==> r == Err::<(), BridgeError>(BridgeError::InsufficientLocked)
                &&& r is Ok <==> s.operational && s.is_validator(validator)
                    && s.has_message(Kind::Transfer, key) && cancellable(s, key)
                    && (funds_locked(s, key) ==> s.locked_of(m.account) >= m.amount)
                &&& r is Ok ==> cancel_post(s, final(self)@, key)
            }),
            r is Err ==> final(self)@ == old(self)@,
    {
        if !self.operational {
            return Err(BridgeError::GateClosed);
        }
        self.check_validator(validator)?;
        let mi = match self.find_transfer(message_id) {
            Some(mi) => mi,
            None => return Err(BridgeError::UnknownMessage),
        };
        proof { self.lemma_message_index(Kind::Transfer, message_id@, mi as int); }
        let found = self.find_proposal(message_id);
        let open = match found {
            Some(pid) => self.proposals[pid].open,
            None => false,
        };
        proof {
            if let Some(pid) = found {
                self.lemma_proposal_index(message_id@, pid as int);
            }
        }
        let action = self.transfer_store[mi].action;
        let status = self.transfer_store[mi].status;
        let account = self.transfer_store[mi].substrate_address;
        let amount = self.transfer_store[mi].amount;
        if action != Status::Withdraw || status == Status::Canceled || (status == Status::Confirmed && !open) {
            return Err(BridgeError::UnsupportedStatusForAction);
        }
        if status == Status::Approved || (status == Status::Confirmed && open) {
            self.token.unlock(account, amount)?;
        }
        self.transfer_store[mi].status = Status::Canceled;
        if let Some(pid) = found {
            self.proposals[pid].open = false;
        }
        assert(self.transfers_view() =~= old(self).transfers_view().update(
            mi as int,
            transfer_with_status(old(self).transfers_view()[mi as int], Status::Canceled),
        ));
        proof {
            if let Some(pid) = found {
                assert(self.props() =~= old(self).props().update(
                    pid as int,
                    ProposalView { open: false, ..old(self).props()[pid as int] },
                ));
            } else {
                assert(self.props() =~= old(self).props());
            }
            assert(self@.keys(Kind::Transfer) =~= old(self)@.keys(Kind::Transfer));
            lemma_open_messages_kept(old(self)@, self@);
        }
        Ok(())
    }

    /// `message_index` picks the one message of `kind` that holds `key`.
    proof fn lemma_message_index(&self, kind: Kind, key: Seq<u8>, mi: int)
        requires
            self.wf(),
            0 <= mi < self@.keys(kind).len(),
            self@.keys(kind)[mi] == key,
        ensures
            self@.has_message(kind, key),
            self@.message_index(kind, key) == mi,
    {
        let keys = self@.keys(kind);
        let c = self@.message_index(kind, key);
        assert(keys[mi] == key);
        assert(c == mi) by {
            if c < mi {
                assert(keys[c] != keys[mi]);
            } else if c > mi {
                assert(keys[mi] != keys[c]);
            }
        }
    }
}

/// What a lookup under an unknown key gives: the empty proposal.
pub open spec fn default_proposal() -> ProposalView {
    ProposalView { id: 0, key: Seq::empty(), open: false, votes: 0, kind: Kind::Transfer }
}

/// What a lookup under an unknown key gives: an empty, revoked message.
pub open spec fn default_transfer() -> TransferView {
    TransferView {
        key: Seq::empty(),
        eth_address: Seq::new(20, |i: int| 0u8),
        account: 0,
        amount: 0,
        status: Status::Revoked,
        action: Status::Revoked,
    }
}

/// What a lookup under an unknown key gives: an empty, revoked message.
pub open spec fn default_account_message() -> AccountMessageView {
    AccountMessageView { key: Seq::empty(), account: 0, action: Status::Revoked, status: Status::Revoked }
}

impl Module {
    /// Whether the bridge accepts transfer and validator operations.
    pub fn bridge_is_operational(&self) -> (r: bool)
        ensures
            r == self@.operational,
    {
        self.operational
    }

    /// Number of proposals ever opened; also the next proposal id.
    pub fn bridge_transfers_count(&self) -> (r: ProposalId)
        requires
            self.wf(),
        ensures
            r == self@.proposals.len(),
    {
        self.proposals.len() as ProposalId
    }

    /// Number of trusted validators.
    pub fn validators_count(&self) -> (r: u32)
        requires
            self.wf(),
        ensures
            r == self@.count(),
    {
        self.validator_set.len() as u32
    }

    /// Whether `a` is a trusted validator.
    pub fn validators(&self, a: AccountId) -> (r: bool)
        ensures
            r == self@.is_validator(a),
    {
        self.check_validator(a).is_ok()
    }

    /// The proposal with id `id`, or the empty proposal.
    pub fn transfers(&self, id: ProposalId) -> (r: BridgeTransfer)
        ensures
            (id as int) < self@.proposals.len() ==> r@ == self@.proposals[id as int],
            (id as int) >= self@.proposals.len() ==> r@ == default_proposal(),
    {
        if (id as usize) < self.proposals.len() {
            let p = &self.proposals[id as usize];
            BridgeTransfer {
                transfer_id: p.transfer_id,
                message_id: copy_bytes(&p.message_id),
                open: p.open,
                votes: p.votes,
                kind: p.kind,
            }
        } else {
            let r = BridgeTransfer { transfer_id: 0, message_id: Vec::new(), open: false, votes: 0, kind: Kind::Transfer };
            assert(r@.key =~= Seq::<u8>::empty());
            r
        }
    }

    /// Key of the message of proposal `id`, or the empty key.
    pub fn message_id_by_transfer_id(&self, id: ProposalId) -> (r: Vec<u8>)
        ensures
            (id as int) < self@.proposals.len() ==> r@ == self@.proposals[id as int].key,
            (id as int) >= self@.proposals.len() ==> r@.len() == 0,
    {
        if (id as usize) < self.proposals.len() {
            copy_bytes(&self.proposals[id as usize].message_id)
        } else {
            Vec::new()
        }
    }

    /// Id of the proposal for `key`, or zero where there is none.
    pub fn transfer_id_by_hash(&self, key: &Vec<u8>) -> (r: ProposalId)
        requires
            self.wf(),
        ensures
            self@.has_proposal(key@) ==> r == self@.proposal_index(key@),
            !self@.has_proposal(key@) ==> r == 0,
    {
        match self.find_proposal(key) {
            Some(i) => {
                proof { self.lemma_proposal_index(key@, i as int); }
                i as ProposalId
            },
            None => 0,
        }
    }

    /// The transfer message under `key`, or an empty, revoked one.
    pub fn messages(&self, key: &Vec<u8>) -> (r: TransferMessage)
        requires
            self.wf(),
        ensures
            self@.has_message(Kind::Transfer, key@) ==> r@ == transfer_of(self@, key@),
            !self@.has_message(Kind::Transfer, key@) ==> r@ == default_transfer(),
    {
        match self.find_transfer(key) {
            Some(i) => {
                proof { self.lemma_message_index(Kind::Transfer, key@, i as int); }
                let m = &self.transfer_store[i];
                TransferMessage {
                    message_id: copy_bytes(&m.message_id),
                    eth_address: m.eth_address,
                    substrate_address: m.substrate_address,
                    amount: m.amount,
                    status: m.status,
                    action: m.action,
                }
            },
            None => {
                let r = TransferMessage {
                    message_id: Vec::new(),
                    eth_address: [0u8; 20],
                    substrate_address: 0,
                    amount: 0,
                    status: Status::Revoked,
                    action: Status::Revoked,
                };
                assert(r@.key =~= Seq::<u8>::empty());
                assert(r@.eth_address =~= default_transfer().eth_address);
                r
            },
        }
    }

    /// The validator message under `key`, or an empty, revoked one (as after
    /// a removal, which purges its message).
    pub fn validator_history(&self, key: &Vec<u8>) -> (r: ValidatorMessage)
        requires
            self.wf(),
        ensures
            self@.has_message(Kind::Validator, key@)
                ==> r@ == self@.validator_messages[self@.message_index(Kind::Validator, key@)],
            !self@.has_message(Kind::Validator, key@) ==> r@ == default_account_message(),
    {
        match self.find_validator_message(key) {
            Some(i) => {
                proof { self.lemma_message_index(Kind::Validator, key@, i as int); }
                let m = &self.validator_store[i];
                ValidatorMessage {
                    message_id: copy_bytes(&m.message_id),
                    account: m.account,
                    action: m.action,
                    status: m.status,
                }
            },
            None => {
                let r = ValidatorMessage {
                    message_id: Vec::new(),
                    account: 0,
                    action: Status::Revoked,
                    status: Status::Revoked,
                };
                assert(r@.key =~= Seq::<u8>::empty());
                r
            },
        }
    }

    /// The bridge message under `key`, or an empty, revoked one.
    pub fn bridge_messages(&self, key: &Vec<u8>) -> (r: BridgeMessage)
        requires
            self.wf(),
        ensures
            self@.has_message(Kind::Bridge, key@)
                ==> r@ == self@.bridge_messages[self@.message_index(Kind::Bridge, key@)],
            !self@.has_message(Kind::Bridge, key@) ==> r@ == default_account_message(),
    {
        match self.find_bridge_message(key) {
            Some(i) => {
                proof { self.lemma_message_index(Kind::Bridge, key@, i as int); }
                let m = &self.bridge_store[i];
                BridgeMessage {
                    message_id: copy_bytes(&m.message_id),
                    account: m.account,
                    action: m.action,
                    status: m.status,
                }
            },
            None => {
                let r = BridgeMessage {
                    message_id: Vec::new(),
                    account: 0,
                    action: Status::Revoked,
                    status: Status::Revoked,
                };
                assert(r@.key =~= Seq::<u8>::empty());
                r
            },
        }
    }
}

impl Module {
    /// Sets the status of message `mi` in the store of `kind`.
    fn update_status(&mut self, kind: Kind, mi: usize, status: Status)
        requires
            old(self).wf(),
            mi < old(self)@.keys(kind).len(),
        ensures
            final(self).wf(),
            final(self)@ == with_status(old(self)@, kind, mi as int, status),
    {
        match kind {
            Kind::Transfer => {
                self.transfer_store[mi].status = status;
                assert(self.transfers_view() =~= with_status(old(self)@, kind, mi as int, status).transfers);
            },
            Kind::Validator => {
                self.validator_store[mi].status = status;
                assert(self.validators_view()
                    =~= with_status(old(self)@, kind, mi as int, status).validator_messages);
            },
            Kind::Bridge => {
                self.bridge_store[mi].status = status;
                assert(self.bridge_view() =~= with_status(old(self)@, kind, mi as int, status).bridge_messages);
            },
        }
        proof {
            assert(self@.keys(Kind::Transfer) =~= old(self)@.keys(Kind::Transfer));
            assert(self@.keys(Kind::Validator) =~= old(self)@.keys(Kind::Validator));
            assert(self@.keys(Kind::Bridge) =~= old(self)@.keys(Kind::Bridge));
            lemma_open_messages_kept(old(self)@, self@);
        }
    }

    /// Reopens the closed proposal `pid` of the withdrawal `mi` with no votes,
    /// so that its burn gathers a quorum of its own. Says whether it did.
    fn reopen_for_burn_confirmation(&mut self, pid: usize, mi: usize) -> (reopened: bool)
        requires
            old(self).wf(),
            pid < old(self)@.proposals.len(),
            mi < old(self)@.transfers.len(),
            old(self)@.transfers[mi as int].key == old(self)@.proposals[pid as int].key,
        ensures
            final(self).wf(),
            reopened == reopens(old(self)@.proposals[pid as int], old(self)@.transfers[mi as int]),
            final(self)@ == (BridgeState {
                proposals: if reopened {
                    old(self)@.proposals.update(
                        pid as int,
                        ProposalView { open: true, votes: 0, ..old(self)@.proposals[pid as int] },
                    )
                } else {
                    old(self)@.proposals
                },
                ..old(self)@
            }),
    {
        if self.proposals[pid].open || self.proposals[pid].kind != Kind::Transfer
            || self.transfer_store[mi].status != Status::Confirmed
            || self.transfer_store[mi].action != Status::Withdraw {
            return false;
        }
        self.proposals[pid].votes = 0;
        self.proposals[pid].open = true;
        assert(self.props() =~= old(self)@.proposals.update(
            pid as int,
            ProposalView { open: true, votes: 0, ..old(self)@.proposals[pid as int] },
        ));
        proof {
            assert(self@.keys(Kind::Transfer)[mi as int] == self@.proposals[pid as int].key);
            assert forall|i: int| 0 <= i < self@.proposals.len() && (#[trigger] self@.proposals[i]).open
                implies self@.has_message(self@.proposals[i].kind, self@.proposals[i].key) by {
                if i != pid as int {
                    assert(old(self)@.proposals[i] == self@.proposals[i]);
                }
            }
        }
        true
    }
}

} // verus!
