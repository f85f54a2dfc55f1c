//! Properties of the engine that hold across calls, stated over its state.
use vstd::prelude::*;
use crate::state::{
    burned, cancel_post, cancellable, confirm_state, proposal_open, proposals_with, quorum, sign_err,
    sign_ok, sign_post, status_on_quorum, submit_post, transfer_exec_err, transfer_exec_ok, transfer_exec_post,
    transfer_of, validator_exec_err, validator_exec_ok, vote_ok, BridgeState, ProposalView,
};
use crate::types::{BridgeError, Kind, Status, MAX_VALIDATORS};

verus! {

/// Keys of proposals are unique.
pub open spec fn unique_proposal_keys(s: BridgeState) -> bool {
    forall|i: int, j: int| 0 <= i < j < s.proposals.len()
        ==> #[trigger] s.proposals[i].key != #[trigger] s.proposals[j].key
}

/// Keys of transfer messages are unique.
pub open spec fn unique_transfer_keys(s: BridgeState) -> bool {
    forall|i: int, j: int| 0 <= i < j < s.transfers.len()
        ==> #[trigger] s.transfers[i].key != #[trigger] s.transfers[j].key
}

/// A closed proposal takes no vote, and an accepted vote adds exactly one to
/// the count of the open proposal it is cast on and leaves every other
/// proposal as it was: counts never go down while a proposal is open and do
/// not move while it is closed.
pub proof fn lemma_votes_monotone(s: BridgeState, t: BridgeState, pid: int)
    requires
        0 <= pid < s.proposals.len(),
    ensures
        !s.proposals[pid].open ==> !sign_ok(s, pid) && sign_err(s, pid) == BridgeError::NotOpen,
        sign_ok(s, pid) && sign_post(s, t, pid) ==> {
            &&& s.proposals[pid].open
            &&& t.proposals[pid].votes == s.proposals[pid].votes + 1
            &&& t.proposals[pid].key == s.proposals[pid].key
            &&& t.proposals.len() == s.proposals.len()
            &&& forall|i: int| 0 <= i < s.proposals.len() && i != pid
                ==> #[trigger] t.proposals[i] == s.proposals[i]
        },
{
}

/// The one way a closed proposal opens again, and at most once per message:
/// confirming a withdrawal that `confirm_transfer` accepts (approved, or
/// confirmed with its proposal open) reopens its proposal only where the
/// proposal is closed and the message was `Approved`; it resets the count to
/// zero, leaves every other proposal as it was, and leaves the message
/// `Confirmed`, so that no later confirmation reopens it again.
pub proof fn lemma_reopen_at_most_once(s: BridgeState, key: Seq<u8>)
    requires
        s.has_proposal(key),
        s.has_message(Kind::Transfer, key),
        transfer_of(s, key).status == Status::Approved || transfer_of(s, key).status == Status::Confirmed,
        !burned(s, key),
    ensures
        ({
            let pi = s.proposal_index(key);
            let p = s.proposals[pi];
            let c = confirm_state(s, key);
            &&& c.proposals.len() == s.proposals.len()
            &&& forall|i: int| 0 <= i < s.proposals.len() && i != pi
                ==> #[trigger] c.proposals[i] == s.proposals[i]
            &&& c.proposals[pi] != p ==> {
                &&& !p.open
                &&& transfer_of(s, key).status == Status::Approved
                &&& transfer_of(s, key).action == Status::Withdraw
                &&& c.proposals[pi] == ProposalView { open: true, votes: 0, ..p }
            }
            &&& transfer_of(c, key).status == Status::Confirmed
            &&& transfer_of(s, key).status == Status::Confirmed ==> c.proposals == s.proposals
        }),
{
    let mi = s.message_index(Kind::Transfer, key);
    let c = confirm_state(s, key);
    assert(c.keys(Kind::Transfer) =~= s.keys(Kind::Transfer));
    assert(c.message_index(Kind::Transfer, key) == mi);
}

/// A vote never takes a confirmed withdrawal back to `Approved`: whether or not
/// it reaches quorum, the message stays `Confirmed`.
pub proof fn lemma_confirmed_stays(s: BridgeState, t: BridgeState, pid: int)
    requires
        0 <= pid < s.proposals.len(),
        s.proposals[pid].kind == Kind::Transfer,
        sign_ok(s, pid),
        sign_post(s, t, pid),
        s.transfers[s.message_index(Kind::Transfer, s.proposals[pid].key)].status == Status::Confirmed,
    ensures
        t.transfers[s.message_index(Kind::Transfer, s.proposals[pid].key)].status == Status::Confirmed,
{
}

/// A proposal closes on the vote that makes `votes / count >= 0.51` against the
/// validator count at that vote, and stays open otherwise.
pub proof fn lemma_quorum_decides(s: BridgeState, t: BridgeState, pid: int)
    requires
        0 <= pid < s.proposals.len(),
        sign_ok(s, pid),
        sign_post(s, t, pid),
    ensures
        !t.proposals[pid].open <==> quorum((s.proposals[pid].votes + 1) as nat, s.count()),
        quorum((s.proposals[pid].votes + 1) as nat, s.count())
            <==> (s.proposals[pid].votes + 1) * 100 >= s.count() * 51,
{
}

/// Submitting for a key that has a proposal creates none, and after any
/// accepted submission the key has one; so submitting twice for one key
/// creates at most one proposal, and the second goes straight to voting.
pub proof fn lemma_submit_idempotent(s: BridgeState, t: BridgeState, key: Seq<u8>, kind: Kind)
    requires
        submit_post(s, t, key, kind),
    ensures
        s.has_proposal(key) ==> proposals_with(s, key, kind) == s.proposals
            && t.proposals.len() == s.proposals.len(),
        !s.has_proposal(key) ==> t.proposals.len() == s.proposals.len() + 1,
        t.has_proposal(key),
{
    let p = if s.has_proposal(key) { s.proposal_index(key) } else { s.proposals.len() as int };
    assert(t.proposals[p].key == key);
}

/// Removing a validator is refused while only one is left, and adding one is
/// refused while the set is full, so the count stays within its bounds.
pub proof fn lemma_validator_bounds(s: BridgeState, mi: int, status: Status)
    requires
        0 <= mi < s.validator_messages.len(),
    ensures
        s.validator_messages[mi].action == Status::RemoveValidator && s.count() <= 1 ==> {
            &&& !validator_exec_ok(s, mi, status)
            &&& status == Status::Approved ==> validator_exec_err(s, mi, status) == BridgeError::LastValidator
        },
        s.validator_messages[mi].action == Status::AddValidator && s.count() >= MAX_VALIDATORS ==> {
            &&& !validator_exec_ok(s, mi, status)
            &&& status == Status::Approved ==> validator_exec_err(s, mi, status) == BridgeError::CapacityExceeded
        },
{
}

/// A withdrawal's funds are locked, with the balance left whole, only when it is
/// approved; and they are unlocked and burned only when it is confirmed.
pub proof fn lemma_withdrawal_phases(s: BridgeState, t: BridgeState, mi: int, status: Status)
    requires
        0 <= mi < s.transfers.len(),
        s.transfers[mi].action == Status::Withdraw,
        s.locked_of(s.transfers[mi].account) <= s.balance(s.transfers[mi].account),
        transfer_exec_ok(s, mi, status),
        transfer_exec_post(s, t, mi, status),
    ensures
        ({
            let m = s.transfers[mi];
            let a = m.account;
            &&& status == Status::Approved || status == Status::Confirmed
            &&& status == Status::Approved ==> {
                &&& t.locked_of(a) == s.locked_of(a) + m.amount
                &&& t.balance(a) == s.balance(a)
                &&& t.supply == s.supply
                &&& t.transfers[mi].status == Status::Approved
            }
            &&& status == Status::Confirmed ==> {
                &&& t.locked_of(a) == s.locked_of(a) - m.amount
                &&& t.balance(a) == s.balance(a) - m.amount
                &&& t.supply == s.supply - m.amount
            }
        }),
{
    let a = s.transfers[mi].account;
    assert(t.locks.contains_key(a));
    if status == Status::Confirmed {
        assert(t.balances.contains_key(a));
    }
}

/// Funds move only for an approved deposit, or for a withdrawal that is approved
/// or confirmed: on any other action and status the transfer finalizer refuses
/// with `UnsupportedStatusForAction`.
pub proof fn lemma_no_funds_move_otherwise(s: BridgeState, mi: int, status: Status)
    requires
        0 <= mi < s.transfers.len(),
        !(s.transfers[mi].action == Status::Deposit && status == Status::Approved),
        !(s.transfers[mi].action == Status::Withdraw
            && (status == Status::Approved || status == Status::Confirmed)),
    ensures
        !transfer_exec_ok(s, mi, status),
        transfer_exec_err(s, mi, status) == BridgeError::UnsupportedStatusForAction,
{
}

/// A burn is only reached from a confirmed message: a vote finalizes a
/// withdrawal as confirmed only where `confirm_transfer` set it so before.
pub proof fn lemma_burn_needs_confirmation(s: BridgeState, mi: int)
    requires
        0 <= mi < s.transfers.len(),
        s.transfers[mi].status != Status::Confirmed,
    ensures
        status_on_quorum(s.transfers[mi].status) == Status::Approved,
{
}

/// A cancel is final: the message is canceled, its proposal is closed and takes
/// no vote, and it cannot be canceled again.
pub proof fn lemma_cancel_terminal(s: BridgeState, t: BridgeState, key: Seq<u8>)
    requires
        s.has_message(Kind::Transfer, key),
        s.has_proposal(key),
        unique_transfer_keys(s),
        unique_proposal_keys(s),
        cancel_post(s, t, key),
    ensures
        transfer_of(t, key).status == Status::Canceled,
        !proposal_open(t, key),
        !cancellable(t, key),
        !vote_ok(t, t.proposals[t.proposal_index(key)]),
{
    let mi = s.message_index(Kind::Transfer, key);
    let pi = s.proposal_index(key);
    assert(t.keys(Kind::Transfer) =~= s.keys(Kind::Transfer));
    assert(s.keys(Kind::Transfer)[mi] == key);
    assert(t.has_message(Kind::Transfer, key));
    assert(t.message_index(Kind::Transfer, key) == mi);
    assert(t.proposals[pi].key == key);
    let tp = t.proposal_index(key);
    assert(0 <= tp < t.proposals.len() && t.proposals[tp].key == key);
    assert(tp == pi) by {
        if tp < pi {
            assert(s.proposals[tp].key != s.proposals[pi].key);
        } else if tp > pi {
            assert(s.proposals[pi].key != s.proposals[tp].key);
        }
    }
}

} // verus!
