//! Properties of the faucet that relate several operations or every state.

use vstd::prelude::*;

use crate::faucet::{claim_transfer, TransferRequestView, CLAIM_AMOUNT, TRANSFER_GAS};
use crate::instance::{initialize_succeeds, initialized_state};

verus! {

/// The state of an instance that held `stored` after the initialization
/// attempts `attempts`, made in order.
pub open spec fn state_after_attempts(stored: Option<Seq<char>>, attempts: Seq<Seq<char>>) -> Option<Seq<char>>
    decreases attempts.len(),
{
    if attempts.len() == 0 {
        stored
    } else {
        state_after_attempts(initialized_state(stored, attempts[0]), attempts.drop_first())
    }
}

/// The transfer requests that claims by `callers`, in order, schedule on a
/// faucet drawing from `token_account_id`: one request per claim.
pub open spec fn transfers_for_claims(token_account_id: Seq<char>, callers: Seq<Seq<char>>) -> Seq<TransferRequestView> {
    callers.map_values(|c: Seq<char>| claim_transfer(token_account_id, c))
}

/// Initializing an instance twice fails the second time, and the token
/// contract account stored by the first initialization stays as it was.
pub proof fn lemma_second_initialize_fails(first: Seq<char>, second: Seq<char>)
    ensures
        initialize_succeeds(None),
        initialized_state(None, first) == Some(first),
        !initialize_succeeds(initialized_state(None, first)),
        initialized_state(initialized_state(None, first), second) == Some(first),
{
}

/// Once initialized with `token_account_id`, an instance keeps that account
/// whatever initialization attempts follow; claims and queries change no
/// state, so it is the account reported for the life of the instance.
pub proof fn lemma_token_account_id_kept(token_account_id: Seq<char>, later: Seq<Seq<char>>)
    ensures
        state_after_attempts(initialized_state(None, token_account_id), later) == Some(token_account_id),
{
    lemma_attempts_keep_state(token_account_id, later);
}

proof fn lemma_attempts_keep_state(token_account_id: Seq<char>, later: Seq<Seq<char>>)
    ensures
        state_after_attempts(Some(token_account_id), later) == Some(token_account_id),
    decreases later.len(),
{
    if later.len() > 0 {
        lemma_attempts_keep_state(token_account_id, later.drop_first());
    }
}

/// Each claim schedules exactly one transfer request: the fixed amount, on
/// the stored token contract, to that claim's caller. A caller's earlier
/// claims make no difference: equal callers get equal requests.
pub proof fn lemma_each_claim_one_fixed_transfer(token_account_id: Seq<char>, callers: Seq<Seq<char>>)
    ensures
        transfers_for_claims(token_account_id, callers).len() == callers.len(),
        forall|i: int|
            0 <= i < callers.len() ==> {
                let t = #[trigger] transfers_for_claims(token_account_id, callers)[i];
                &&& t.receiver_id == token_account_id
                &&& t.new_owner_id == callers[i]
                &&& t.amount == CLAIM_AMOUNT
                &&& t.attached_deposit == 0
                &&& t.gas == TRANSFER_GAS
            },
        forall|i: int, j: int|
            0 <= i < callers.len() && 0 <= j < callers.len() && callers[i] == callers[j] ==>
                #[trigger] transfers_for_claims(token_account_id, callers)[i]
                    == #[trigger] transfers_for_claims(token_account_id, callers)[j],
{
}

} // verus!
