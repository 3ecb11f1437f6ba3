use vstd::prelude::*;

use crate::instance::FaucetError;

verus! {

/// Amount handed out by one claim: one token at 24-decimal precision.
pub const CLAIM_AMOUNT: u128 = 1_000_000_000_000_000_000_000_000;

/// Gas reserved for the token contract's `transfer` call.
pub const TRANSFER_GAS: u64 = 100_000_000_000_000;

/// Name of the token contract's entry point that a claim calls.
pub const TRANSFER_METHOD: &'static str = "transfer";

/// What a transfer request carries, as plain mathematical values.
pub struct TransferRequestView {
    pub receiver_id: Seq<char>,
    pub method_name: Seq<char>,
    pub new_owner_id: Seq<char>,
    pub amount: u128,
    pub attached_deposit: u128,
    pub gas: u64,
}

/// An outbound call to be scheduled: `receiver_id.method_name(new_owner_id,
/// amount)`, with `attached_deposit` attached and `gas` reserved for it.
pub struct TransferRequest {
    pub receiver_id: String,
    pub method_name: String,
    pub new_owner_id: String,
    pub amount: u128,
    pub attached_deposit: u128,
    pub gas: u64,
}

impl View for TransferRequest {
    type V = TransferRequestView;

    open spec fn view(&self) -> TransferRequestView {
        TransferRequestView {
            receiver_id: self.receiver_id@,
            method_name: self.method_name@,
            new_owner_id: self.new_owner_id@,
            amount: self.amount,
            attached_deposit: self.attached_deposit,
            gas: self.gas,
        }
    }
}

/// The transfer that one claim by `caller` schedules on a faucet drawing from
/// `token_account_id`: the fixed amount, to the caller, with no deposit.
pub open spec fn claim_transfer(token_account_id: Seq<char>, caller: Seq<char>) -> TransferRequestView {
    TransferRequestView {
        receiver_id: token_account_id,
        method_name: TRANSFER_METHOD@,
        new_owner_id: caller,
        amount: CLAIM_AMOUNT,
        attached_deposit: 0,
        gas: TRANSFER_GAS,
    }
}

/// The faucet's durable state: the account of the token contract it draws from.
pub struct Nep21Faucet {
    pub token_account_id: String,
}

impl Nep21Faucet {
    /// Creates the faucet state for `token_account_id`. `state_exists` tells
    /// whether this contract instance already holds state; if it does, the
    /// instance was initialized before and nothing is created.
    pub fn init(token_account_id: String, state_exists: bool) -> (r: Result<Nep21Faucet, FaucetError>)
        ensures
            state_exists ==> r == Err::<Nep21Faucet, FaucetError>(FaucetError::AlreadyInitialized),
            !state_exists ==> (r matches Ok(f) && f.token_account_id@ == token_account_id@),
    {
        if state_exists {
            Err(FaucetError::AlreadyInitialized)
        } else {
            Ok(Nep21Faucet { token_account_id })
        }
    }

    /// The transfer request that a claim by `predecessor_account_id` schedules:
    /// `CLAIM_AMOUNT` to the caller, on the stored token contract. Claims keep
    /// no history, so every call gives the same request for the same caller.
    pub fn claim(&self, predecessor_account_id: String) -> (r: TransferRequest)
        ensures
            r@ == claim_transfer(self.token_account_id@, predecessor_account_id@),
    {
        TransferRequest {
            receiver_id: self.token_account_id.clone(),
            method_name: TRANSFER_METHOD.to_string(),
            new_owner_id: predecessor_account_id,
            amount: CLAIM_AMOUNT,
            attached_deposit: 0,
            gas: TRANSFER_GAS,
        }
    }

    /// The stored token contract account.
    pub fn get_token_account_id(&self) -> (r: &String)
        ensures
            r@ == self.token_account_id@,
    {
        &self.token_account_id
    }
}

} // verus!
