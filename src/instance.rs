use vstd::prelude::*;

use crate::faucet::{claim_transfer, Nep21Faucet, TransferRequest};

verus! {

/// Why an operation on a faucet instance was refused.
#[derive(Debug, PartialEq, Eq, Structural)]
pub enum FaucetError {
    /// The instance already holds state; initialization is one-shot.
    AlreadyInitialized,
    /// The instance holds no state yet.
    NotInitialized,
}

/// The state that an instance holds after `initialize(token_account_id)` on
/// `stored`: the first token contract wins, later attempts change nothing.
pub open spec fn initialized_state(stored: Option<Seq<char>>, token_account_id: Seq<char>) -> Option<Seq<char>> {
    match stored {
        Some(t) => Some(t),
        None => Some(token_account_id),
    }
}

/// Whether `initialize` succeeds on an instance that holds `stored`.
pub open spec fn initialize_succeeds(stored: Option<Seq<char>>) -> bool {
    stored is None
}

/// A deployed faucet contract: either uninitialized, or holding its
/// `Nep21Faucet` state, which is written once and never changed afterwards.
pub struct FaucetInstance {
    state: Option<Nep21Faucet>,
}

impl View for FaucetInstance {
    /// The stored token contract account, if the instance was initialized.
    type V = Option<Seq<char>>;

    closed spec fn view(&self) -> Option<Seq<char>> {
        match self.state {
            Some(f) => Some(f.token_account_id@),
            None => None,
        }
    }
}

impl FaucetInstance {
    /// A freshly deployed instance, holding no state.
    pub fn new() -> (r: FaucetInstance)
        ensures
            r@ is None,
    {
        FaucetInstance { state: None }
    }

    /// Whether the instance holds state.
    pub fn is_initialized(&self) -> (r: bool)
        ensures
            r == self@ is Some,
    {
        self.state.is_some()
    }

    /// Stores `token_account_id` if the instance holds no state yet; fails
    /// with `AlreadyInitialized`, changing nothing, if it does.
    pub fn initialize(&mut self, token_account_id: String) -> (r: Result<(), FaucetError>)
        ensures
            initialize_succeeds(old(self)@) ==> r is Ok,
            !initialize_succeeds(old(self)@) ==> r == Err::<(), FaucetError>(FaucetError::AlreadyInitialized),
            final(self)@ == initialized_state(old(self)@, token_account_id@),
    {
        match Nep21Faucet::init(token_account_id, self.state.is_some()) {
            Ok(f) => {
                self.state = Some(f);
                Ok(())
            },
            Err(e) => Err(e),
        }
    }

    /// The transfer request that a claim by `predecessor_account_id` schedules,
    /// or `NotInitialized` if the instance holds no state.
    pub fn claim(&self, predecessor_account_id: String) -> (r: Result<TransferRequest, FaucetError>)
        ensures
            self@ is None ==> r == Err::<TransferRequest, FaucetError>(FaucetError::NotInitialized),
            self@ matches Some(t) ==> (r matches Ok(req) && req@ == claim_transfer(t, predecessor_account_id@)),
    {
        match &self.state {
            Some(f) => Ok(f.claim(predecessor_account_id)),
            None => Err(FaucetError::NotInitialized),
        }
    }

    /// The stored token contract account, or `NotInitialized`.
    pub fn get_token_account_id(&self) -> (r: Result<&String, FaucetError>)
        ensures
            self@ is None ==> r == Err::<&String, FaucetError>(FaucetError::NotInitialized),
            self@ matches Some(t) ==> (r matches Ok(s) && s@ == t),
    {
        match &self.state {
            Some(f) => Ok(f.get_token_account_id()),
            None => Err(FaucetError::NotInitialized),
        }
    }
}

} // verus!
