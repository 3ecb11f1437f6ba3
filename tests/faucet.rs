use nep21_faucet::{
    FaucetError, FaucetInstance, Nep21Faucet, TransferRequest, CLAIM_AMOUNT, TRANSFER_GAS,
    TRANSFER_METHOD,
};

fn initialized(token: &str) -> FaucetInstance {
    let mut instance = FaucetInstance::new();
    assert!(instance.initialize(token.to_string()).is_ok());
    instance
}

fn assert_claim_for(request: &TransferRequest, token: &str, caller: &str) {
    assert_eq!(request.receiver_id, token);
    assert_eq!(request.method_name, "transfer");
    assert_eq!(request.new_owner_id, caller);
    assert_eq!(request.amount, 1_000_000_000_000_000_000_000_000u128);
    assert_eq!(request.attached_deposit, 0);
    assert_eq!(request.gas, 100_000_000_000_000u64);
}

#[test]
fn constants_hold_their_values() {
    assert_eq!(CLAIM_AMOUNT, 10u128.pow(24));
    assert_eq!(TRANSFER_GAS, 100 * 10u64.pow(12));
    assert_eq!(TRANSFER_METHOD, "transfer");
}

#[test]
fn init_without_state_stores_token_account() {
    let faucet = Nep21Faucet::init("token.test".to_string(), false).unwrap();
    assert_eq!(faucet.token_account_id, "token.test");
    assert_eq!(faucet.get_token_account_id(), "token.test");
}

#[test]
fn init_with_existing_state_fails() {
    let r = Nep21Faucet::init("token.test".to_string(), true);
    assert!(matches!(r, Err(FaucetError::AlreadyInitialized)));
}

#[test]
fn claim_as_alice_schedules_one_transfer() {
    let instance = initialized("token.test");
    let request = instance.claim("alice".to_string()).unwrap();
    assert_claim_for(&request, "token.test", "alice");
}

#[test]
fn claim_on_faucet_state_goes_to_caller() {
    let faucet = Nep21Faucet::init("ft.near".to_string(), false).unwrap();
    let request = faucet.claim("bob.near".to_string());
    assert_claim_for(&request, "ft.near", "bob.near");
}

#[test]
fn claiming_twice_schedules_two_equal_transfers() {
    let instance = initialized("token.test");
    let first = instance.claim("alice".to_string()).unwrap();
    let second = instance.claim("alice".to_string()).unwrap();
    assert_claim_for(&first, "token.test", "alice");
    assert_claim_for(&second, "token.test", "alice");
    assert_eq!(instance.get_token_account_id().unwrap(), "token.test");
}

#[test]
fn claims_by_different_callers_differ_only_in_recipient() {
    let instance = initialized("token.test");
    let a = instance.claim("alice".to_string()).unwrap();
    let b = instance.claim("bob".to_string()).unwrap();
    assert_claim_for(&a, "token.test", "alice");
    assert_claim_for(&b, "token.test", "bob");
}

#[test]
fn second_initialize_fails_and_keeps_token() {
    let mut instance = FaucetInstance::new();
    assert_eq!(instance.initialize("token.test".to_string()), Ok(()));
    assert_eq!(
        instance.initialize("other.test".to_string()),
        Err(FaucetError::AlreadyInitialized)
    );
    assert_eq!(instance.get_token_account_id().unwrap(), "token.test");
}

#[test]
fn token_account_kept_over_many_attempts() {
    let mut instance = initialized("token.test");
    for other in ["a", "b", "token.test", ""] {
        assert_eq!(
            instance.initialize(other.to_string()),
            Err(FaucetError::AlreadyInitialized)
        );
        let _ = instance.claim("alice".to_string());
        assert_eq!(instance.get_token_account_id().unwrap(), "token.test");
    }
    assert!(instance.is_initialized());
}

#[test]
fn fresh_instance_refuses_claim_and_query() {
    let instance = FaucetInstance::new();
    assert!(!instance.is_initialized());
    assert!(matches!(
        instance.claim("alice".to_string()),
        Err(FaucetError::NotInitialized)
    ));
    assert_eq!(
        instance.get_token_account_id(),
        Err(FaucetError::NotInitialized)
    );
}

#[test]
fn empty_token_account_is_stored_as_given() {
    let instance = initialized("");
    assert_eq!(instance.get_token_account_id().unwrap(), "");
    let request = instance.claim(String::new()).unwrap();
    assert_claim_for(&request, "", "");
}
