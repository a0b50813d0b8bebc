use light_protocol::models::{
    AccountContext, AccountState, Context, GetCompressedTokenAccountsByDelegatePostRequestParams,
    GetTransactionWithCompressionInfoV2Post200ResponseResult, OwnerBalance,
};

#[test]
fn delegate_request_params_start_without_options() {
    let p = GetCompressedTokenAccountsByDelegatePostRequestParams::new("Delegate111".to_string());
    assert_eq!(p.delegate, "Delegate111");
    assert_eq!(p.cursor, None);
    assert_eq!(p.limit, None);
    assert_eq!(p.mint, None);
}

#[test]
fn transaction_result_starts_empty() {
    let r = GetTransactionWithCompressionInfoV2Post200ResponseResult::new();
    assert!(r.compression_info.is_none());
    assert!(r.transaction.is_none());
    assert_eq!(r, GetTransactionWithCompressionInfoV2Post200ResponseResult::default());
}

#[test]
fn transaction_result_holds_compression_info() {
    let mut r = GetTransactionWithCompressionInfoV2Post200ResponseResult::new();
    r.compression_info = Some(Box::new(serde_json::Value::Bool(true)));
    assert_ne!(r, GetTransactionWithCompressionInfoV2Post200ResponseResult::default());
    assert_eq!(r.compression_info.as_deref(), Some(&serde_json::Value::Bool(true)));
}

#[test]
fn models_default_to_empty_values() {
    let p = GetCompressedTokenAccountsByDelegatePostRequestParams::default();
    assert_eq!(p.delegate, "");
    assert_eq!(p.cursor, None);
    assert_eq!(p.limit, None);
    assert_eq!(p.mint, None);
    let c = AccountContext::default();
    assert_eq!(c, AccountContext::new(false, false, false));
    assert_eq!(Context::default().slot, 0);
    let b = OwnerBalance::default();
    assert_eq!(b.balance, 0);
    assert_eq!(b.owner, "");
}

#[test]
fn account_context_keeps_flags() {
    let c = AccountContext::new(true, false, true);
    assert!(c.in_output_queue);
    assert!(!c.nullified_in_tree);
    assert!(c.spent);
    assert_eq!(c.nullifier, None);
    assert_eq!(c.nullifier_queue_index, None);
    assert_eq!(c.queue, None);
    assert_eq!(c.tx_hash, None);
    let c = AccountContext::new(false, true, false);
    assert!(!c.in_output_queue);
    assert!(c.nullified_in_tree);
    assert!(!c.spent);
}

#[test]
fn account_state_names_and_default() {
    assert_eq!(AccountState::Initialized.to_string(), "initialized");
    assert_eq!(AccountState::Frozen.to_string(), "frozen");
    assert_eq!(AccountState::default(), AccountState::Initialized);
    assert!(AccountState::Initialized < AccountState::Frozen);
}

#[test]
fn context_and_owner_balance() {
    assert_eq!(Context::new(42).slot, 42);
    let b = OwnerBalance::new(-7, "Owner111".to_string());
    assert_eq!(b.balance, -7);
    assert_eq!(b.owner, "Owner111");
}
