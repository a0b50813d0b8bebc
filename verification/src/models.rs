use vstd::prelude::*;

verus! {

/// Parameters of a request for the compressed token accounts of a delegate.
#[derive(Clone, Debug, PartialEq)]
pub struct GetCompressedTokenAccountsByDelegatePostRequestParams {
    /// A base 58 encoded string.
    pub cursor: Option<Option<String>>,
    /// A Solana public key represented as a base58 string.
    pub delegate: String,
    pub limit: Option<Option<i32>>,
    /// A Solana public key represented as a base58 string.
    pub mint: Option<Option<String>>,
}

impl GetCompressedTokenAccountsByDelegatePostRequestParams {
    /// Request parameters for `delegate`, with no cursor, limit or mint.
    pub fn new(delegate: String) -> (r: GetCompressedTokenAccountsByDelegatePostRequestParams)
        ensures
            r.delegate@ == delegate@,
            r.cursor is None,
            r.limit is None,
            r.mint is None,
    {
        GetCompressedTokenAccountsByDelegatePostRequestParams {
            cursor: None,
            delegate,
            limit: None,
            mint: None,
        }
    }
}

impl Default for GetCompressedTokenAccountsByDelegatePostRequestParams {
    /// Parameters with an empty delegate and no cursor, limit or mint.
    fn default() -> (r: GetCompressedTokenAccountsByDelegatePostRequestParams)
        ensures
            r.delegate@ == Seq::<char>::empty(),
            r.cursor is None,
            r.limit is None,
            r.mint is None,
    {
        GetCompressedTokenAccountsByDelegatePostRequestParams {
            cursor: None,
            delegate: String::new(),
            limit: None,
            mint: None,
        }
    }
}

} // verus!

verus! {

#[verifier::external_type_specification]
#[verifier::external_body]
pub struct ExJsonValue(serde_json::Value);

/// A Solana transaction with additional compression information.
#[derive(Clone, Debug, PartialEq)]
pub struct GetTransactionWithCompressionInfoV2Post200ResponseResult {
    /// The compression information of the transaction (the accounts it opened
    /// and closed), held as the JSON object the indexer sends.
    pub compression_info: Option<Box<serde_json::Value>>,
    /// An encoded confirmed transaction with status meta
    pub transaction: Option<serde_json::Value>,
}

impl GetTransactionWithCompressionInfoV2Post200ResponseResult {
    /// A result with neither compression information nor a transaction.
    pub fn new() -> (r: GetTransactionWithCompressionInfoV2Post200ResponseResult)
        ensures
            r.compression_info is None,
            r.transaction is None,
    {
        GetTransactionWithCompressionInfoV2Post200ResponseResult {
            compression_info: None,
            transaction: None,
        }
    }
}

impl Default for GetTransactionWithCompressionInfoV2Post200ResponseResult {
    /// The same value as `new`: both fields absent.
    fn default() -> (r: GetTransactionWithCompressionInfoV2Post200ResponseResult)
        ensures
            r.compression_info is None,
            r.transaction is None,
    {
        GetTransactionWithCompressionInfoV2Post200ResponseResult::new()
    }
}

#[derive(Clone, Debug, PartialEq)]
pub struct AccountContext {
    pub in_output_queue: bool,
    pub nullified_in_tree: bool,
    /// A 32-byte hash represented as a base58 string.
    pub nullifier: Option<String>,
    pub nullifier_queue_index: Option<i32>,
    /// A Solana public key represented as a base58 string.
    pub queue: Option<String>,
    pub spent: bool,
    /// A 32-byte hash represented as a base58 string.
    pub tx_hash: Option<String>,
}

impl AccountContext {
    /// A context with the three flags given and every optional field absent.
    pub fn new(in_output_queue: bool, nullified_in_tree: bool, spent: bool) -> (r: AccountContext)
        ensures
            r.in_output_queue == in_output_queue,
            r.nullified_in_tree == nullified_in_tree,
            r.spent == spent,
            r.nullifier is None,
            r.nullifier_queue_index is None,
            r.queue is None,
            r.tx_hash is None,
    {
        AccountContext {
            in_output_queue,
            nullified_in_tree,
            nullifier: None,
            nullifier_queue_index: None,
            queue: None,
            spent,
            tx_hash: None,
        }
    }
}

impl Default for AccountContext {
    /// A context with every flag false and every optional field absent.
    fn default() -> (r: AccountContext)
        ensures
            !r.in_output_queue,
            !r.nullified_in_tree,
            !r.spent,
            r.nullifier is None,
            r.nullifier_queue_index is None,
            r.queue is None,
            r.tx_hash is None,
    {
        AccountContext::new(false, false, false)
    }
}

/// The state of a compressed token account.
#[derive(Clone, Copy, Debug, PartialEq, Eq, Structural, PartialOrd, Ord, Hash)]
pub enum AccountState {
    Initialized,
    Frozen,
}

/// The name of an account state as the indexer API writes it.
pub open spec fn account_state_name(s: AccountState) -> Seq<char> {
    match s {
        AccountState::Initialized => "initialized"@,
        AccountState::Frozen => "frozen"@,
    }
}

impl AccountState {
    /// The state's name: `initialized` or `frozen`.
    pub fn to_string(&self) -> (r: String)
        ensures
            r@ == account_state_name(*self),
    {
        match self {
            AccountState::Initialized => "initialized".to_owned(),
            AccountState::Frozen => "frozen".to_owned(),
        }
    }
}

impl Default for AccountState {
    fn default() -> (r: AccountState)
        ensures
            r == AccountState::Initialized,
    {
        AccountState::Initialized
    }
}

#[derive(Clone, Debug, PartialEq, Eq, Structural)]
pub struct Context {
    pub slot: u64,
}

impl Context {
    pub fn new(slot: u64) -> (r: Context)
        ensures
            r.slot == slot,
    {
        Context { slot }
    }
}

impl Default for Context {
    /// The context of slot zero.
    fn default() -> (r: Context)
        ensures
            r.slot == 0,
    {
        Context::new(0)
    }
}

#[derive(Clone, Debug, PartialEq)]
pub struct OwnerBalance {
    pub balance: i32,
    /// A Solana public key represented as a base58 string.
    pub owner: String,
}

impl OwnerBalance {
    pub fn new(balance: i32, owner: String) -> (r: OwnerBalance)
        ensures
            r.balance == balance,
            r.owner@ == owner@,
    {
        OwnerBalance { balance, owner }
    }
}

impl Default for OwnerBalance {
    /// A zero balance of an empty owner.
    fn default() -> (r: OwnerBalance)
        ensures
            r.balance == 0,
            r.owner@ == Seq::<char>::empty(),
    {
        OwnerBalance::new(0, String::new())
    }
}

} // verus!
