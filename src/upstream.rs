use vstd::prelude::*;

verus! {

/// How much of each transaction a block request asks for.
#[derive(Clone, Copy, Debug, PartialEq, Eq, Structural)]
pub enum TransactionDetails {
    Full,
    Accounts,
}

/// The query methods that the proxy forwards with their parameters unchanged.
#[derive(Clone, Copy, Debug, PartialEq, Eq, Structural)]
pub enum ForwardedMethod {
    GetAccountInfo,
    GetProgramAccounts,
    GetSignaturesForAddress,
}

/// A JSON-RPC call to the upstream endpoint. Blocks and transactions are asked
/// for base64-encoded, with transaction version 0 and without rewards.
pub enum UpstreamCall {
    GetBlocks { start_slot: u64, end_slot: Option<u64> },
    GetBlock { slot: u64, details: TransactionDetails },
    GetTransaction { signature: String },
    /// `params` is the JSON text of the parameters, passed on as it came.
    Forwarded { method: ForwardedMethod, params: String },
}

/// The body of an outbound POST request.
pub enum UpstreamBody {
    /// A JSON-RPC 2.0 envelope with correlation id `id`.
    Call { id: u64, call: UpstreamCall },
    /// A body passed on byte for byte.
    Verbatim(String),
}

/// Relies on rand::random (rand 0.8), which draws from the thread-local generator;
/// nothing is promised of the value.
#[verifier::external_body]
fn random_id() -> u64 {
    rand::random::<u64>()
}

/// A call with a freshly drawn correlation id.
pub fn new_call(call: UpstreamCall) -> (r: UpstreamBody)
    ensures
        r matches UpstreamBody::Call { call: c, .. } && c == call,
{
    UpstreamBody::Call { id: random_id(), call }
}

/// The request for the slots of the confirmed blocks from `start_slot` on.
pub fn get_blocks_request(start_slot: u64, end_slot: Option<u64>) -> (r: UpstreamBody)
    ensures
        r matches UpstreamBody::Call { call: UpstreamCall::GetBlocks { start_slot: s, end_slot: e }, .. }
            && s == start_slot && e == end_slot,
{
    new_call(UpstreamCall::GetBlocks { start_slot, end_slot })
}

/// The request for the block at `slot` with full transactions.
pub fn get_block_request(slot: u64) -> (r: UpstreamBody)
    ensures
        r matches UpstreamBody::Call { call: UpstreamCall::GetBlock { slot: s, details }, .. }
            && s == slot && details == TransactionDetails::Full,
{
    new_call(UpstreamCall::GetBlock { slot, details: TransactionDetails::Full })
}

/// The request for the block at `slot` with the account lists of its transactions.
pub fn get_block_accounts_request(slot: u64) -> (r: UpstreamBody)
    ensures
        r matches UpstreamBody::Call { call: UpstreamCall::GetBlock { slot: s, details }, .. }
            && s == slot && details == TransactionDetails::Accounts,
{
    new_call(UpstreamCall::GetBlock { slot, details: TransactionDetails::Accounts })
}

/// The request for the transaction with `signature`.
pub fn get_transaction_request(signature: String) -> (r: UpstreamBody)
    ensures
        r matches UpstreamBody::Call { call: UpstreamCall::GetTransaction { signature: s }, .. }
            && s == signature,
{
    new_call(UpstreamCall::GetTransaction { signature })
}

/// Why an upstream reply holds no usable result.
pub enum ReplyError {
    /// The reply carries a JSON-RPC error object (its JSON text).
    Upstream(String),
    /// The reply carries neither an error nor a result.
    MissingResult,
}

/// The result of a JSON-RPC reply, given the JSON text of its `error` and `result`
/// members where present: an error object wins over a result.
pub fn reply_result(error: Option<String>, result: Option<String>) -> (r: Result<String, ReplyError>)
    ensures
        error is Some ==> (r matches Err(ReplyError::Upstream(e)) && e == error->Some_0),
        error is None && result is Some ==> r == Ok::<String, ReplyError>(result->Some_0),
        error is None && result is None ==> r matches Err(ReplyError::MissingResult),
{
    match error {
        Some(e) => Err(ReplyError::Upstream(e)),
        None => match result {
            Some(v) => Ok(v),
            None => Err(ReplyError::MissingResult),
        },
    }
}

} // verus!
