use vstd::prelude::*;

use crate::accounts::{AccountRecord, AccountTable};
use crate::upstream::{ForwardedMethod, UpstreamBody, UpstreamCall};

verus! {

/// The feature set reported by the version query.
pub const FEATURE_SET: u64 = 2891131721;

/// The node version reported by the version query.
pub open spec fn core_version() -> Seq<char> {
    "1.16.7"@
}

/// The parameters of an account-info query: the JSON text of the whole parameter
/// list, and its first element where that is a string.
pub struct AccountInfoParams {
    pub address: Option<String>,
    pub raw: String,
}

/// The method of an inbound request, with its parameters as JSON text.
pub enum RpcMethod {
    GetVersion,
    GetAccountInfo(AccountInfoParams),
    GetProgramAccounts(String),
    GetSignaturesForAddress(String),
    /// Any other method: the JSON text of the whole request, as it came.
    Unproxied(String),
}

/// An inbound JSON-RPC request.
pub struct RpcRequest {
    pub id: u64,
    pub jsonrpc: String,
    pub method: RpcMethod,
}

/// A stored account in the shape of an account-info result. Fields missing from
/// the store read as `false` and zero; a missing owner stays missing.
pub struct AccountInfoReply {
    pub id: u64,
    pub slot: u64,
    pub data: Vec<u8>,
    pub executable: bool,
    pub lamports: u64,
    pub owner: Option<String>,
    pub rent_epoch: u64,
}

/// The static answer to the version query.
pub struct VersionReply {
    pub id: u64,
    pub feature_set: u64,
    pub core_version: String,
}

/// A successful answer to an inbound request.
pub enum Reply {
    Version(VersionReply),
    CachedAccount(AccountInfoReply),
    /// The upstream endpoint's JSON response, unchanged.
    Upstream(String),
}

/// Why an inbound request failed.
pub enum ProxyError {
    /// The store could not be read.
    Database,
    /// The upstream endpoint could not be reached; the transport's message.
    Client(String),
    /// A request parameter is missing or malformed.
    BadRequest(String),
    InternalServer,
}

/// The HTTP status that an error is reported with.
pub open spec fn error_status(e: ProxyError) -> u16 {
    match e {
        ProxyError::Database | ProxyError::InternalServer => 500,
        ProxyError::Client(_) => 502,
        ProxyError::BadRequest(_) => 400,
    }
}

impl ProxyError {
    /// The HTTP status that this error is reported with.
    pub fn status_code(&self) -> (s: u16)
        ensures
            s == error_status(*self),
    {
        match self {
            ProxyError::Database | ProxyError::InternalServer => 500,
            ProxyError::Client(_) => 502,
            ProxyError::BadRequest(_) => 400,
        }
    }
}

/// What the dispatcher does with a request.
pub enum Step {
    /// Answer at once.
    Respond(Reply),
    /// Send this body through the request broker and answer with what comes back.
    Forward(UpstreamBody),
    Fail(ProxyError),
}

/// `r` is the stored row `rec` in reply to request `id`.
pub open spec fn is_cached_reply(r: AccountInfoReply, id: u64, rec: AccountRecord) -> bool {
    &&& r.id == id
    &&& r.slot == rec.slot
    &&& r.data@ == rec.data@
    &&& r.executable == match rec.executable {
        Some(e) => e,
        None => false,
    }
    &&& r.lamports == match rec.lamports {
        Some(l) => l,
        None => 0,
    }
    &&& r.rent_epoch == match rec.rent_epoch {
        Some(e) => e,
        None => 0,
    }
    &&& match rec.owner {
        Some(o) => r.owner is Some && r.owner->Some_0@ == o@,
        None => r.owner is None,
    }
}

/// The body that forwards `method` of request `id` with its parameters unchanged.
pub open spec fn forwarded(id: u64, method: ForwardedMethod, params: String) -> UpstreamBody {
    UpstreamBody::Call { id, call: UpstreamCall::Forwarded { method, params } }
}

/// `step` is what the dispatcher owes request `req` against account table `accounts`.
pub open spec fn dispatched(req: RpcRequest, accounts: Map<Seq<char>, AccountRecord>, step: Step) -> bool {
    match req.method {
        RpcMethod::GetVersion => step matches Step::Respond(Reply::Version(v)) && v.id == req.id
            && v.feature_set == FEATURE_SET && v.core_version@ == core_version(),
        RpcMethod::GetAccountInfo(p) => match p.address {
            None => step matches Step::Fail(ProxyError::BadRequest(_)),
            Some(a) => if accounts.contains_key(a@) {
                step matches Step::Respond(Reply::CachedAccount(r)) && is_cached_reply(
                    r,
                    req.id,
                    accounts[a@],
                )
            } else {
                step == Step::Forward(forwarded(req.id, ForwardedMethod::GetAccountInfo, p.raw))
            },
        },
        RpcMethod::GetProgramAccounts(p) => step == Step::Forward(
            forwarded(req.id, ForwardedMethod::GetProgramAccounts, p),
        ),
        RpcMethod::GetSignaturesForAddress(p) => step == Step::Forward(
            forwarded(req.id, ForwardedMethod::GetSignaturesForAddress, p),
        ),
        RpcMethod::Unproxied(body) => step == Step::Forward(UpstreamBody::Verbatim(body)),
    }
}

fn copy_bytes(v: &Vec<u8>) -> (r: Vec<u8>)
    ensures
        r@ == v@,
{
    let mut r: Vec<u8> = Vec::new();
    let mut i: usize = 0;
    while i < v.len()
        invariant
            i <= v.len(),
            r@ == v@.subrange(0, i as int),
        decreases v.len() - i,
    {
        r.push(v[i]);
        i = i + 1;
        assert(r@ =~= v@.subrange(0, i as int));
    }
    assert(r@ =~= v@);
    r
}

/// Reshapes a stored row into the reply to request `id`.
pub fn cached_reply(id: u64, rec: &AccountRecord) -> (r: AccountInfoReply)
    ensures
        is_cached_reply(r, id, *rec),
{
    AccountInfoReply {
        id,
        slot: rec.slot,
        data: copy_bytes(&rec.data),
        executable: match rec.executable {
            Some(e) => e,
            None => false,
        },
        lamports: match rec.lamports {
            Some(l) => l,
            None => 0,
        },
        owner: match &rec.owner {
            Some(o) => Some(o.clone()),
            None => None,
        },
        rent_epoch: match rec.rent_epoch {
            Some(e) => e,
            None => 0,
        },
    }
}

/// Decides how to answer a request: the version query from a constant, an
/// account-info query from the account table where it holds the address and
/// through the broker where it does not, and every other method through the broker
/// (the multi-account and signature-list queries with their parameters, any
/// unrecognized request verbatim).
pub fn dispatch(req: RpcRequest, accounts: &AccountTable) -> (step: Step)
    requires
        accounts.wf(),
    ensures
        dispatched(req, accounts@, step),
{
    let id = req.id;
    match req.method {
        RpcMethod::GetVersion => Step::Respond(
            Reply::Version(
                VersionReply { id, feature_set: FEATURE_SET, core_version: String::from_str("1.16.7") },
            ),
        ),
        RpcMethod::GetAccountInfo(p) => match p.address {
            None => Step::Fail(ProxyError::BadRequest(String::from_str("Invalid account ID"))),
            Some(a) => match accounts.get(&a) {
                Some(rec) => Step::Respond(Reply::CachedAccount(cached_reply(id, rec))),
                None => Step::Forward(
                    UpstreamBody::Call {
                        id,
                        call: UpstreamCall::Forwarded { method: ForwardedMethod::GetAccountInfo, params: p.raw },
                    },
                ),
            },
        },
        RpcMethod::GetProgramAccounts(p) => Step::Forward(
            UpstreamBody::Call {
                id,
                call: UpstreamCall::Forwarded { method: ForwardedMethod::GetProgramAccounts, params: p },
            },
        ),
        RpcMethod::GetSignaturesForAddress(p) => Step::Forward(
            UpstreamBody::Call {
                id,
                call: UpstreamCall::Forwarded { method: ForwardedMethod::GetSignaturesForAddress, params: p },
            },
        ),
        RpcMethod::Unproxied(body) => Step::Forward(UpstreamBody::Verbatim(body)),
    }
}

/// The answer to a forwarded request, given what the broker returned: the upstream
/// response unchanged, or a gateway error carrying the transport's message.
pub fn finish_forward(outcome: Result<String, String>) -> (r: Result<Reply, ProxyError>)
    ensures
        r == finish_forward_spec(outcome),
        outcome is Ok ==> r == Ok::<Reply, ProxyError>(Reply::Upstream(outcome->Ok_0)),
        outcome is Err ==> r == Err::<Reply, ProxyError>(ProxyError::Client(outcome->Err_0)),
{
    match outcome {
        Ok(body) => Ok(Reply::Upstream(body)),
        Err(e) => Err(ProxyError::Client(e)),
    }
}

/// An account-info query for an address that the table holds is answered from
/// the table: it sends nothing to the broker.
pub proof fn lemma_cached_query_sends_nothing(
    req: RpcRequest,
    accounts: Map<Seq<char>, AccountRecord>,
    step: Step,
)
    requires
        dispatched(req, accounts, step),
        req.method matches RpcMethod::GetAccountInfo(p) && p.address is Some && accounts.contains_key(
            p.address->Some_0@,
        ),
    ensures
        !(step is Forward),
        step matches Step::Respond(Reply::CachedAccount(r)) && r.slot == accounts[(
        req.method->GetAccountInfo_0).address->Some_0@].slot,
{
}

/// An account-info query for an address that the table lacks sends exactly one
/// request to the broker: the same method with the same id and parameters.
pub proof fn lemma_missed_query_forwarded(
    req: RpcRequest,
    accounts: Map<Seq<char>, AccountRecord>,
    step: Step,
)
    requires
        dispatched(req, accounts, step),
        req.method matches RpcMethod::GetAccountInfo(p) && p.address is Some && !accounts.contains_key(
            p.address->Some_0@,
        ),
    ensures
        step == Step::Forward(
            forwarded(req.id, ForwardedMethod::GetAccountInfo, (req.method->GetAccountInfo_0).raw),
        ),
{
}

/// An unrecognized request goes to the broker exactly as it came, and the broker's
/// response comes back exactly as it was received.
pub proof fn lemma_unrecognized_passes_through(
    req: RpcRequest,
    accounts: Map<Seq<char>, AccountRecord>,
    step: Step,
    response: String,
)
    requires
        dispatched(req, accounts, step),
        req.method is Unproxied,
    ensures
        step == Step::Forward(UpstreamBody::Verbatim(req.method->Unproxied_0)),
        finish_forward_spec(Ok(response)) == Ok::<Reply, ProxyError>(Reply::Upstream(response)),
{
}

/// What `finish_forward` returns.
pub open spec fn finish_forward_spec(outcome: Result<String, String>) -> Result<Reply, ProxyError> {
    match outcome {
        Ok(body) => Ok(Reply::Upstream(body)),
        Err(e) => Err(ProxyError::Client(e)),
    }
}

} // verus!
