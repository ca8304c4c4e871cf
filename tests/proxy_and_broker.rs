use argolens::accounts::{
    apply_notification, load_snapshot, snapshot_batches, AccountNotification, AccountRecord,
    AccountTable, SnapshotAccount,
};
use argolens::broker::{AdmissionQueue, GateOutcome, SubmitError, Turn};
use argolens::proxy::{
    cached_reply, dispatch, finish_forward, AccountInfoParams, ProxyError, Reply, RpcMethod,
    RpcRequest, Step, FEATURE_SET,
};
use argolens::replay::{BlockRelation, MockBankCallback, MockForkGraph};
use argolens::store::Table;
use argolens::upstream::{
    get_block_accounts_request, get_block_request, get_blocks_request, get_transaction_request,
    reply_result, ForwardedMethod, ReplyError, TransactionDetails, UpstreamBody, UpstreamCall,
};

fn account_query(id: u64, address: Option<&str>, raw: &str) -> RpcRequest {
    RpcRequest {
        id,
        jsonrpc: "2.0".to_string(),
        method: RpcMethod::GetAccountInfo(AccountInfoParams {
            address: address.map(|a| a.to_string()),
            raw: raw.to_string(),
        }),
    }
}

fn table_with(address: &str, slot: u64, data: Vec<u8>) -> AccountTable {
    let mut t: AccountTable = Table::new();
    t.upsert_batch(vec![AccountRecord {
        address: address.to_string(),
        slot,
        data,
        lamports: None,
        owner: None,
        executable: None,
        rent_epoch: None,
    }]);
    t
}

#[test]
fn cached_address_is_answered_without_the_broker() {
    let t = table_with("A", 10, vec![1, 2]);
    let mut broker_calls = 0;
    match dispatch(account_query(5, Some("A"), "[\"A\"]"), &t) {
        Step::Respond(Reply::CachedAccount(r)) => {
            assert_eq!(r.id, 5);
            assert_eq!(r.slot, 10);
            assert_eq!(r.data, vec![1, 2]);
            assert!(!r.executable);
            assert_eq!(r.lamports, 0);
            assert_eq!(r.rent_epoch, 0);
            assert_eq!(r.owner, None);
        }
        Step::Forward(_) => broker_calls += 1,
        _ => panic!("unexpected step"),
    }
    assert_eq!(broker_calls, 0);
}

#[test]
fn missing_address_is_forwarded_once_with_same_params() {
    let t = table_with("A", 10, vec![1]);
    let raw = "[\"B\",{\"encoding\":\"base64\"}]";
    match dispatch(account_query(9, Some("B"), raw), &t) {
        Step::Forward(UpstreamBody::Call {
            id,
            call: UpstreamCall::Forwarded { method, params },
        }) => {
            assert_eq!(id, 9);
            assert_eq!(method, ForwardedMethod::GetAccountInfo);
            assert_eq!(params, raw);
        }
        _ => panic!("expected one forwarded call"),
    }
}

#[test]
fn account_query_without_address_is_bad_request() {
    let t = table_with("A", 10, vec![1]);
    match dispatch(account_query(1, None, "[1]"), &t) {
        Step::Fail(e) => {
            assert!(matches!(e, ProxyError::BadRequest(_)));
            assert_eq!(e.status_code(), 400);
        }
        _ => panic!("expected a bad request"),
    }
}

#[test]
fn unrecognized_method_passes_through_unchanged() {
    let t: AccountTable = Table::new();
    let body = "{\"jsonrpc\":\"2.0\",\"id\":3,\"method\":\"getSlot\",\"params\":[]}";
    let req = RpcRequest {
        id: 3,
        jsonrpc: "2.0".to_string(),
        method: RpcMethod::Unproxied(body.to_string()),
    };
    match dispatch(req, &t) {
        Step::Forward(UpstreamBody::Verbatim(b)) => assert_eq!(b, body),
        _ => panic!("expected a verbatim forward"),
    }
    let response = "{\"jsonrpc\":\"2.0\",\"result\":123,\"id\":3}";
    match finish_forward(Ok(response.to_string())) {
        Ok(Reply::Upstream(r)) => assert_eq!(r, response),
        _ => panic!("expected the upstream response"),
    }
}

#[test]
fn multi_account_queries_go_to_the_broker() {
    let t = table_with("A", 1, vec![]);
    let req = RpcRequest {
        id: 4,
        jsonrpc: "2.0".to_string(),
        method: RpcMethod::GetProgramAccounts("[\"P\"]".to_string()),
    };
    match dispatch(req, &t) {
        Step::Forward(UpstreamBody::Call { id, call: UpstreamCall::Forwarded { method, params } }) => {
            assert_eq!(id, 4);
            assert_eq!(method, ForwardedMethod::GetProgramAccounts);
            assert_eq!(params, "[\"P\"]");
        }
        _ => panic!("expected a forward"),
    }
    let req = RpcRequest {
        id: 6,
        jsonrpc: "2.0".to_string(),
        method: RpcMethod::GetSignaturesForAddress("[\"A\"]".to_string()),
    };
    match dispatch(req, &t) {
        Step::Forward(UpstreamBody::Call { id, call: UpstreamCall::Forwarded { method, .. } }) => {
            assert_eq!(id, 6);
            assert_eq!(method, ForwardedMethod::GetSignaturesForAddress);
        }
        _ => panic!("expected a forward"),
    }
}

#[test]
fn version_query_is_static() {
    let t: AccountTable = Table::new();
    let req = RpcRequest { id: 12, jsonrpc: "2.0".to_string(), method: RpcMethod::GetVersion };
    match dispatch(req, &t) {
        Step::Respond(Reply::Version(v)) => {
            assert_eq!(v.id, 12);
            assert_eq!(v.feature_set, 2891131721);
            assert_eq!(FEATURE_SET, 2891131721);
            assert_eq!(v.core_version, "1.16.7");
        }
        _ => panic!("expected the version"),
    }
}

#[test]
fn transport_failure_is_bad_gateway() {
    match finish_forward(Err("connection refused".to_string())) {
        Err(e) => {
            assert_eq!(e.status_code(), 502);
            assert!(matches!(e, ProxyError::Client(ref m) if m == "connection refused"));
        }
        _ => panic!("expected an error"),
    }
    assert_eq!(ProxyError::Database.status_code(), 500);
    assert_eq!(ProxyError::InternalServer.status_code(), 500);
}

#[test]
fn cached_reply_keeps_stored_fields() {
    let rec = AccountRecord {
        address: "A".to_string(),
        slot: 8,
        data: vec![4, 5],
        lamports: Some(100),
        owner: Some("Owner".to_string()),
        executable: Some(true),
        rent_epoch: Some(361),
    };
    let r = cached_reply(2, &rec);
    assert_eq!((r.id, r.slot, r.lamports, r.rent_epoch, r.executable), (2, 8, 100, 361, true));
    assert_eq!(r.owner, Some("Owner".to_string()));
    assert_eq!(r.data, vec![4, 5]);
}

#[test]
fn out_of_order_slot_update_is_served_from_cache() {
    let mut t: AccountTable = Table::new();
    let snapshot = vec![SnapshotAccount { address: "A".to_string(), data: vec![10] }];
    load_snapshot(&mut t, snapshot_batches(snapshot, 10));
    assert_eq!(t.get(&"A".to_string()).unwrap().slot, 10);
    let update = AccountNotification {
        address: "A".to_string(),
        slot: 5,
        data: Some(vec![5]),
        lamports: 1,
        owner: "O".to_string(),
        executable: false,
        rent_epoch: 0,
    };
    assert!(apply_notification(&mut t, update));
    let stored = t.get(&"A".to_string()).unwrap();
    assert_eq!((stored.slot, stored.data.clone()), (5, vec![5]));
    let mut broker_calls = 0;
    match dispatch(account_query(1, Some("A"), "[\"A\"]"), &t) {
        Step::Respond(Reply::CachedAccount(r)) => {
            assert_eq!(r.slot, 5);
            assert_eq!(r.data, vec![5]);
        }
        Step::Forward(_) => broker_calls += 1,
        _ => panic!("unexpected step"),
    }
    assert_eq!(broker_calls, 0);
}

#[test]
fn submissions_are_admitted_in_fifo_order() {
    let mut q = AdmissionQueue::new(16);
    let tickets: Vec<u64> = (0..4).map(|_| q.submit().unwrap()).collect();
    assert_eq!(tickets, vec![0, 1, 2, 3]);
    assert_eq!(q.waiting_count(), 4);
    assert_eq!(q.next_turn(GateOutcome::Admitted), Turn::Dispatch(0));
    assert_eq!(q.next_turn(GateOutcome::Failed), Turn::Fail(1));
    assert_eq!(q.submit(), Ok(4));
    assert_eq!(q.next_turn(GateOutcome::Admitted), Turn::Dispatch(2));
    assert_eq!(q.next_turn(GateOutcome::Admitted), Turn::Dispatch(3));
    assert_eq!(q.next_turn(GateOutcome::Admitted), Turn::Dispatch(4));
    assert_eq!(q.next_turn(GateOutcome::Admitted), Turn::Idle);
    assert_eq!(q.submitted_count(), 5);
    assert_eq!(q.waiting_count(), 0);
}

#[test]
fn full_queue_refuses_submissions() {
    let mut q = AdmissionQueue::new(2);
    assert_eq!(q.submit(), Ok(0));
    assert_eq!(q.submit(), Ok(1));
    assert_eq!(q.submit(), Err(SubmitError::Busy));
    assert_eq!(q.submitted_count(), 2);
    assert_eq!(q.next_turn(GateOutcome::Admitted), Turn::Dispatch(0));
    assert_eq!(q.submit(), Ok(2));
    let mut none = AdmissionQueue::new(0);
    assert_eq!(none.submit(), Err(SubmitError::Busy));
    assert_eq!(none.next_turn(GateOutcome::Failed), Turn::Idle);
}

#[test]
fn outbound_requests_carry_their_arguments() {
    match get_blocks_request(100, Some(200)) {
        UpstreamBody::Call { call: UpstreamCall::GetBlocks { start_slot, end_slot }, .. } => {
            assert_eq!((start_slot, end_slot), (100, Some(200)));
        }
        _ => panic!("expected getBlocks"),
    }
    match get_block_request(7) {
        UpstreamBody::Call { call: UpstreamCall::GetBlock { slot, details }, .. } => {
            assert_eq!((slot, details), (7, TransactionDetails::Full));
        }
        _ => panic!("expected getBlock"),
    }
    match get_block_accounts_request(8) {
        UpstreamBody::Call { call: UpstreamCall::GetBlock { slot, details }, .. } => {
            assert_eq!((slot, details), (8, TransactionDetails::Accounts));
        }
        _ => panic!("expected getBlock"),
    }
    match get_transaction_request("sig".to_string()) {
        UpstreamBody::Call { call: UpstreamCall::GetTransaction { signature }, .. } => {
            assert_eq!(signature, "sig");
        }
        _ => panic!("expected getTransaction"),
    }
}

#[test]
fn reply_error_wins_over_result() {
    assert!(matches!(
        reply_result(Some("{\"code\":-32000}".to_string()), Some("1".to_string())),
        Err(ReplyError::Upstream(ref e)) if e == "{\"code\":-32000}"
    ));
    assert!(matches!(reply_result(None, Some("1".to_string())), Ok(ref v) if v == "1"));
    assert!(matches!(reply_result(None, None), Err(ReplyError::MissingResult)));
}

#[test]
fn mock_fork_graph_orders_slots() {
    let g = MockForkGraph {};
    assert_eq!(g.relationship(1, 2), BlockRelation::Ancestor);
    assert_eq!(g.relationship(2, 2), BlockRelation::Equal);
    assert_eq!(g.relationship(3, 2), BlockRelation::Descendant);
    let cb = MockBankCallback {};
    assert_eq!(cb.account_matches_owners(&"A".to_string(), &vec!["B".to_string()]), None);
    assert!(cb.get_account_shared_data(&"A".to_string()).is_none());
    cb.add_builtin_account(&"system_program".to_string(), &"1111".to_string());
}
