use smsdk::assembler::{ChunkAssembler, ChunkPayload, FeedResult};
use smsdk::catalog::{APICommand, CommandConfig};
use smsdk::config::SDKConfig;
use smsdk::correlation::{PendingTable, RouteOutcome};
use smsdk::dispatch::{plan_invoke, APIClient, AttachmentFile, TransportPlan};
use smsdk::error::SDKError;
use smsdk::frames::{ArgValue, Envelope, Param};
use smsdk::query::{QueryArg, QueryParam, QueryValue};
use smsdk::rest::{AuthStep, RestSession};
use base64::Engine;

fn make_client(use_rest: bool) -> APIClient {
    APIClient::new(
        SDKConfig::default()
            .with_rest_url("https://host:8741")
            .with_sock_url("wss://host:8740")
            .with_password("secret")
            .with_rest(use_rest)
            .with_chunk_size(100),
    )
}

#[test]
fn blocked_command_yields_config_blocked_without_io() {
    // A catalog entry that forbids both transports: the plan alone decides,
    // before any transport is touched.
    let entry = CommandConfig {
        subdir: None,
        rest: false,
        socket: false,
        data_return: false,
        multipart: false,
        files_key: None,
        return_type: None,
        has_parameters: true,
    };
    let plan = plan_invoke(&entry, true);
    assert_eq!(plan, TransportPlan::Blocked);
    assert_eq!(plan.error(), Some(SDKError::ConfigBlocked));

    // A socket-only command stays eligible even for a REST-preferring
    // client, and a REST call of it is never attempted.
    let client = make_client(true);
    assert_eq!(
        client.plan_invoke(&APICommand::AttachmentData),
        TransportPlan::Socket
    );

    // A receive-only command resolves to a no-op without contacting
    // either transport.
    assert_eq!(client.plan_invoke(&APICommand::Typing), TransportPlan::NoOp);
    assert_eq!(
        client.plan_invoke(&APICommand::GetChats),
        TransportPlan::Rest
    );

    let socket_client = make_client(false);
    assert_eq!(
        socket_client.plan_invoke(&APICommand::GetChats),
        TransportPlan::Socket
    );
}

#[test]
fn query_string_omits_absent_and_empty_values() {
    let params = vec![
        QueryParam {
            name: "a".to_string(),
            arg: QueryArg::Opt(QueryValue::UInt(5)),
        },
        QueryParam {
            name: "b".to_string(),
            arg: QueryArg::Absent,
        },
        QueryParam {
            name: "c".to_string(),
            arg: QueryArg::Req(QueryValue::Text(String::new())),
        },
    ];
    let qs = smsdk::query::build_query_string(&params);
    assert_eq!(qs, "?a=5&c");

    let session = RestSession::new(SDKConfig::default().with_rest_url("https://host:8741"));
    let url = session.query_url("requests", &params);
    assert_eq!(url, "https://host:8741/requests?a=5&c");
}

#[test]
fn assembler_decodes_two_chunks_to_ab() {
    let mut assembly = ChunkAssembler::new();
    let first = ChunkPayload {
        data: Some("QQ==".to_string()),
        current: Some(1),
        total: Some(2),
    };
    match assembly.feed(&first) {
        FeedResult::Continue => {}
        _ => panic!("first chunk should continue the assembly"),
    }
    let second = ChunkPayload {
        data: Some("Qg==".to_string()),
        current: Some(2),
        total: Some(2),
    };
    match assembly.feed(&second) {
        FeedResult::Done(bytes) => assert_eq!(bytes, b"AB".to_vec()),
        _ => panic!("second chunk should complete the assembly"),
    }
}

#[test]
fn assembler_rejects_chunk_missing_total() {
    let mut assembly = ChunkAssembler::new();
    let chunk = ChunkPayload {
        data: Some("QQ==".to_string()),
        current: Some(1),
        total: None,
    };
    match assembly.feed(&chunk) {
        FeedResult::Failed(e) => assert_eq!(e, SDKError::ImproperDataFormat),
        _ => panic!("a chunk without a total must fail the assembly"),
    }
    // No partial output: the failure carries no bytes, and the assembly
    // recorded nothing.
    assert_eq!(assembly.received, 0);
    assert!(assembly.buf.is_empty());
}

#[test]
fn assembler_rejects_undecodable_data() {
    let mut assembly = ChunkAssembler::new();
    let chunk = ChunkPayload {
        data: Some("not base64 !!!".to_string()),
        current: Some(1),
        total: Some(1),
    };
    match assembly.feed(&chunk) {
        FeedResult::Failed(e) => assert_eq!(e, SDKError::ImproperDataFormat),
        _ => panic!("an undecodable chunk must fail the assembly"),
    }
}

#[test]
fn assembler_stream_end_outcomes() {
    let empty = ChunkAssembler::new();
    assert_eq!(empty.finish(), SDKError::MangledReceive);

    let mut partial = ChunkAssembler::new();
    let chunk = ChunkPayload {
        data: Some("QQ==".to_string()),
        current: Some(1),
        total: Some(3),
    };
    match partial.feed(&chunk) {
        FeedResult::Continue => {}
        _ => panic!("one chunk of three should continue"),
    }
    assert_eq!(partial.finish(), SDKError::ImproperDataFormat);
}

#[test]
fn splitter_produces_three_indexed_chunks_that_reassemble() {
    let bytes: Vec<u8> = (0..250u32).map(|i| (i % 251) as u8).collect();
    let client = make_client(false);
    let plan = client.plan_send_message(
        "chat1".to_string(),
        Some("here is a file".to_string()),
        None,
        vec![AttachmentFile {
            path: "/tmp/photos/cat.png".to_string(),
            bytes: bytes.clone(),
        }],
        None,
    );
    assert_eq!(plan.uploads.len(), 1);
    let upload = &plan.uploads[0];
    assert_eq!(upload.info.size, 3);
    assert_eq!(upload.info.filename, "cat.png");
    assert_eq!(upload.chunks.len(), 3);
    assert_eq!(upload.chunks[0].len(), 100);
    assert_eq!(upload.chunks[1].len(), 100);
    assert_eq!(upload.chunks[2].len(), 50);

    let requests =
        smsdk::splitter::attachment_requests(&upload.info.id, "msg-7", &upload.chunks);
    assert_eq!(requests.len(), 3);
    let mut reassembled: Vec<u8> = Vec::new();
    for (i, req) in requests.iter().enumerate() {
        assert!(matches!(req.command, APICommand::AttachmentData));
        assert_eq!(req.args.len(), 4);
        assert_eq!(req.args[0].name, "attachment_id");
        match &req.args[0].value {
            ArgValue::Str(s) => assert_eq!(s, &upload.info.id),
            _ => panic!("attachment_id must be text"),
        }
        assert_eq!(req.args[1].name, "message_id");
        match &req.args[1].value {
            ArgValue::Str(s) => assert_eq!(s, "msg-7"),
            _ => panic!("message_id must be text"),
        }
        assert_eq!(req.args[2].name, "index");
        match &req.args[2].value {
            ArgValue::UInt(n) => assert_eq!(*n, i as u64),
            _ => panic!("index must be an integer"),
        }
        assert_eq!(req.args[3].name, "data");
        match &req.args[3].value {
            ArgValue::Str(d) => {
                let decoded = base64::engine::general_purpose::STANDARD
                    .decode(d.as_bytes())
                    .expect("chunk data must be valid base64");
                reassembled.extend_from_slice(&decoded);
            }
            _ => panic!("data must be text"),
        }
    }
    assert_eq!(reassembled, bytes);
}

#[test]
fn concurrent_replies_never_cross() {
    let mut client = make_client(false);
    let (frame1, id1) = client.socket_call(
        &APICommand::GetName,
        vec![Param {
            name: "name".to_string(),
            value: Some(ArgValue::Str("me".to_string())),
        }],
        101,
    );
    let (frame2, id2) = client.socket_call(
        &APICommand::GetConversation,
        vec![Param {
            name: "chat_id".to_string(),
            value: Some(ArgValue::Str("c1".to_string())),
        }],
        202,
    );
    // An id is never reused while pending.
    assert_ne!(id1, id2);
    assert_ne!(frame1.id, frame2.id);

    // Replies arrive in the opposite order; each reaches only its own
    // waiter.
    let env2 = Envelope {
        id: frame2.id.clone(),
        command: APICommand::GetConversation,
        last: true,
    };
    assert_eq!(
        client.pending.route(&env2),
        RouteOutcome::Deliver {
            waiter: 202,
            removed: true
        }
    );
    let env1 = Envelope {
        id: frame1.id.clone(),
        command: APICommand::GetName,
        last: true,
    };
    assert_eq!(
        client.pending.route(&env1),
        RouteOutcome::Deliver {
            waiter: 101,
            removed: true
        }
    );
}

#[test]
fn chunked_reply_keeps_waiter_until_last() {
    let mut table = PendingTable::new();
    let id = table.register(7);
    let id_text = PendingTable::id_string(id);
    let more = Envelope {
        id: id_text.clone(),
        command: APICommand::GetAttachment,
        last: false,
    };
    assert_eq!(
        table.route(&more),
        RouteOutcome::Deliver {
            waiter: 7,
            removed: false
        }
    );
    let last = Envelope {
        id: id_text,
        command: APICommand::GetAttachment,
        last: true,
    };
    assert_eq!(
        table.route(&last),
        RouteOutcome::Deliver {
            waiter: 7,
            removed: true
        }
    );
}

#[test]
fn stale_id_after_timeout_is_unsolicited() {
    let mut table = PendingTable::new();
    let id = table.register(9);
    // The caller times out and removes its own entry.
    assert!(table.remove(id));
    // A later frame bearing the stale id is never handed to the dead
    // waiter.
    let stale = Envelope {
        id: PendingTable::id_string(id),
        command: APICommand::GetName,
        last: true,
    };
    assert_eq!(table.route(&stale), RouteOutcome::Unsolicited);
    // An empty id is unsolicited by definition.
    let unsolicited = Envelope {
        id: String::new(),
        command: APICommand::BatteryStatus,
        last: true,
    };
    assert_eq!(table.route(&unsolicited), RouteOutcome::Unsolicited);
    // The removed id is never reissued.
    let next = table.register(10);
    assert_ne!(next, id);
}

#[test]
fn authentication_happens_at_most_once() {
    let mut session = RestSession::new(
        SDKConfig::default()
            .with_rest_url("https://host:8741")
            .with_password("secret"),
    );
    assert_eq!(session.auth_step(), AuthStep::Authenticate);
    assert_eq!(
        session.auth_url(),
        "https://host:8741/requests?password=secret"
    );

    // The host denies: the session stays unauthenticated and the call
    // fails with UnAuthenticated.
    assert!(!RestSession::auth_granted("false"));
    assert_eq!(
        session.record_auth(false),
        Err(SDKError::UnAuthenticated)
    );
    assert_eq!(session.auth_step(), AuthStep::Authenticate);

    // The host grants: every later REST call skips authentication.
    assert!(RestSession::auth_granted("true"));
    assert!(!RestSession::auth_granted("gibberish"));
    assert_eq!(session.record_auth(true), Ok(()));
    assert_eq!(session.auth_step(), AuthStep::Skip);
    assert_eq!(session.record_auth(true), Ok(()));
    assert_eq!(session.auth_step(), AuthStep::Skip);

    // A session that does not use REST never authenticates at all.
    let socket_only = RestSession::new(SDKConfig::default().with_rest(false));
    assert_eq!(socket_only.auth_step(), AuthStep::Skip);
}
