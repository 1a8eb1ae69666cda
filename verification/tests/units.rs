use smsdk::catalog::{command_from_string, APICommand, TypedResponse};
use smsdk::config::SDKConfig;
use smsdk::dispatch::{APIClient, AttachmentFile};
use smsdk::error::SDKError;
use smsdk::frames::{build_socket_args, ArgValue, Param};
use smsdk::models::{Message, MessageType};
use smsdk::query::{build_query_string, QueryArg, QueryParam, QueryValue};
use smsdk::rest::{RegistrationType, RestSession};
use smsdk::splitter::{chunk_count, split_bytes};
use smsdk::text::{basename, join_colon, parse_dec, u64_to_dec};

#[test]
fn decimal_rendering_and_parsing_round_trip() {
    assert_eq!(u64_to_dec(0), "0");
    assert_eq!(u64_to_dec(7), "7");
    assert_eq!(u64_to_dec(10), "10");
    assert_eq!(u64_to_dec(51200), "51200");
    assert_eq!(u64_to_dec(u64::MAX), "18446744073709551615");

    assert_eq!(parse_dec("0"), Some(0));
    assert_eq!(parse_dec("51200"), Some(51200));
    assert_eq!(parse_dec("18446744073709551615"), Some(u64::MAX));
    // Not canonical or not a number at all.
    assert_eq!(parse_dec(""), None);
    assert_eq!(parse_dec("007"), None);
    assert_eq!(parse_dec("12a"), None);
    assert_eq!(parse_dec("-4"), None);
    // One past the largest value that fits.
    assert_eq!(parse_dec("18446744073709551616"), None);
}

#[test]
fn basename_takes_the_last_path_component() {
    assert_eq!(basename("/tmp/photos/cat.png"), "cat.png");
    assert_eq!(basename("cat.png"), "cat.png");
    assert_eq!(basename("/tmp/dir/"), "");
    assert_eq!(basename(""), "");
}

#[test]
fn join_colon_separates_each_pair() {
    assert_eq!(join_colon(&vec![]), "");
    assert_eq!(join_colon(&vec!["a.png".to_string()]), "a.png");
    assert_eq!(
        join_colon(&vec!["a.png".to_string(), "b.png".to_string()]),
        "a.png:b.png"
    );
}

#[test]
fn config_builders_normalise_urls() {
    let config = SDKConfig::default();
    assert_eq!(config.rest_base_url, "");
    assert_eq!(config.sock_base_url, "");
    assert_eq!(config.password, "toor");
    assert_eq!(config.timeout, 10);
    assert_eq!(config.chunk_size, 51200);
    assert!(config.use_rest);
    assert!(config.secure);

    let config = SDKConfig::default()
        .with_rest_url("https://host:8741/")
        .with_sock_url("wss://host:8740")
        .with_password("pw")
        .with_timeout(3)
        .with_chunk_size(64)
        .with_rest(false)
        .with_secure(false);
    assert_eq!(config.rest_base_url, "https://host:8741");
    assert_eq!(config.sock_base_url, "wss://host:8740/");
    assert_eq!(config.password(), "pw");
    assert_eq!(config.timeout, 3);
    assert_eq!(config.chunk_size, 64);
    assert!(!config.use_rest);
    assert!(!config.secure);

    assert_eq!(config.push_to_rest_url("data"), "https://host:8741/data");
    assert_eq!(
        config.push_to_sock_url("register?key=k"),
        "wss://host:8740//register?key=k"
    );
}

#[test]
fn command_strings_round_trip() {
    let all = [
        (APICommand::GetChats, "get-chats"),
        (APICommand::GetMessages, "get-messages"),
        (APICommand::GetConversation, "get-conversation"),
        (APICommand::GetName, "get-name"),
        (APICommand::GetAttachment, "get-attachment"),
        (APICommand::GetIcon, "get-icon"),
        (APICommand::GetPhotos, "get-photos"),
        (APICommand::GetPhoto, "get-photo"),
        (APICommand::SendMessage, "send-message"),
        (APICommand::SendTapback, "send-tapback"),
        (APICommand::DeleteChat, "delete-chat"),
        (APICommand::DeleteText, "delete-text"),
        (APICommand::AttachmentData, "attachment-data"),
        (APICommand::SendTyping, "send-typing"),
        (APICommand::BatteryStatus, "battery-status"),
        (APICommand::Typing, "typing"),
        (APICommand::NewMessage, "new-message"),
    ];
    for (command, name) in all {
        assert_eq!(command.command_string(), *name);
        assert_eq!(command_from_string(name), Some(command));
    }
    assert_eq!(command_from_string("get_chats"), None);
    assert_eq!(command_from_string(""), None);
}

#[test]
fn catalog_entries_match_the_declarations() {
    let chats = APICommand::GetChats.catalog_entry();
    assert!(chats.rest && chats.socket && !chats.data_return && !chats.multipart);
    assert_eq!(chats.subdir.as_deref(), Some("requests"));
    assert_eq!(chats.return_type, Some(TypedResponse::Conversations));
    assert!(chats.has_parameters);

    // The query commands call under `requests`, the byte-blob fetches
    // under `data`, the sending commands under `send`.
    for command in [
        APICommand::GetMessages,
        APICommand::GetConversation,
        APICommand::GetName,
    ] {
        assert_eq!(command.catalog_entry().subdir.as_deref(), Some("requests"));
    }
    for command in [APICommand::GetIcon, APICommand::GetPhotos, APICommand::GetPhoto] {
        assert_eq!(command.catalog_entry().subdir.as_deref(), Some("data"));
    }
    for command in [
        APICommand::SendTapback,
        APICommand::DeleteChat,
        APICommand::DeleteText,
        APICommand::SendTyping,
    ] {
        assert_eq!(command.catalog_entry().subdir.as_deref(), Some("send"));
    }

    let attachment = APICommand::GetAttachment.catalog_entry();
    assert!(attachment.data_return);
    assert_eq!(attachment.subdir.as_deref(), Some("data"));
    assert_eq!(attachment.return_type, None);

    let send = APICommand::SendMessage.catalog_entry();
    assert!(send.multipart);
    assert_eq!(send.subdir.as_deref(), Some("send"));
    assert_eq!(send.files_key.as_deref(), Some("attachments"));

    let upload = APICommand::AttachmentData.catalog_entry();
    assert!(!upload.rest && upload.socket);
    assert_eq!(upload.subdir, None);

    let mut entry = APICommand::GetChats.catalog_entry();
    entry.reset();
    assert!(entry.rest && entry.socket);
    assert!(!entry.data_return && !entry.multipart && !entry.has_parameters);
    assert_eq!(entry.files_key, None);
    assert_eq!(entry.return_type, None);
    // The subdirectory is the one field reset keeps.
    assert_eq!(entry.subdir.as_deref(), Some("requests"));

    assert!(APICommand::Typing.is_notification());
    assert!(!APICommand::GetChats.is_notification());
}

#[test]
fn chunk_count_is_ceiling_division() {
    assert_eq!(chunk_count(0, 100), 0);
    assert_eq!(chunk_count(1, 100), 1);
    assert_eq!(chunk_count(100, 100), 1);
    assert_eq!(chunk_count(101, 100), 2);
    assert_eq!(chunk_count(250, 100), 3);
}

#[test]
fn split_bytes_covers_input_exactly() {
    let empty = split_bytes(&[], 4);
    assert_eq!(empty.len(), 0);

    let exact = split_bytes(&[1, 2, 3, 4, 5, 6], 3);
    assert_eq!(exact, vec![vec![1, 2, 3], vec![4, 5, 6]]);

    let ragged = split_bytes(&[1, 2, 3, 4, 5], 2);
    assert_eq!(ragged, vec![vec![1, 2], vec![3, 4], vec![5]]);
}

#[test]
fn socket_args_skip_absent_optionals() {
    let args = build_socket_args(vec![
        Param {
            name: "chat".to_string(),
            value: Some(ArgValue::Str("c1".to_string())),
        },
        Param {
            name: "num_messages".to_string(),
            value: None,
        },
        Param {
            name: "read_messages".to_string(),
            value: Some(ArgValue::Bool(true)),
        },
    ]);
    assert_eq!(args.len(), 2);
    assert_eq!(args[0].name, "chat");
    assert_eq!(args[1].name, "read_messages");
    assert!(matches!(args[1].value, ArgValue::Bool(true)));
}

#[test]
fn send_message_plan_embeds_metadata_before_any_chunk() {
    let client = APIClient::new(SDKConfig::default().with_chunk_size(4).with_rest(false));
    let plan = client.plan_send_message(
        "chat9".to_string(),
        None,
        Some("subject line".to_string()),
        vec![
            AttachmentFile {
                path: "a/first.bin".to_string(),
                bytes: vec![9; 10],
            },
            AttachmentFile {
                path: "second.bin".to_string(),
                bytes: Vec::new(),
            },
        ],
        Some(vec!["p/x.png".to_string(), "p/y.png".to_string()]),
    );
    assert_eq!(plan.params.len(), 5);
    assert_eq!(plan.params[0].name, "chat");
    assert_eq!(plan.params[1].name, "text");
    assert!(plan.params[1].value.is_none());
    assert_eq!(plan.params[2].name, "subject");
    assert_eq!(plan.params[3].name, "attachments");
    match &plan.params[3].value {
        Some(ArgValue::Infos(infos)) => {
            assert_eq!(infos.len(), 2);
            assert_eq!(infos[0].size, 3);
            assert_eq!(infos[0].filename, "first.bin");
            assert_eq!(infos[1].size, 0);
            assert_eq!(infos[1].filename, "second.bin");
            assert_ne!(infos[0].id, infos[1].id);
            assert!(!infos[0].id.is_empty());
        }
        _ => panic!("the attachments parameter must carry the metadata"),
    }
    match &plan.params[4].value {
        Some(ArgValue::Str(s)) => assert_eq!(s, "p/x.png:p/y.png"),
        _ => panic!("the photos parameter must carry the joined paths"),
    }
    // An unreadable (empty) attachment contributes no chunks but keeps
    // its metadata: the upload continues.
    assert_eq!(plan.uploads.len(), 2);
    assert_eq!(plan.uploads[0].chunks.len(), 3);
    assert_eq!(plan.uploads[1].chunks.len(), 0);
}

#[test]
fn registration_urls_are_exact() {
    let session = RestSession::new(SDKConfig::default().with_sock_url("wss://host:8740"));
    assert_eq!(
        session.register_socket_url("k1", "h1", RegistrationType::HostClient),
        "wss://host:8740//register?key=k1&host_key=h1&reg_type=hostclient"
    );
    assert_eq!(
        session.register_socket_url("k1", "h1", RegistrationType::Lobby),
        "wss://host:8740//register?key=k1&host_key=h1&reg_type=lobby"
    );
    assert_eq!(
        session.remove_registration_url("id1", "k1", "h1"),
        "wss://host:8740//remove?id=id1&key=k1&host_key=h1"
    );
}

#[test]
fn query_values_render_booleans_and_numbers() {
    let qs = build_query_string(&vec![
        QueryParam {
            name: "read_messages".to_string(),
            arg: QueryArg::Opt(QueryValue::Bool(true)),
        },
        QueryParam {
            name: "tapback".to_string(),
            arg: QueryArg::Req(QueryValue::UInt(0)),
        },
    ]);
    assert_eq!(qs, "?read_messages=true&tapback=0");
}

#[test]
fn error_messages_name_each_failure() {
    assert_eq!(SDKError::UnAuthenticated.message(), "Failed to authenticate");
    assert_eq!(
        SDKError::MangledReceive.message(),
        "MPSC Receiver ran into an error while trying to receive"
    );
    assert_eq!(
        SDKError::ConfigBlocked.message(),
        "This function is not allowed by the current SDK Configuration"
    );
    assert_eq!(
        SDKError::ImproperDataFormat.message(),
        "The data json was sent in an improper format"
    );
}

#[test]
fn typing_and_idle_records() {
    let typing = Message::typing("chat3");
    assert_eq!(typing.message_type, MessageType::Typing);
    assert_eq!(typing.chat_identifier.as_deref(), Some("chat3"));
    assert_eq!(typing.guid, "");
    assert!(typing.imessage);
    assert!(!typing.is_from_me);
    assert!(typing.attachments.is_empty());
    assert_eq!(typing.date, 0);
    assert_eq!(typing.date_read, None);
    assert_eq!(typing.sender, None);

    let idle = Message::idle("chat3");
    assert_eq!(idle.message_type, MessageType::Idle);
    assert_eq!(idle.chat_identifier.as_deref(), Some("chat3"));
    assert_eq!(idle.text, "");

    assert_eq!(MessageType::default(), MessageType::Normal);
}
