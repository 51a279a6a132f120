use chat_server::channel::{Channel, LoadStep};
use chat_server::channel_actor::{ChannelActor, ChannelCommand, ChannelReply};
use chat_server::errors::Error;
use chat_server::registry_actor::RegistryActor;

#[test]
fn author_becomes_the_only_member() {
    let mut c = Channel::new(1, "general".to_string());
    let m = c.add_message("u".to_string(), "hi".to_string()).unwrap();
    assert_eq!(m.sender, "u");
    assert_eq!(m.content, "hi");
    assert_eq!(m.channel_id, 1);
    assert_eq!(c.member_list(), vec!["u".to_string()]);
    c.add_message("u".to_string(), "again".to_string()).unwrap();
    assert_eq!(c.member_list(), vec!["u".to_string()]);
    assert!(c.has_member(&"u".to_string()));
    assert!(!c.has_member(&"v".to_string()));
}

#[test]
fn empty_content_is_accepted() {
    let mut c = Channel::new(1, String::new());
    let m = c.add_message("u".to_string(), String::new()).unwrap();
    assert_eq!(m.content, "");
}

#[test]
fn messages_get_distinct_identities() {
    let mut c = Channel::new(1, String::new());
    let a = c.add_message("u".to_string(), "a".to_string()).unwrap();
    let b = c.add_message("v".to_string(), "b".to_string()).unwrap();
    assert_ne!(a.id, b.id);
    assert!(a.created > 0);
}

#[test]
fn with_members_keeps_each_once() {
    let c = Channel::with_members(
        2,
        "n".to_string(),
        "d".to_string(),
        vec!["a".to_string(), "b".to_string(), "a".to_string()],
    );
    assert_eq!(c.member_list(), vec!["a".to_string(), "b".to_string()]);
    assert_eq!(c.description, "d");
}

#[test]
fn names_and_paths_use_lower_hex() {
    let id: u128 = 0x13cdc63e_55e2_403b_9ac6_4aa7c2155bf4;
    assert_eq!(Channel::default_name(id), "Channel #13cdc63e55e2403b9ac64aa7c2155bf4");
    assert_eq!(Channel::default_name(255), "Channel #ff");
    assert_eq!(Channel::default_name(0), "Channel #0");
    let c = Channel::new(0xab, String::new());
    assert_eq!(c.get_info_path(), "data/channels/info/ab");
    assert_eq!(c.get_data_path(), "data/channels/data//ab");
}

#[test]
fn load_outcomes() {
    match Channel::load_or_create(3, Ok(Channel::new(3, "kept".to_string()))) {
        LoadStep::Loaded(c) => assert_eq!(c.name, "kept"),
        _ => panic!("expected the loaded channel"),
    }
    match Channel::load_or_create(0x1f, Err(Error::ChannelNotFound)) {
        LoadStep::Create(c) => {
            assert_eq!(c.id, 0x1f);
            assert_eq!(c.name, "Channel #1f");
            assert!(c.member_list().is_empty());
        }
        _ => panic!("expected a new channel"),
    }
    match Channel::load_or_create(3, Err(Error::Storage("corrupt".to_string()))) {
        LoadStep::Failed(e) => assert_eq!(e, Error::Storage("corrupt".to_string())),
        _ => panic!("expected the error"),
    }
}

#[test]
fn channel_actor_before_start_answers_not_found() {
    let mut a = ChannelActor::new(4);
    match a.handle_message(ChannelCommand::GetChannelUsers) {
        ChannelReply::GetChannelUsers(r) => assert_eq!(r.unwrap_err(), Error::ChannelNotFound),
        _ => panic!("wrong reply"),
    }
    match a.handle_message(ChannelCommand::AddMessage { user: "u".to_string(), content: "x".to_string() }) {
        ChannelReply::AddMessage(r) => assert_eq!(r.unwrap_err(), Error::ChannelNotFound),
        _ => panic!("wrong reply"),
    }
}

#[test]
fn channel_actor_records_authors() {
    let mut a = ChannelActor::new(4);
    a.on_start(Channel::new(4, "c".to_string()));
    match a.handle_message(ChannelCommand::AddMessage { user: "u".to_string(), content: "hi".to_string() }) {
        ChannelReply::AddMessage(r) => assert_eq!(r.unwrap().sender, "u"),
        _ => panic!("wrong reply"),
    }
    match a.handle_message(ChannelCommand::GetChannelUsers) {
        ChannelReply::GetChannelUsers(r) => assert_eq!(r.unwrap(), vec!["u".to_string()]),
        _ => panic!("wrong reply"),
    }
}

#[test]
fn registry_creates_each_channel_once() {
    let mut r: RegistryActor<u32> = RegistryActor::new();
    let mut made = 0u32;
    assert!(r.get_or_create(9, || {
        made += 1;
        100
    }));
    assert!(!r.get_or_create(9, || {
        made += 1;
        200
    }));
    assert_eq!(made, 1);
    assert_eq!(r.get_channel(9), Some(&100));
    assert_eq!(r.get_channel(8), None);
    assert!(r.get_or_create(8, || 300));
    assert_eq!(r.get_channel(8), Some(&300));
    assert_eq!(r.get_channel(9), Some(&100));
}

#[test]
fn channel_actor_keeps_name_and_description() {
    let mut a = ChannelActor::new(6);
    a.on_start(Channel::with_members(6, "n".to_string(), "d".to_string(), vec![]));
    let _ = a.handle_message(ChannelCommand::AddMessage { user: "u".to_string(), content: "x".to_string() });
    let c = a.channel.as_ref().unwrap();
    assert_eq!(c.name, "n");
    assert_eq!(c.description, "d");
    assert_eq!(c.id, 6);
}
