use chat_server::channel_actor::{ChannelActor, ChannelCommand, ChannelReply};
use chat_server::channel::Channel;
use chat_server::errors::Error;
use chat_server::registry_actor::RegistryActor;
use chat_server::server_actor::ServerActor;
use chat_server::websocket::{
    ClientMessage, SendAction, SendEvent, SendMessageFlow, ServerMessage, SESSION_CHANNEL_ID,
};

/// Runs one `SendMessage` through the flow against in-process actor states,
/// and returns the delivered (connection, frame) pairs.
fn run_send(
    dir: &mut ServerActor<()>,
    reg: &mut RegistryActor<usize>,
    channels: &mut Vec<ChannelActor>,
    connection_id: u128,
    user: &str,
    content: &str,
) -> (Result<(), Error>, Vec<(u128, ServerMessage)>) {
    let mut out = Vec::new();
    let mut chan: Option<usize> = None;
    let (mut flow, mut action) = SendMessageFlow::start(
        connection_id,
        ClientMessage::SendMessage { user: user.to_string(), content: content.to_string() },
    );
    loop {
        let event = match action {
            SendAction::BindUser { connection_id, user } => SendEvent::UserBound(dir.bind_user(connection_id, user)),
            SendAction::GetChannel { channel_id } => {
                let n = channels.len();
                if reg.get_or_create(channel_id, || n) {
                    let mut a = ChannelActor::new(channel_id);
                    a.on_start(Channel::new(channel_id, Channel::default_name(channel_id)));
                    channels.push(a);
                }
                chan = reg.get_channel(channel_id).copied();
                SendEvent::ChannelFound(Ok(()))
            }
            SendAction::AddMessage { user, content } => {
                match channels[chan.unwrap()].handle_message(ChannelCommand::AddMessage { user, content }) {
                    ChannelReply::AddMessage(r) => SendEvent::MessageAdded(r),
                    _ => panic!("wrong reply"),
                }
            }
            SendAction::GetMembers => match channels[chan.unwrap()].handle_message(ChannelCommand::GetChannelUsers) {
                ChannelReply::GetChannelUsers(r) => SendEvent::Members(r),
                _ => panic!("wrong reply"),
            },
            SendAction::Publish { users, message } => {
                for c in dir.publish_targets(&users) {
                    out.push((c, message.clone()));
                }
                SendEvent::Published(Ok(()))
            }
            SendAction::Done(r) => return (r, out),
        };
        let next = flow.step(event);
        flow = next.0;
        action = next.1;
    }
}

#[test]
fn alice_and_bob_both_receive_and_unbound_connection_does_not() {
    let mut dir: ServerActor<()> = ServerActor::new();
    let mut reg: RegistryActor<usize> = RegistryActor::new();
    let mut channels = Vec::new();
    dir.register_as(1, ());
    dir.register_as(2, ());
    dir.register_as(3, ());
    let (r, _) = run_send(&mut dir, &mut reg, &mut channels, 2, "bob", "hey");
    assert_eq!(r, Ok(()));
    let (r, out) = run_send(&mut dir, &mut reg, &mut channels, 1, "alice", "hello");
    assert_eq!(r, Ok(()));
    let mut ids: Vec<u128> = out.iter().map(|(c, _)| *c).collect();
    ids.sort();
    assert_eq!(ids, vec![1, 2]);
    for (_, frame) in &out {
        match frame {
            ServerMessage::ChatMessage(m) => {
                assert_eq!(m.sender, "alice");
                assert_eq!(m.content, "hello");
                assert_eq!(m.channel_id, SESSION_CHANNEL_ID);
            }
            ServerMessage::InvalidCommand => panic!("expected a chat message"),
        }
    }
    assert_eq!(channels.len(), 1);
}

#[test]
fn send_from_unregistered_connection_stops_at_bind() {
    let mut dir: ServerActor<()> = ServerActor::new();
    let mut reg: RegistryActor<usize> = RegistryActor::new();
    let mut channels = Vec::new();
    let (r, out) = run_send(&mut dir, &mut reg, &mut channels, 5, "alice", "hello");
    assert_eq!(r, Err(Error::ConnectionNotFound));
    assert!(out.is_empty());
    assert!(channels.is_empty());
}

#[test]
fn flow_start_binds_the_author() {
    let (flow, action) = SendMessageFlow::start(
        7,
        ClientMessage::SendMessage { user: "alice".to_string(), content: "x".to_string() },
    );
    assert!(matches!(flow, SendMessageFlow::Binding { .. }));
    match action {
        SendAction::BindUser { connection_id, user } => {
            assert_eq!(connection_id, 7);
            assert_eq!(user, "alice");
        }
        _ => panic!("expected a bind"),
    }
}

#[test]
fn flow_stops_on_errors_and_stray_answers() {
    let (flow, _) = SendMessageFlow::start(
        7,
        ClientMessage::SendMessage { user: "a".to_string(), content: "x".to_string() },
    );
    let (flow, action) = flow.step(SendEvent::UserBound(Ok(())));
    match action {
        SendAction::GetChannel { channel_id } => assert_eq!(channel_id, SESSION_CHANNEL_ID),
        _ => panic!("expected a channel lookup"),
    }
    let (flow, action) = flow.step(SendEvent::ChannelFound(Err(Error::ActorUnexpectedTermination)));
    assert!(matches!(flow, SendMessageFlow::Finished));
    assert!(matches!(action, SendAction::Done(Err(Error::ActorUnexpectedTermination))));
    let (_, action) = flow.step(SendEvent::Published(Ok(())));
    assert!(matches!(action, SendAction::Done(Err(Error::Generic(_)))));
}
