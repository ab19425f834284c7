use std::time::Duration;

use jumpy::networking::{
    client_connected, client_handle_block_messages, handle_server_events, setup_synced_queries,
    BlockMessage, BuildStep, ChannelConfig, NetChannels, NetPlugin, NetSystem, NetworkingPlugin,
    RunCondition, ServerAction, ServerEvent, StringCache, SyncedComponent, UnknownMessage, PROTOCOL_ID,
};

fn cache(names: &[&str]) -> StringCache {
    StringCache { strings: names.iter().map(|name| name.to_string()).collect() }
}

#[test]
fn channel_numbers() {
    assert_eq!(PROTOCOL_ID, 0);
    assert_eq!(u8::from(NetChannels::Commands), 0);
    assert_eq!(u8::from(NetChannels::FrameSync), 1);
    assert_eq!(u8::from(NetChannels::PlayerInput), 2);
    assert_eq!(u8::from(NetChannels::Block), 3);
}

#[test]
fn channel_configs_are_those_of_the_transport_with_changes() {
    let configs = NetChannels::get_config();
    assert_eq!(configs.len(), 4);
    match configs[0] {
        ChannelConfig::Reliable(config) => {
            assert_eq!(config.channel_id, 0);
            assert_eq!(config.max_message_size, 3500);
            assert_eq!(config.message_resend_time, 0);
            assert_eq!(config.packet_budget, 6000);
            assert_eq!(config.sent_packet_buffer_size, 1024);
            assert_eq!(config.message_send_queue_size, 1024);
            assert_eq!(config.message_receive_queue_size, 1024);
        }
        other => panic!("unexpected {:?}", other),
    }
    match configs[1] {
        ChannelConfig::Unreliable(config) => {
            assert_eq!(config.channel_id, 1);
            assert_eq!(config.packet_budget, 10000);
            assert_eq!(config.max_message_size, 7500);
            assert_eq!(config.message_send_queue_size, 256);
            assert_eq!(config.message_receive_queue_size, 256);
        }
        other => panic!("unexpected {:?}", other),
    }
    match configs[2] {
        ChannelConfig::Unreliable(config) => {
            assert_eq!(config.channel_id, 2);
            assert_eq!(config.packet_budget, 6000);
            assert_eq!(config.max_message_size, 3000);
        }
        other => panic!("unexpected {:?}", other),
    }
    match configs[3] {
        ChannelConfig::Block(config) => {
            assert_eq!(config.channel_id, 3);
            assert_eq!(config.slice_size, 400);
            assert_eq!(config.resend_time, Duration::from_millis(300).as_nanos());
            assert_eq!(config.sent_packet_buffer_size, 256);
            assert_eq!(config.packet_budget, 8192);
            assert_eq!(config.max_message_size, 262144);
            assert_eq!(config.message_send_queue_size, 8);
        }
        other => panic!("unexpected {:?}", other),
    }
}

#[test]
fn block_message_bytes() {
    let bytes = cache(&["ab", "", "\u{e9}"]).to_message();
    assert_eq!(bytes, vec![0, 3, 2, 97, 98, 0, 2, 0xc3, 0xa9]);
    match BlockMessage::from_bytes(&bytes) {
        Some(BlockMessage::SetTypeNameCache(read)) => {
            assert_eq!(read.strings, vec!["ab".to_string(), String::new(), "\u{e9}".to_string()])
        }
        None => panic!("not understood"),
    }
}

#[test]
fn long_names_have_long_lengths() {
    let name = "x".repeat(300);
    let bytes = cache(&[name.as_str()]).to_message();
    assert_eq!(bytes[0..4], [0, 1, 172, 2]);
    assert_eq!(bytes.len(), 304);
}

#[test]
fn other_bytes_are_no_block_messages() {
    assert!(BlockMessage::from_bytes(&vec![]).is_none());
    assert!(BlockMessage::from_bytes(&vec![1, 0]).is_none());
    assert!(BlockMessage::from_bytes(&vec![0, 1, 5, 97]).is_none());
    assert!(BlockMessage::from_bytes(&vec![0, 1, 1, 0xff]).is_none());
}

#[test]
fn server_greets_and_forgets_clients() {
    let events = vec![
        ServerEvent::ClientConnected(7),
        ServerEvent::ClientDisconnected(4),
        ServerEvent::ClientConnected(9),
    ];
    let actions = handle_server_events(&events, &cache(&["a"]));
    assert_eq!(actions.len(), 5);
    assert!(matches!(actions[0], ServerAction::AddClient(7)));
    match &actions[1] {
        ServerAction::SendMessage { client, channel, message } => {
            assert_eq!(*client, 7);
            assert_eq!(*channel, NetChannels::Block);
            assert_eq!(*message, vec![0, 1, 1, 97]);
        }
        _ => panic!("expected a message"),
    }
    assert!(matches!(actions[2], ServerAction::RemoveClient(4)));
    assert!(matches!(actions[3], ServerAction::AddClient(9)));
    assert!(matches!(&actions[4], ServerAction::SendMessage { client: 9, .. }));
    assert!(handle_server_events(&vec![], &cache(&["a"])).is_empty());
}

#[test]
fn client_knows_what_the_server_sent() {
    let names = cache(&["Transform", "PlayerIdx"]);
    let actions = handle_server_events(&vec![ServerEvent::ClientConnected(1)], &names);
    let mut messages = vec![cache(&["old"]).to_message()];
    for action in actions {
        if let ServerAction::SendMessage { message, .. } = action {
            messages.push(message);
        }
    }
    let mut known = cache(&[]);
    assert_eq!(client_handle_block_messages(&mut known, &messages), Ok(()));
    assert_eq!(known.strings, names.strings);
}

#[test]
fn client_stops_at_an_unknown_message() {
    let messages = vec![cache(&["first"]).to_message(), vec![5], cache(&["last"]).to_message()];
    let mut known = cache(&[]);
    let result = client_handle_block_messages(&mut known, &messages);
    assert_eq!(result, Err(UnknownMessage { index: 1 }));
    assert_eq!(known.strings, vec!["first".to_string()]);

    let mut kept = cache(&["kept"]);
    assert_eq!(client_handle_block_messages(&mut kept, &vec![]), Ok(()));
    assert_eq!(kept.strings, vec!["kept".to_string()]);
}

#[test]
fn connected_only_with_a_connected_client() {
    assert!(client_connected(Some(true)));
    assert!(!client_connected(Some(false)));
    assert!(!client_connected(None));
}

#[test]
fn players_are_synchronised() {
    let mut queries = Vec::new();
    let components = setup_synced_queries(&mut queries);
    assert_eq!(
        components,
        vec![
            SyncedComponent::PlayerIdx,
            SyncedComponent::Transform,
            SyncedComponent::AnimationBankSprite,
        ]
    );
    assert_eq!(queries.len(), 1);
    assert_eq!(queries[0].fetches, vec![SyncedComponent::PlayerIdx, SyncedComponent::Transform]);
    assert!(queries[0].prune);
}

#[test]
fn run_conditions() {
    assert!(RunCondition::Always.is_met(false, None));
    assert!(RunCondition::ServerExists.is_met(true, None));
    assert!(!RunCondition::ServerExists.is_met(false, Some(true)));
    assert!(RunCondition::ClientConnected.is_met(false, Some(true)));
    assert!(!RunCondition::ClientConnected.is_met(true, Some(false)));
    assert!(!RunCondition::ClientConnected.is_met(true, None));
}

#[test]
fn plugin_steps() {
    let plain = NetworkingPlugin.build(false);
    assert_eq!(
        plain,
        vec![
            BuildStep::AddPlugin(NetPlugin::FrameSync),
            BuildStep::AddPlugin(NetPlugin::Serialization),
            BuildStep::AddPlugin(NetPlugin::Commands),
            BuildStep::AddPlugin(NetPlugin::RenetClient),
            BuildStep::AddPlugin(NetPlugin::RenetServer),
            BuildStep::AddSystem {
                system: NetSystem::HandleServerEvents,
                run_if: RunCondition::ServerExists,
            },
            BuildStep::AddSystem { system: NetSystem::LogRenetErrors, run_if: RunCondition::Always },
            BuildStep::AddSystem {
                system: NetSystem::ClientHandleBlockMessages,
                run_if: RunCondition::ClientConnected,
            },
            BuildStep::SetupSyncedQueries,
        ]
    );
    let debug = NetworkingPlugin.build(true);
    assert_eq!(debug.len(), 10);
    assert_eq!(debug[..9], plain[..]);
    assert_eq!(debug[9], BuildStep::InsertServerVisualizer);
}
