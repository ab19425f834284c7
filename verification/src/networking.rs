//! The network layer: its channels, and what is done about the messages and events on them.

use vstd::prelude::*;

use crate::wire::{read_string_list, string_list_bytes, string_list_parts, texts, write_string_list};

verus! {

/// The version of the protocol.
pub const PROTOCOL_ID: u64 = 0;

/// The channels that peers talk on.
#[derive(Clone, Copy, Debug, PartialEq, Eq, Structural)]
pub enum NetChannels {
    Commands,
    FrameSync,
    PlayerInput,
    Block,
}

impl NetChannels {
    /// The number of the channel: its place in the list of channels.
    pub open spec fn number(self) -> u8 {
        match self {
            NetChannels::Commands => 0u8,
            NetChannels::FrameSync => 1u8,
            NetChannels::PlayerInput => 2u8,
            NetChannels::Block => 3u8,
        }
    }
}

impl From<NetChannels> for u8 {
    fn from(channel: NetChannels) -> (number: u8) {
        match channel {
            NetChannels::Commands => 0,
            NetChannels::FrameSync => 1,
            NetChannels::PlayerInput => 2,
            NetChannels::Block => 3,
        }
    }
}

impl vstd::std_specs::convert::FromSpecImpl<NetChannels> for u8 {
    open spec fn obeys_from_spec() -> bool {
        true
    }

    open spec fn from_spec(channel: NetChannels) -> u8 {
        channel.number()
    }
}

/// The settings of a channel on which messages arrive, and in order.
#[derive(Clone, Copy, Debug, PartialEq, Eq, Structural)]
pub struct ReliableChannelConfig {
    pub channel_id: u8,
    pub sent_packet_buffer_size: usize,
    pub message_send_queue_size: usize,
    pub message_receive_queue_size: usize,
    pub packet_budget: u64,
    pub max_message_size: u64,
    /// How long to wait before messages are sent again, in nanoseconds.
    pub message_resend_time: u128,
}

/// The settings of a channel on which messages may get lost.
#[derive(Clone, Copy, Debug, PartialEq, Eq, Structural)]
pub struct UnreliableChannelConfig {
    pub channel_id: u8,
    pub packet_budget: u64,
    pub max_message_size: u64,
    pub message_send_queue_size: usize,
    pub message_receive_queue_size: usize,
}

/// The settings of a channel for large messages, which are sent in slices.
#[derive(Clone, Copy, Debug, PartialEq, Eq, Structural)]
pub struct BlockChannelConfig {
    pub channel_id: u8,
    pub slice_size: usize,
    /// How long to wait before slices are sent again, in nanoseconds.
    pub resend_time: u128,
    pub sent_packet_buffer_size: usize,
    pub packet_budget: u64,
    pub max_message_size: u64,
    pub message_send_queue_size: usize,
}

/// The settings of a channel.
#[derive(Clone, Copy, Debug, PartialEq, Eq, Structural)]
pub enum ChannelConfig {
    Reliable(ReliableChannelConfig),
    Unreliable(UnreliableChannelConfig),
    Block(BlockChannelConfig),
}

/// `renet`'s `ReliableChannelConfig::default`: the settings that a reliable channel has unless they
/// are changed.
#[verifier::external_body]
fn default_reliable() -> (config: ReliableChannelConfig)
    ensures
        config == (ReliableChannelConfig {
            channel_id: 0,
            sent_packet_buffer_size: 1024,
            message_send_queue_size: 1024,
            message_receive_queue_size: 1024,
            packet_budget: 6000,
            max_message_size: 3000,
            message_resend_time: 200_000_000,
        }),
{
    let config = bevy_renet::renet::ReliableChannelConfig::default();
    ReliableChannelConfig {
        channel_id: config.channel_id,
        sent_packet_buffer_size: config.sent_packet_buffer_size,
        message_send_queue_size: config.message_send_queue_size,
        message_receive_queue_size: config.message_receive_queue_size,
        packet_budget: config.packet_budget,
        max_message_size: config.max_message_size,
        message_resend_time: config.message_resend_time.as_nanos(),
    }
}

/// `renet`'s `UnreliableChannelConfig::default`: the settings that an unreliable channel has unless
/// they are changed.
#[verifier::external_body]
fn default_unreliable() -> (config: UnreliableChannelConfig)
    ensures
        config == (UnreliableChannelConfig {
            channel_id: 1,
            packet_budget: 6000,
            max_message_size: 3000,
            message_send_queue_size: 256,
            message_receive_queue_size: 256,
        }),
{
    let config = bevy_renet::renet::UnreliableChannelConfig::default();
    UnreliableChannelConfig {
        channel_id: config.channel_id,
        packet_budget: config.packet_budget,
        max_message_size: config.max_message_size,
        message_send_queue_size: config.message_send_queue_size,
        message_receive_queue_size: config.message_receive_queue_size,
    }
}

/// `renet`'s `BlockChannelConfig::default`: the settings that a block channel has unless they are
/// changed.
#[verifier::external_body]
fn default_block() -> (config: BlockChannelConfig)
    ensures
        config == (BlockChannelConfig {
            channel_id: 2,
            slice_size: 400,
            resend_time: 300_000_000,
            sent_packet_buffer_size: 256,
            packet_budget: 8192,
            max_message_size: 262144,
            message_send_queue_size: 8,
        }),
{
    let config = bevy_renet::renet::BlockChannelConfig::default();
    BlockChannelConfig {
        channel_id: config.channel_id,
        slice_size: config.slice_size,
        resend_time: config.resend_time.as_nanos(),
        sent_packet_buffer_size: config.sent_packet_buffer_size,
        packet_budget: config.packet_budget,
        max_message_size: config.max_message_size,
        message_send_queue_size: config.message_send_queue_size,
    }
}

/// The channels and their settings.
///
/// Commands arrive and are resent at once. Frames are larger than usual messages, and may get lost
/// like the players' inputs. Blocks are as they are by default.
pub open spec fn channel_configs() -> Seq<ChannelConfig> {
    seq![
        ChannelConfig::Reliable(
            ReliableChannelConfig {
                channel_id: NetChannels::Commands.number(),
                sent_packet_buffer_size: 1024,
                message_send_queue_size: 1024,
                message_receive_queue_size: 1024,
                packet_budget: 6000,
                max_message_size: 3500,
                message_resend_time: 0,
            },
        ),
        ChannelConfig::Unreliable(
            UnreliableChannelConfig {
                channel_id: NetChannels::FrameSync.number(),
                packet_budget: 10000,
                max_message_size: 7500,
                message_send_queue_size: 256,
                message_receive_queue_size: 256,
            },
        ),
        ChannelConfig::Unreliable(
            UnreliableChannelConfig {
                channel_id: NetChannels::PlayerInput.number(),
                packet_budget: 6000,
                max_message_size: 3000,
                message_send_queue_size: 256,
                message_receive_queue_size: 256,
            },
        ),
        ChannelConfig::Block(
            BlockChannelConfig {
                channel_id: NetChannels::Block.number(),
                slice_size: 400,
                resend_time: 300_000_000,
                sent_packet_buffer_size: 256,
                packet_budget: 8192,
                max_message_size: 262144,
                message_send_queue_size: 8,
            },
        ),
    ]
}

impl NetChannels {
    /// The settings of all channels.
    pub fn get_config() -> (configs: Vec<ChannelConfig>)
        ensures
            configs@ == channel_configs(),
    {
        let mut commands = default_reliable();
        commands.channel_id = u8::from(NetChannels::Commands);
        commands.max_message_size = 3500;
        commands.message_resend_time = 0;
        let mut frame_sync = default_unreliable();
        frame_sync.channel_id = u8::from(NetChannels::FrameSync);
        frame_sync.packet_budget = 10000;
        frame_sync.max_message_size = 7500;
        let mut player_input = default_unreliable();
        player_input.channel_id = u8::from(NetChannels::PlayerInput);
        let mut block = default_block();
        block.channel_id = u8::from(NetChannels::Block);
        let configs = vec![
            ChannelConfig::Reliable(commands),
            ChannelConfig::Unreliable(frame_sync),
            ChannelConfig::Unreliable(player_input),
            ChannelConfig::Block(block),
        ];
        assert(configs@ =~= channel_configs());
        configs
    }
}

impl ChannelConfig {
    /// The number of the channel that the settings are for.
    pub open spec fn channel(self) -> u8 {
        match self {
            ChannelConfig::Reliable(config) => config.channel_id,
            ChannelConfig::Unreliable(config) => config.channel_id,
            ChannelConfig::Block(config) => config.channel_id,
        }
    }

    /// Whether every message fits into a packet, unless it is sent in slices.
    pub open spec fn messages_fit(self) -> bool {
        match self {
            ChannelConfig::Reliable(config) => config.max_message_size <= config.packet_budget,
            ChannelConfig::Unreliable(config) => config.max_message_size <= config.packet_budget,
            ChannelConfig::Block(config) => config.slice_size <= config.packet_budget,
        }
    }
}

/// No two channels have the same number.
pub proof fn law_channel_numbers_differ(a: NetChannels, b: NetChannels)
    ensures
        a.number() == b.number() <==> a == b,
{
}

/// Every channel has settings, at the place of its number, and on every channel the messages fit
/// into the packets.
pub proof fn law_channels_are_configured(channel: NetChannels)
    ensures
        channel_configs().len() == 4,
        channel_configs()[channel.number() as int].channel() == channel.number(),
        channel_configs()[channel.number() as int].messages_fit(),
{
}

/// The names of types, at the places by which messages refer to them.
pub struct StringCache {
    pub strings: Vec<String>,
}

impl View for StringCache {
    type V = Seq<Seq<char>>;

    open spec fn view(&self) -> Seq<Seq<char>> {
        texts(self.strings@)
    }
}

/// A message on the block channel.
pub enum BlockMessage {
    /// From now on, types are referred to by their places in this cache.
    SetTypeNameCache(StringCache),
}

/// The number by which a message that sets the type names is known.
pub const SET_TYPE_NAME_CACHE: u32 = 0;

/// The type names that the bytes of a block message set, if they are those of a block message.
pub open spec fn block_names(bytes: Seq<u8>) -> Option<Seq<Seq<char>>> {
    match string_list_parts(bytes) {
        Some((kind, names)) => if kind == SET_TYPE_NAME_CACHE {
            Some(names)
        } else {
            None
        },
        None => None,
    }
}

impl BlockMessage {
    /// The type names that the message sets.
    pub open spec fn names(self) -> Seq<Seq<char>> {
        match self {
            BlockMessage::SetTypeNameCache(cache) => cache@,
        }
    }

    /// Reads a message, if the bytes are those of one.
    pub fn from_bytes(bytes: &Vec<u8>) -> (message: Option<BlockMessage>)
        ensures
            message is Some <==> block_names(bytes@) is Some,
            message matches Some(read) ==> block_names(bytes@) == Some(read.names()),
    {
        BlockMessage::from_parts(read_string_list(bytes))
    }

    /// The message that a kind and a list of strings make up: there is one kind of message.
    pub fn from_parts(parts: Option<(u32, Vec<String>)>) -> (message: Option<BlockMessage>)
        ensures
            message is Some <==> (parts matches Some((kind, _)) && kind == SET_TYPE_NAME_CACHE),
            message matches Some(read) ==> read.names() == texts((parts->0).1@),
    {
        match parts {
            Some((kind, strings)) => {
                if kind == SET_TYPE_NAME_CACHE {
                    Some(BlockMessage::SetTypeNameCache(StringCache { strings }))
                } else {
                    None
                }
            },
            None => None,
        }
    }

    /// Carries the message out.
    pub fn apply(self, type_names: &mut StringCache)
        ensures
            final(type_names)@ == self.names(),
    {
        match self {
            BlockMessage::SetTypeNameCache(cache) => {
                *type_names = cache;
            },
        }
    }
}

impl StringCache {
    /// The bytes of the block message that sets these names.
    pub fn to_message(&self) -> (bytes: Vec<u8>)
        ensures
            bytes@ == string_list_bytes(SET_TYPE_NAME_CACHE, self@),
            block_names(bytes@) == Some(self@),
    {
        write_string_list(SET_TYPE_NAME_CACHE, &self.strings)
    }
}

/// What happens to the clients of a server.
#[derive(Clone, Copy, Debug, PartialEq, Eq, Structural)]
pub enum ServerEvent {
    ClientConnected(u64),
    ClientDisconnected(u64),
}

/// What a server does.
pub enum ServerAction {
    /// Show the client in the visualizer.
    AddClient(u64),
    /// Send the client a message.
    SendMessage { client: u64, channel: NetChannels, message: Vec<u8> },
    /// Stop showing the client in the visualizer.
    RemoveClient(u64),
}

/// What a server does, with messages as sequences of bytes.
pub enum ServerActionView {
    AddClient(u64),
    SendMessage { client: u64, channel: NetChannels, message: Seq<u8> },
    RemoveClient(u64),
}

impl View for ServerAction {
    type V = ServerActionView;

    open spec fn view(&self) -> ServerActionView {
        match *self {
            ServerAction::AddClient(client) => ServerActionView::AddClient(client),
            ServerAction::SendMessage { client, channel, message } => ServerActionView::SendMessage {
                client,
                channel,
                message: message@,
            },
            ServerAction::RemoveClient(client) => ServerActionView::RemoveClient(client),
        }
    }
}

/// What a server does about an event: a new client is shown and is sent the type names on the block
/// channel, and a client that has gone is shown no longer.
pub open spec fn reaction(event: ServerEvent, type_names: Seq<Seq<char>>) -> Seq<ServerActionView> {
    match event {
        ServerEvent::ClientConnected(client) => seq![
            ServerActionView::AddClient(client),
            ServerActionView::SendMessage {
                client,
                channel: NetChannels::Block,
                message: string_list_bytes(SET_TYPE_NAME_CACHE, type_names),
            },
        ],
        ServerEvent::ClientDisconnected(client) => seq![ServerActionView::RemoveClient(client)],
    }
}

/// What a server does about events, in their order.
pub open spec fn reactions(events: Seq<ServerEvent>, type_names: Seq<Seq<char>>) -> Seq<ServerActionView>
    decreases events.len(),
{
    if events.len() == 0 {
        Seq::empty()
    } else {
        reactions(events.drop_last(), type_names) + reaction(events.last(), type_names)
    }
}

/// Actions with messages as sequences of bytes.
pub open spec fn actions_view(actions: Seq<ServerAction>) -> Seq<ServerActionView> {
    actions.map_values(|action: ServerAction| action@)
}

/// Decides what a server does about its events. Every message that it sends sets the type names.
pub fn handle_server_events(events: &Vec<ServerEvent>, type_names: &StringCache) -> (actions: Vec<
    ServerAction,
>)
    ensures
        actions_view(actions@) == reactions(events@, type_names@),
        forall|i: int|
            0 <= i < actions@.len() ==> (#[trigger] actions@[i] matches ServerAction::SendMessage {
                message,
                ..
            } ==> block_names(message@) == Some(type_names@)),
{
    let mut actions: Vec<ServerAction> = Vec::new();
    let mut i: usize = 0;
    while i < events.len()
        invariant
            i <= events@.len(),
            actions_view(actions@) == reactions(events@.take(i as int), type_names@),
            forall|k: int|
                0 <= k < actions@.len() ==> (#[trigger] actions@[k] matches ServerAction::SendMessage {
                    message,
                    ..
                } ==> block_names(message@) == Some(type_names@)),
        decreases events@.len() - i,
    {
        let ghost earlier = actions@;
        match events[i] {
            ServerEvent::ClientConnected(client) => {
                let message = type_names.to_message();
                actions.push(ServerAction::AddClient(client));
                actions.push(ServerAction::SendMessage { client, channel: NetChannels::Block, message });
            },
            ServerEvent::ClientDisconnected(client) => {
                actions.push(ServerAction::RemoveClient(client));
            },
        }
        proof {
            assert(events@.take(i + 1).drop_last() =~= events@.take(i as int));
            assert(actions_view(actions@) =~= actions_view(earlier) + reaction(
                events@[i as int],
                type_names@,
            ));
        }
        i = i + 1;
    }
    assert(events@.take(i as int) =~= events@);
    actions
}

/// A message that is none of the protocol's.
#[derive(Clone, Copy, Debug, PartialEq, Eq, Structural)]
pub struct UnknownMessage {
    /// The place of the message among those that were received.
    pub index: usize,
}

/// The names that are known after the first `count` of a client's messages.
pub open spec fn names_after(
    known: Seq<Seq<char>>,
    messages: Seq<Vec<u8>>,
    count: int,
) -> Seq<Seq<char>> {
    if count == 0 {
        known
    } else {
        block_names(messages[count - 1]@)->0
    }
}

/// Carries out the block messages that a client has received, in their order, up to the first that
/// is none.
pub fn client_handle_block_messages(type_names: &mut StringCache, messages: &Vec<Vec<u8>>) -> (result: Result<
    (),
    UnknownMessage,
>)
    ensures
        result is Ok <==> forall|i: int|
            0 <= i < messages@.len() ==> block_names((#[trigger] messages@[i])@) is Some,
        result is Ok ==> final(type_names)@ == names_after(
            old(type_names)@,
            messages@,
            messages@.len() as int,
        ),
        result matches Err(unknown) ==> {
            &&& unknown.index < messages@.len()
            &&& block_names(messages@[unknown.index as int]@) is None
            &&& forall|i: int|
                0 <= i < unknown.index ==> block_names((#[trigger] messages@[i])@) is Some
            &&& final(type_names)@ == names_after(old(type_names)@, messages@, unknown.index as int)
        },
{
    let ghost known = type_names@;
    let mut i: usize = 0;
    while i < messages.len()
        invariant
            i <= messages@.len(),
            known == old(type_names)@,
            type_names@ == names_after(known, messages@, i as int),
            forall|k: int| 0 <= k < i ==> block_names((#[trigger] messages@[k])@) is Some,
        decreases messages@.len() - i,
    {
        match BlockMessage::from_bytes(&messages[i]) {
            Some(message) => {
                message.apply(type_names);
            },
            None => {
                return Err(UnknownMessage { index: i });
            },
        }
        i = i + 1;
    }
    Ok(())
}

proof fn lemma_connected_is_answered(
    events: Seq<ServerEvent>,
    type_names: Seq<Seq<char>>,
    client: u64,
) -> (i: int)
    requires
        events.contains(ServerEvent::ClientConnected(client)),
    ensures
        0 <= i < reactions(events, type_names).len(),
        reactions(events, type_names)[i] == (ServerActionView::SendMessage {
            client,
            channel: NetChannels::Block,
            message: string_list_bytes(SET_TYPE_NAME_CACHE, type_names),
        }),
    decreases events.len(),
{
    let front = events.drop_last();
    if events.last() == ServerEvent::ClientConnected(client) {
        reactions(front, type_names).len() as int + 1
    } else {
        let k = choose|k: int|
            0 <= k < events.len() && events[k] == ServerEvent::ClientConnected(client);
        assert(front[k] == ServerEvent::ClientConnected(client));
        lemma_connected_is_answered(front, type_names, client)
    }
}

/// Every client that connects is sent the type names.
pub proof fn law_connected_clients_get_names(
    events: Seq<ServerEvent>,
    type_names: Seq<Seq<char>>,
    client: u64,
)
    requires
        events.contains(ServerEvent::ClientConnected(client)),
    ensures
        reactions(events, type_names).contains(
            (ServerActionView::SendMessage {
                client,
                channel: NetChannels::Block,
                message: string_list_bytes(SET_TYPE_NAME_CACHE, type_names),
            }),
        ),
{
    let i = lemma_connected_is_answered(events, type_names, client);
}

/// A client that receives a message that sets some names knows just these, whatever it knew and
/// received before.
pub proof fn law_client_knows_last_names(
    known: Seq<Seq<char>>,
    messages: Seq<Vec<u8>>,
    names: Seq<Seq<char>>,
)
    requires
        messages.len() > 0,
        block_names(messages.last()@) == Some(names),
    ensures
        names_after(known, messages, messages.len() as int) == names,
{
}

/// Run condition for systems of connected clients: whether there is a client and it is connected.
pub fn client_connected(client: Option<bool>) -> (connected: bool)
    ensures
        connected == (client == Some(true)),
{
    match client {
        Some(is_connected) => is_connected,
        None => false,
    }
}

/// A component that takes part in the synchronisation of frames.
#[derive(Clone, Copy, Debug, PartialEq, Eq, Structural)]
pub enum SyncedComponent {
    PlayerIdx,
    Transform,
    AnimationBankSprite,
}

/// A query whose results are synchronised.
pub struct NetworkSyncQuery {
    /// The components that are read.
    pub fetches: Vec<SyncedComponent>,
    /// Whether entities that are not on the server are removed from the clients.
    pub prune: bool,
}

/// Adds the query that synchronises where the players are. Returns the components that the world has
/// to know.
pub fn setup_synced_queries(queries: &mut Vec<NetworkSyncQuery>) -> (components: Vec<SyncedComponent>)
    ensures
        components@ == seq![
            SyncedComponent::PlayerIdx,
            SyncedComponent::Transform,
            SyncedComponent::AnimationBankSprite,
        ],
        final(queries)@.len() == old(queries)@.len() + 1,
        final(queries)@.drop_last() == old(queries)@,
        final(queries)@.last().fetches@ == seq![SyncedComponent::PlayerIdx, SyncedComponent::Transform],
        final(queries)@.last().prune,
{
    let fetches = vec![SyncedComponent::PlayerIdx, SyncedComponent::Transform];
    queries.push(NetworkSyncQuery { fetches, prune: true });
    vec![SyncedComponent::PlayerIdx, SyncedComponent::Transform, SyncedComponent::AnimationBankSprite]
}

/// The network layer of the game.
pub struct NetworkingPlugin;

/// A plugin that is part of the network layer.
#[derive(Clone, Copy, Debug, PartialEq, Eq, Structural)]
pub enum NetPlugin {
    /// The synchronisation of frames.
    FrameSync,
    /// Serialization.
    Serialization,
    /// Commands.
    Commands,
    /// The transport's client.
    RenetClient,
    /// The transport's server.
    RenetServer,
}

/// A system of the network layer.
#[derive(Clone, Copy, Debug, PartialEq, Eq, Structural)]
pub enum NetSystem {
    /// Handles the events of the server.
    HandleServerEvents,
    /// Logs the errors of the transport.
    LogRenetErrors,
    /// Handles the block messages that the client has received.
    ClientHandleBlockMessages,
}

/// In which frames a system runs.
#[derive(Clone, Copy, Debug, PartialEq, Eq, Structural)]
pub enum RunCondition {
    /// In all of them.
    Always,
    /// In those in which there is a server.
    ServerExists,
    /// In those in which there is a client that is connected.
    ClientConnected,
}

impl RunCondition {
    /// Whether a system with this condition runs: `client` tells whether the client is connected, if
    /// there is one.
    pub open spec fn met(self, server_exists: bool, client: Option<bool>) -> bool {
        match self {
            RunCondition::Always => true,
            RunCondition::ServerExists => server_exists,
            RunCondition::ClientConnected => client == Some(true),
        }
    }

    /// Decides whether a system with this condition runs.
    pub fn is_met(self, server_exists: bool, client: Option<bool>) -> (met: bool)
        ensures
            met == self.met(server_exists, client),
    {
        match self {
            RunCondition::Always => true,
            RunCondition::ServerExists => server_exists,
            RunCondition::ClientConnected => client_connected(client),
        }
    }
}

/// A step of setting up the network layer.
#[derive(Clone, Copy, Debug, PartialEq, Eq, Structural)]
pub enum BuildStep {
    /// Add a plugin.
    AddPlugin(NetPlugin),
    /// Add a system that runs in the frames in which the condition is met.
    AddSystem { system: NetSystem, run_if: RunCondition },
    /// Have the synchronised queries set up once, at the start, by a system that has the world to
    /// itself.
    SetupSyncedQueries,
    /// Add the visualizer of the server.
    InsertServerVisualizer,
}

/// The steps of setting up the network layer. The visualizer is a debug tool.
pub open spec fn build_steps(debug_tools: bool) -> Seq<BuildStep> {
    let steps = seq![
        BuildStep::AddPlugin(NetPlugin::FrameSync),
        BuildStep::AddPlugin(NetPlugin::Serialization),
        BuildStep::AddPlugin(NetPlugin::Commands),
        BuildStep::AddPlugin(NetPlugin::RenetClient),
        BuildStep::AddPlugin(NetPlugin::RenetServer),
        BuildStep::AddSystem {
            system: NetSystem::HandleServerEvents,
            run_if: RunCondition::ServerExists,
        },
        BuildStep::AddSystem { system: NetSystem::LogRenetErrors, run_if: RunCondition::Always },
        BuildStep::AddSystem {
            system: NetSystem::ClientHandleBlockMessages,
            run_if: RunCondition::ClientConnected,
        },
        BuildStep::SetupSyncedQueries,
    ];
    if debug_tools {
        steps.push(BuildStep::InsertServerVisualizer)
    } else {
        steps
    }
}

impl NetworkingPlugin {
    /// The steps in which the network layer is set up.
    pub fn build(&self, debug_tools: bool) -> (steps: Vec<BuildStep>)
        ensures
            steps@ == build_steps(debug_tools),
    {
        let mut steps = vec![
            BuildStep::AddPlugin(NetPlugin::FrameSync),
            BuildStep::AddPlugin(NetPlugin::Serialization),
            BuildStep::AddPlugin(NetPlugin::Commands),
            BuildStep::AddPlugin(NetPlugin::RenetClient),
            BuildStep::AddPlugin(NetPlugin::RenetServer),
            BuildStep::AddSystem {
                system: NetSystem::HandleServerEvents,
                run_if: RunCondition::ServerExists,
            },
            BuildStep::AddSystem { system: NetSystem::LogRenetErrors, run_if: RunCondition::Always },
            BuildStep::AddSystem {
                system: NetSystem::ClientHandleBlockMessages,
                run_if: RunCondition::ClientConnected,
            },
            BuildStep::SetupSyncedQueries,
        ];
        if debug_tools {
            steps.push(BuildStep::InsertServerVisualizer);
        }
        steps
    }
}

/// A server takes its events one after the other: what it does about one does not depend on those
/// before and after it.
pub proof fn law_events_are_taken_in_order(
    first: Seq<ServerEvent>,
    then_these: Seq<ServerEvent>,
    type_names: Seq<Seq<char>>,
)
    ensures
        reactions(first + then_these, type_names) == reactions(first, type_names) + reactions(
            then_these,
            type_names,
        ),
        reactions(Seq::empty(), type_names).len() == 0,
    decreases then_these.len(),
{
    if then_these.len() == 0 {
        assert(first + then_these =~= first);
        assert(reactions(first, type_names) + reactions(then_these, type_names) =~= reactions(
            first,
            type_names,
        ));
    } else {
        let front = then_these.drop_last();
        law_events_are_taken_in_order(first, front, type_names);
        assert((first + then_these).drop_last() =~= first + front);
        assert(reactions(first + then_these, type_names) =~= reactions(first, type_names) + (reactions(
            front,
            type_names,
        ) + reaction(then_these.last(), type_names)));
    }
}

/// A client that connects is shown and then sent one message, which sets the server's type names; a
/// client that disconnects is shown no longer, and nothing is sent.
pub proof fn law_reaction_to_one_event(client: u64, type_names: Seq<Seq<char>>)
    ensures
        ({
            let actions = reactions(seq![ServerEvent::ClientConnected(client)], type_names);
            &&& actions.len() == 2
            &&& actions[0] == ServerActionView::AddClient(client)
            &&& actions[1] == (ServerActionView::SendMessage {
                client,
                channel: NetChannels::Block,
                message: string_list_bytes(0, type_names),
            })
        }),
        reactions(seq![ServerEvent::ClientDisconnected(client)], type_names) == seq![
            ServerActionView::RemoveClient(client),
        ],
{
    reveal_with_fuel(reactions, 2);
    assert(seq![ServerEvent::ClientConnected(client)].drop_last() =~= Seq::empty());
    assert(seq![ServerEvent::ClientDisconnected(client)].drop_last() =~= Seq::empty());
    assert(reactions(seq![ServerEvent::ClientDisconnected(client)], type_names) =~= seq![
        ServerActionView::RemoveClient(client),
    ]);
}

/// A client that has received nothing knows what it knew, and after some messages it knows exactly
/// the names that the last of them sets, in their order.
pub proof fn law_names_are_those_of_the_last_message(
    known: Seq<Seq<char>>,
    messages: Seq<Vec<u8>>,
    count: int,
    names: Seq<Seq<char>>,
)
    requires
        0 <= count <= messages.len(),
        count > 0 ==> string_list_parts(messages[count - 1]@) == Some((0u32, names)),
    ensures
        count == 0 ==> names_after(known, messages, count) == known,
        count > 0 ==> names_after(known, messages, count) == names,
{
}

/// Bytes are a block message exactly if they are a list of strings of the kind of the messages that
/// set type names, and then these strings are the names.
pub proof fn law_block_messages(bytes: Seq<u8>)
    ensures
        block_names(bytes) is Some <==> (string_list_parts(bytes) matches Some((kind, _)) && kind
            == 0),
        block_names(bytes) matches Some(names) ==> string_list_parts(bytes) == Some((0u32, names)),
{
}

/// The settings of the four channels.
pub proof fn law_channel_settings()
    ensures
        channel_configs().len() == 4,
        channel_configs()[0] matches ChannelConfig::Reliable(commands) && commands.channel_id == 0
            && commands.max_message_size == 3500 && commands.message_resend_time == 0
            && commands.packet_budget == 6000 && commands.sent_packet_buffer_size == 1024
            && commands.message_send_queue_size == 1024 && commands.message_receive_queue_size == 1024,
        channel_configs()[1] matches ChannelConfig::Unreliable(frames) && frames.channel_id == 1
            && frames.max_message_size == 7500 && frames.packet_budget == 10000
            && frames.message_send_queue_size == 256 && frames.message_receive_queue_size == 256,
        channel_configs()[2] matches ChannelConfig::Unreliable(inputs) && inputs.channel_id == 2
            && inputs.max_message_size == 3000 && inputs.packet_budget == 6000
            && inputs.message_send_queue_size == 256 && inputs.message_receive_queue_size == 256,
        channel_configs()[3] matches ChannelConfig::Block(blocks) && blocks.channel_id == 3
            && blocks.slice_size == 400 && blocks.resend_time == 300_000_000
            && blocks.sent_packet_buffer_size == 256 && blocks.packet_budget == 8192
            && blocks.max_message_size == 262144 && blocks.message_send_queue_size == 8,
        NetChannels::Commands.number() == 0 && NetChannels::FrameSync.number() == 1
            && NetChannels::PlayerInput.number() == 2 && NetChannels::Block.number() == 3,
{
}

/// In which frames the systems of the network layer run: the server's events are handled in those in
/// which there is a server, errors are logged in all, and block messages are handled in those in
/// which there is a client that is connected.
pub proof fn law_systems_run_when_they_can(
    debug_tools: bool,
    i: int,
    server_exists: bool,
    client: Option<bool>,
)
    requires
        0 <= i < build_steps(debug_tools).len(),
    ensures
        build_steps(debug_tools)[i] matches BuildStep::AddSystem { system, run_if } ==> (run_if.met(
            server_exists,
            client,
        ) <==> match system {
            NetSystem::HandleServerEvents => server_exists,
            NetSystem::LogRenetErrors => true,
            NetSystem::ClientHandleBlockMessages => client == Some(true),
        }),
{
}

/// Setting up the network layer adds all its plugins, then all its systems, and has the synchronised
/// queries set up; the visualizer is added exactly with the debug tools, and last.
pub proof fn law_network_layer_is_complete(debug_tools: bool)
    ensures
        ({
            let steps = build_steps(debug_tools);
            &&& steps.len() == (if debug_tools {
                10int
            } else {
                9int
            })
            &&& steps[0] == BuildStep::AddPlugin(NetPlugin::FrameSync)
            &&& steps[1] == BuildStep::AddPlugin(NetPlugin::Serialization)
            &&& steps[2] == BuildStep::AddPlugin(NetPlugin::Commands)
            &&& steps[3] == BuildStep::AddPlugin(NetPlugin::RenetClient)
            &&& steps[4] == BuildStep::AddPlugin(NetPlugin::RenetServer)
            &&& steps[5] matches BuildStep::AddSystem { system, .. } && system
                == NetSystem::HandleServerEvents
            &&& steps[6] matches BuildStep::AddSystem { system, .. } && system
                == NetSystem::LogRenetErrors
            &&& steps[7] matches BuildStep::AddSystem { system, .. } && system
                == NetSystem::ClientHandleBlockMessages
            &&& steps[8] is SetupSyncedQueries
            &&& debug_tools ==> steps[9] is InsertServerVisualizer
        }),
{
}

/// What a server does is seen as it is.
pub proof fn law_server_actions_are_seen(
    actions: Seq<ServerAction>,
    i: int,
    client: u64,
    channel: NetChannels,
    message: Vec<u8>,
)
    requires
        0 <= i < actions.len(),
    ensures
        actions_view(actions).len() == actions.len(),
        actions[i] == ServerAction::AddClient(client) ==> actions_view(actions)[i]
            == ServerActionView::AddClient(client),
        actions[i] == ServerAction::RemoveClient(client) ==> actions_view(actions)[i]
            == ServerActionView::RemoveClient(client),
        actions[i] == (ServerAction::SendMessage { client, channel, message }) ==> actions_view(
            actions,
        )[i] == (ServerActionView::SendMessage { client, channel, message: message@ }),
{
}

/// The names that a message sets are the strings of its cache, all of them and in their order.
pub proof fn law_names_of_a_message(cache: StringCache, i: int)
    requires
        0 <= i < cache.strings@.len(),
    ensures
        BlockMessage::SetTypeNameCache(cache).names() == cache@,
        cache@.len() == cache.strings@.len(),
        cache@[i] == cache.strings@[i]@,
{
}

} // verus!
