//! The exchange between the server and its clients: channels, messages and
//! the table of connected peers.

use vstd::prelude::*;

pub mod client_utils;
pub mod lobby;
pub mod message;
pub mod server_utils;

verus! {

/// Tells this protocol apart from others on the same transport.
pub const PROTOCOL_ID: u64 = 0x1122334455667788;

/// How long a client waits for its connection before it gives up, in
/// seconds.
pub const CONNECTION_TIMEOUT_SECS: u64 = 15;

/// After how long a reliable channel sends again what was not confirmed, in
/// milliseconds.
pub const RESEND_TIME_MILLIS: u64 = 300;

/// What may be in flight on a channel for small messages, in bytes.
pub const CONTROL_MEMORY_BUDGET: usize = 5242880;

/// What may be in flight on the channel for chunks, in bytes.
pub const CHUNK_MEMORY_BUDGET: usize = 104857600;

/// The logical streams between two peers.
#[derive(Clone, Copy, Debug, PartialEq, Eq, Structural)]
pub enum Channel {
    Reliable,
    ReliableOrdered,
    Unreliable,
    Chunk,
}

impl From<Channel> for u8 {
    fn from(channel: Channel) -> (id: u8) {
        match channel {
            Channel::Reliable => 0,
            Channel::ReliableOrdered => 1,
            Channel::Unreliable => 2,
            Channel::Chunk => 3,
        }
    }
}

impl vstd::std_specs::convert::FromSpecImpl<Channel> for u8 {
    open spec fn obeys_from_spec() -> bool {
        true
    }

    open spec fn from_spec(channel: Channel) -> u8 {
        match channel {
            Channel::Reliable => 0,
            Channel::ReliableOrdered => 1,
            Channel::Unreliable => 2,
            Channel::Chunk => 3,
        }
    }
}

/// What a channel promises about delivery.
#[derive(Clone, Copy, Debug, PartialEq, Eq, Structural)]
pub enum SendType {
    /// Nothing: a message may be lost.
    Unreliable,
    /// Every message arrives, in the order in which it was sent.
    ReliableOrdered { resend_time_millis: u64 },
    /// Every message arrives, in any order.
    ReliableUnordered { resend_time_millis: u64 },
}

/// The settings of one channel.
#[derive(Clone, Copy, Debug, PartialEq, Eq, Structural)]
pub struct ChannelConfig {
    pub channel_id: u8,
    pub max_memory_usage_bytes: usize,
    pub send_type: SendType,
}

/// The settings of a connection.
#[derive(Clone, Debug, PartialEq, Eq)]
pub struct ConnectionConfig {
    pub available_bytes_per_tick: u64,
    pub client_channels_config: Vec<ChannelConfig>,
    pub server_channels_config: Vec<ChannelConfig>,
}

impl Channel {
    /// The number of the channel on the transport.
    pub open spec fn id(self) -> u8 {
        match self {
            Channel::Reliable => 0,
            Channel::ReliableOrdered => 1,
            Channel::Unreliable => 2,
            Channel::Chunk => 3,
        }
    }

    /// The settings of the channel: what it promises and how much may be in
    /// flight on it.
    pub open spec fn config(self) -> ChannelConfig {
        match self {
            Channel::Reliable => ChannelConfig {
                channel_id: 0,
                max_memory_usage_bytes: CONTROL_MEMORY_BUDGET,
                send_type: SendType::ReliableUnordered { resend_time_millis: RESEND_TIME_MILLIS },
            },
            Channel::ReliableOrdered => ChannelConfig {
                channel_id: 1,
                max_memory_usage_bytes: CONTROL_MEMORY_BUDGET,
                send_type: SendType::ReliableOrdered { resend_time_millis: RESEND_TIME_MILLIS },
            },
            Channel::Unreliable => ChannelConfig {
                channel_id: 2,
                max_memory_usage_bytes: CONTROL_MEMORY_BUDGET,
                send_type: SendType::Unreliable,
            },
            Channel::Chunk => ChannelConfig {
                channel_id: 3,
                max_memory_usage_bytes: CHUNK_MEMORY_BUDGET,
                send_type: SendType::ReliableUnordered { resend_time_millis: RESEND_TIME_MILLIS },
            },
        }
    }

    /// The settings of the four channels, in the order of their numbers.
    pub fn channels_config() -> (v: Vec<ChannelConfig>)
        ensures
            v@ == seq![
                Channel::Reliable.config(),
                Channel::ReliableOrdered.config(),
                Channel::Unreliable.config(),
                Channel::Chunk.config(),
            ],
            forall|i: int| 0 <= i < 4 ==> (#[trigger] v@[i]).channel_id == i,
    {
        let mut v: Vec<ChannelConfig> = Vec::new();
        v.push(
            ChannelConfig {
                channel_id: u8::from(Channel::Reliable),
                max_memory_usage_bytes: CONTROL_MEMORY_BUDGET,
                send_type: SendType::ReliableUnordered { resend_time_millis: RESEND_TIME_MILLIS },
            },
        );
        v.push(
            ChannelConfig {
                channel_id: u8::from(Channel::ReliableOrdered),
                max_memory_usage_bytes: CONTROL_MEMORY_BUDGET,
                send_type: SendType::ReliableOrdered { resend_time_millis: RESEND_TIME_MILLIS },
            },
        );
        v.push(
            ChannelConfig {
                channel_id: u8::from(Channel::Unreliable),
                max_memory_usage_bytes: CONTROL_MEMORY_BUDGET,
                send_type: SendType::Unreliable,
            },
        );
        v.push(
            ChannelConfig {
                channel_id: u8::from(Channel::Chunk),
                max_memory_usage_bytes: CHUNK_MEMORY_BUDGET,
                send_type: SendType::ReliableUnordered { resend_time_millis: RESEND_TIME_MILLIS },
            },
        );
        assert(v@ =~= seq![
            Channel::Reliable.config(),
            Channel::ReliableOrdered.config(),
            Channel::Unreliable.config(),
            Channel::Chunk.config(),
        ]);
        v
    }
}

/// The settings of a connection: the same four channels in both
/// directions.
pub fn connection_config() -> (c: ConnectionConfig)
    ensures
        c.available_bytes_per_tick == CONTROL_MEMORY_BUDGET,
        c.client_channels_config@ == seq![
            Channel::Reliable.config(),
            Channel::ReliableOrdered.config(),
            Channel::Unreliable.config(),
            Channel::Chunk.config(),
        ],
        c.server_channels_config@ == c.client_channels_config@,
{
    ConnectionConfig {
        available_bytes_per_tick: 5242880,
        client_channels_config: Channel::channels_config(),
        server_channels_config: Channel::channels_config(),
    }
}

} // verus!
