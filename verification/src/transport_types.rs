//! Plain data shared by the transports: their configuration, connection
//! state, counters and events.
use vstd::prelude::*;
use vstd::std_specs::cmp::PartialEqSpecImpl;
use crate::text::text_eq;

verus! {

/// Settings common to the transports (timeouts in milliseconds, sizes in
/// bytes).
#[derive(Clone, Debug)]
pub struct TransportConfig {
    pub connect_timeout_ms: Option<u64>,
    pub read_timeout_ms: Option<u64>,
    pub write_timeout_ms: Option<u64>,
    pub max_message_size: Option<usize>,
    pub keep_alive_ms: Option<u64>,
    pub compression: bool,
    /// Extra headers for HTTP-based transports, as name and value.
    pub headers: Vec<(String, String)>,
}

impl Default for TransportConfig {
    /// 30 s to connect, 60 s to read, 30 s to write, 16 MiB messages, a
    /// keep-alive every 30 s, no compression, no extra header.
    fn default() -> (r: TransportConfig)
        ensures
            r.connect_timeout_ms == Some(30000u64),
            r.read_timeout_ms == Some(60000u64),
            r.write_timeout_ms == Some(30000u64),
            r.max_message_size == Some(16777216usize),
            r.keep_alive_ms == Some(30000u64),
            !r.compression,
            r.headers@.len() == 0,
    {
        TransportConfig {
            connect_timeout_ms: Some(30000),
            read_timeout_ms: Some(60000),
            write_timeout_ms: Some(30000),
            max_message_size: Some(16777216),
            keep_alive_ms: Some(30000),
            compression: false,
            headers: Vec::new(),
        }
    }
}

/// Where a connection stands.
#[derive(Debug)]
pub enum ConnectionState {
    Disconnected,
    Connecting,
    Connected,
    Reconnecting,
    Closing,
    Error(String),
}

/// Two states are the same: the same variant, and for errors the same text.
pub open spec fn same_state(a: ConnectionState, b: ConnectionState) -> bool {
    match (a, b) {
        (ConnectionState::Disconnected, ConnectionState::Disconnected) => true,
        (ConnectionState::Connecting, ConnectionState::Connecting) => true,
        (ConnectionState::Connected, ConnectionState::Connected) => true,
        (ConnectionState::Reconnecting, ConnectionState::Reconnecting) => true,
        (ConnectionState::Closing, ConnectionState::Closing) => true,
        (ConnectionState::Error(x), ConnectionState::Error(y)) => x@ == y@,
        _ => false,
    }
}

impl PartialEq for ConnectionState {
    fn eq(&self, other: &Self) -> (r: bool) {
        match (self, other) {
            (ConnectionState::Disconnected, ConnectionState::Disconnected) => true,
            (ConnectionState::Connecting, ConnectionState::Connecting) => true,
            (ConnectionState::Connected, ConnectionState::Connected) => true,
            (ConnectionState::Reconnecting, ConnectionState::Reconnecting) => true,
            (ConnectionState::Closing, ConnectionState::Closing) => true,
            (ConnectionState::Error(x), ConnectionState::Error(y)) => text_eq(x.as_str(), y.as_str()),
            _ => false,
        }
    }
}

impl PartialEqSpecImpl for ConnectionState {
    open spec fn obeys_eq_spec() -> bool {
        true
    }

    open spec fn eq_spec(&self, other: &Self) -> bool {
        same_state(*self, *other)
    }
}

impl ConnectionState {
    /// Whether the connection is up.
    pub fn is_connected(&self) -> (r: bool)
        ensures
            r == (*self is Connected),
    {
        match self {
            ConnectionState::Connected => true,
            _ => false,
        }
    }
}

/// Counters a transport keeps.
pub struct TransportStats {
    pub requests_sent: u64,
    pub responses_received: u64,
    pub notifications_sent: u64,
    pub notifications_received: u64,
    pub connection_errors: u64,
    pub protocol_errors: u64,
    pub bytes_sent: u64,
    pub bytes_received: u64,
    pub uptime_ms: u64,
}

impl Default for TransportStats {
    /// Every counter at zero.
    fn default() -> (r: TransportStats)
        ensures
            r == (TransportStats {
                requests_sent: 0,
                responses_received: 0,
                notifications_sent: 0,
                notifications_received: 0,
                connection_errors: 0,
                protocol_errors: 0,
                bytes_sent: 0,
                bytes_received: 0,
                uptime_ms: 0,
            }),
    {
        TransportStats {
            requests_sent: 0,
            responses_received: 0,
            notifications_sent: 0,
            notifications_received: 0,
            connection_errors: 0,
            protocol_errors: 0,
            bytes_sent: 0,
            bytes_received: 0,
            uptime_ms: 0,
        }
    }
}

impl TransportStats {
    /// Counts one request of `size` bytes sent (saturating).
    pub fn record_request(&mut self, size: u64)
        ensures
            final(self).requests_sent == (if old(self).requests_sent == u64::MAX { u64::MAX } else { (old(self).requests_sent + 1) as u64 }),
            final(self).bytes_sent == (if old(self).bytes_sent + size > u64::MAX { u64::MAX } else { (old(self).bytes_sent + size) as u64 }),
            final(self).responses_received == old(self).responses_received,
            final(self).bytes_received == old(self).bytes_received,
    {
        self.requests_sent = self.requests_sent.saturating_add(1);
        self.bytes_sent = self.bytes_sent.saturating_add(size);
    }
}

/// Something that happened on a transport.
pub enum TransportEvent {
    Connected,
    Disconnected,
    MessageSent { message_type: String, size: usize },
    MessageReceived { message_type: String, size: usize },
    Error { message: String },
}

} // verus!
