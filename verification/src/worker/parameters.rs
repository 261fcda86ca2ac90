//! Parameters of a connection to SpatialOS: the network protocol with its
//! transport settings, the queue sizes, the logsinks and thread affinity.

use vstd::prelude::*;
use crate::worker::logging::LogsinkParameters;

verus! {

/// Whether a connection is encrypted.
#[derive(Debug, Copy, Clone, PartialEq, Eq, Structural)]
#[allow(non_camel_case_types)]
pub enum SecurityType {
    Insecure,
    DTLS,
}

impl Default for SecurityType {
    /// An unencrypted connection.
    fn default() -> (res: Self)
        ensures
            res == SecurityType::Insecure,
    {
        SecurityType::Insecure
    }
}

/// Settings of the KCP transport in one direction.
#[derive(Debug, Copy, Clone)]
pub struct KcpTransportParameters {
    pub flush_interval_millis: u32,
    pub fast_retransmission: bool,
    pub early_retransmission: bool,
    pub disable_congestion_control: bool,
    pub min_rto_millis: u32,
}

/// Settings of the TCP transport in one direction.
#[derive(Debug, Copy, Clone)]
pub struct TcpTransportParameters {
    pub flush_delay_millis: u32,
}

/// Compression of a stream; it has no settings of its own.
#[derive(Debug, Copy, Clone)]
pub struct CompressionParameters {}

/// The window sizes of flow control, in bytes.
#[derive(Debug, Copy, Clone)]
pub struct FlowControlParameters {
    pub downstream_window_size_bytes: u32,
    pub upstream_window_size_bytes: u32,
}

/// Settings of the erasure codec of a KCP stream.
#[derive(Debug, Copy, Clone)]
pub struct ErasureCodecParameters {
    pub original_packet_count: u8,
    pub recovery_packet_count: u8,
    pub window_size: u8,
}

/// How often a heartbeat is sent, and after how long without one the peer
/// counts as gone.
#[derive(Debug, Copy, Clone)]
pub struct HeartbeatParameters {
    pub interval_millis: u64,
    pub timeout_millis: u64,
}

/// The CPU masks of the connection's threads; a zero mask leaves the choice
/// to the system.
#[derive(Debug, Copy, Clone)]
pub struct ThreadAffinityParameters {
    pub receive_threads_affinity_mask: u64,
    pub send_threads_affinity_mask: u64,
    pub temporary_threads_affinity_mask: u64,
}

impl ThreadAffinityParameters {
    /// No thread is bound to particular CPUs.
    pub fn default() -> (res: Self)
        ensures
            res.receive_threads_affinity_mask == 0,
            res.send_threads_affinity_mask == 0,
            res.temporary_threads_affinity_mask == 0,
    {
        ThreadAffinityParameters {
            receive_threads_affinity_mask: 0,
            send_threads_affinity_mask: 0,
            temporary_threads_affinity_mask: 0,
        }
    }
}

/// Settings of a connection over the modular KCP protocol.
#[derive(Debug, Copy, Clone)]
pub struct ModularKcpNetworkParameters {
    pub security_type: SecurityType,
    pub multiplex_level: u8,
    pub downstream_kcp: KcpTransportParameters,
    pub upstream_kcp: KcpTransportParameters,
    pub downstream_erasure_codec: Option<ErasureCodecParameters>,
    pub upstream_erasure_codec: Option<ErasureCodecParameters>,
    pub downstream_heartbeat: Option<HeartbeatParameters>,
    pub upstream_heartbeat: Option<HeartbeatParameters>,
    pub downstream_compression: Option<CompressionParameters>,
    pub upstream_compression: Option<CompressionParameters>,
    pub flow_control: Option<FlowControlParameters>,
}

/// Settings of a connection over the modular TCP protocol.
#[derive(Debug, Copy, Clone)]
pub struct ModularTcpNetworkParameters {
    pub security_type: SecurityType,
    pub multiplex_level: u8,
    pub downstream_tcp: TcpTransportParameters,
    pub upstream_tcp: TcpTransportParameters,
    pub downstream_heartbeat: Option<HeartbeatParameters>,
    pub upstream_heartbeat: Option<HeartbeatParameters>,
    pub downstream_compression: Option<CompressionParameters>,
    pub upstream_compression: Option<CompressionParameters>,
    pub flow_control: Option<FlowControlParameters>,
}

/// The network protocol of a connection, with its settings.
#[derive(Debug, Copy, Clone)]
pub enum ProtocolType {
    Kcp(ModularKcpNetworkParameters),
    Tcp(ModularTcpNetworkParameters),
}

/// The network side of a connection.
#[derive(Debug, Copy, Clone)]
pub struct NetworkParameters {
    pub use_external_ip: bool,
    pub protocol: ProtocolType,
    pub connection_timeout_millis: u64,
    pub default_command_timeout_millis: u32,
}

/// Everything a worker states when it connects.
#[derive(Debug)]
pub struct ConnectionParameters {
    pub worker_type: String,
    pub network: NetworkParameters,
    pub send_queue_capacity: u32,
    pub receive_queue_capacity: u32,
    pub log_message_queue_capacity: u32,
    pub built_in_metrics_report_period_millis: u32,
    pub logsinks: Vec<LogsinkParameters>,
    pub enable_logging_at_startup: bool,
    pub enable_dynamic_components: bool,
    pub thread_affinity: ThreadAffinityParameters,
}

impl ConnectionParameters {
    /// Adds a logsink after those already given.
    pub fn with_logsink(self, logsink_params: LogsinkParameters) -> (res: Self)
        ensures
            res.logsinks@ == self.logsinks@.push(logsink_params),
            res == (ConnectionParameters { logsinks: res.logsinks, ..self }),
    {
        let mut params = self;
        params.logsinks.push(logsink_params);
        params
    }

    /// Connects over KCP with the given settings.
    pub fn using_kcp_with_params(self, params: ModularKcpNetworkParameters) -> (res: Self)
        ensures
            res == (ConnectionParameters {
                network: (NetworkParameters { protocol: ProtocolType::Kcp(params), ..self.network }),
                ..self
            }),
    {
        let mut res = self;
        res.network.protocol = ProtocolType::Kcp(params);
        res
    }

    /// Connects over TCP with the given settings.
    pub fn using_tcp_with_params(self, params: ModularTcpNetworkParameters) -> (res: Self)
        ensures
            res == (ConnectionParameters {
                network: (NetworkParameters { protocol: ProtocolType::Tcp(params), ..self.network }),
                ..self
            }),
    {
        let mut res = self;
        res.network.protocol = ProtocolType::Tcp(params);
        res
    }

    /// Sets whether the worker connects through its external IP address.
    pub fn using_external_ip(self, use_external_ip: bool) -> (res: Self)
        ensures
            res == (ConnectionParameters {
                network: (NetworkParameters { use_external_ip, ..self.network }),
                ..self
            }),
    {
        let mut res = self;
        res.network.use_external_ip = use_external_ip;
        res
    }

    /// Sets how long the connection may take to be made.
    pub fn with_connection_timeout(self, timeout_millis: u64) -> (res: Self)
        ensures
            res == (ConnectionParameters {
                network: (NetworkParameters {
                    connection_timeout_millis: timeout_millis,
                    ..self.network
                }),
                ..self
            }),
    {
        let mut res = self;
        res.network.connection_timeout_millis = timeout_millis;
        res
    }
}

} // verus!
