use spatialos_sdk::worker::logging::{LogsinkParameters, LogsinkType};
use spatialos_sdk::worker::parameters::{
    ConnectionParameters, FlowControlParameters, KcpTransportParameters,
    ModularKcpNetworkParameters, ModularTcpNetworkParameters, NetworkParameters, ProtocolType,
    SecurityType, TcpTransportParameters, ThreadAffinityParameters,
};

fn kcp() -> ModularKcpNetworkParameters {
    let transport = KcpTransportParameters {
        flush_interval_millis: 10,
        fast_retransmission: true,
        early_retransmission: true,
        disable_congestion_control: false,
        min_rto_millis: 10,
    };
    ModularKcpNetworkParameters {
        security_type: SecurityType::default(),
        multiplex_level: 32,
        downstream_kcp: transport,
        upstream_kcp: transport,
        downstream_erasure_codec: None,
        upstream_erasure_codec: None,
        downstream_heartbeat: None,
        upstream_heartbeat: None,
        downstream_compression: None,
        upstream_compression: None,
        flow_control: Some(FlowControlParameters {
            downstream_window_size_bytes: 65536,
            upstream_window_size_bytes: 65536,
        }),
    }
}

fn tcp() -> ModularTcpNetworkParameters {
    ModularTcpNetworkParameters {
        security_type: SecurityType::DTLS,
        multiplex_level: 4,
        downstream_tcp: TcpTransportParameters { flush_delay_millis: 1 },
        upstream_tcp: TcpTransportParameters { flush_delay_millis: 2 },
        downstream_heartbeat: None,
        upstream_heartbeat: None,
        downstream_compression: None,
        upstream_compression: None,
        flow_control: None,
    }
}

fn base() -> ConnectionParameters {
    ConnectionParameters {
        worker_type: String::from("Managed"),
        network: NetworkParameters {
            use_external_ip: false,
            protocol: ProtocolType::Kcp(kcp()),
            connection_timeout_millis: 60000,
            default_command_timeout_millis: 5000,
        },
        send_queue_capacity: 4096,
        receive_queue_capacity: 4096,
        log_message_queue_capacity: 256,
        built_in_metrics_report_period_millis: 5000,
        logsinks: vec![],
        enable_logging_at_startup: false,
        enable_dynamic_components: false,
        thread_affinity: ThreadAffinityParameters::default(),
    }
}

#[test]
fn security_type_defaults_to_insecure() {
    assert_eq!(SecurityType::default(), SecurityType::Insecure);
}

#[test]
fn thread_affinity_default_is_unbound() {
    let t = ThreadAffinityParameters::default();
    assert_eq!(t.receive_threads_affinity_mask, 0);
    assert_eq!(t.send_threads_affinity_mask, 0);
    assert_eq!(t.temporary_threads_affinity_mask, 0);
}

#[test]
fn connection_builders_change_one_setting() {
    let params = base().using_external_ip(true).with_connection_timeout(1234);
    assert!(params.network.use_external_ip);
    assert_eq!(params.network.connection_timeout_millis, 1234);
    assert_eq!(params.network.default_command_timeout_millis, 5000);
    assert_eq!(params.worker_type, "Managed");
    assert_eq!(params.send_queue_capacity, 4096);

    let params = params.using_tcp_with_params(tcp());
    match params.network.protocol {
        ProtocolType::Tcp(t) => {
            assert_eq!(t.multiplex_level, 4);
            assert_eq!(t.security_type, SecurityType::DTLS);
            assert_eq!(t.upstream_tcp.flush_delay_millis, 2);
        }
        ProtocolType::Kcp(_) => panic!("expected TCP"),
    }
    assert!(params.network.use_external_ip);

    let params = params.using_kcp_with_params(kcp());
    match params.network.protocol {
        ProtocolType::Kcp(k) => assert_eq!(k.multiplex_level, 32),
        ProtocolType::Tcp(_) => panic!("expected KCP"),
    }
}

#[test]
fn logsinks_are_kept_in_order() {
    let mut stderr = LogsinkParameters::default();
    stderr.logsink_type = LogsinkType::Stderr;
    let params = base().with_logsink(LogsinkParameters::default()).with_logsink(stderr);
    assert_eq!(params.logsinks.len(), 2);
    assert_eq!(params.logsinks[0].logsink_type, LogsinkType::Stdout);
    assert_eq!(params.logsinks[1].logsink_type, LogsinkType::Stderr);
    assert_eq!(params.logsinks[0].filter_parameters.categories.bits(), 0x7f);
}
