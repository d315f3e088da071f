use relayer_proxy::auth::RefreshDecision;
use relayer_proxy::consumer::{consumer_step, ConsumerEffect, ConsumerEvent, RelayerMessage};
use relayer_proxy::errors::ProxyError;
use relayer_proxy::stats::RelayerStageStats;
use relayer_proxy::tpu::{heartbeat_event_from_config, TpuConfigResponse, TpuSocketConfig};
use relayer_proxy::watchdog::HeartbeatWatchdog;

struct Loop {
    heartbeat_tx: crossbeam_channel::Sender<relayer_proxy::tpu::HeartbeatEvent>,
    heartbeat_rx: crossbeam_channel::Receiver<relayer_proxy::tpu::HeartbeatEvent>,
    packet_tx: crossbeam_channel::Sender<relayer_proxy::consumer::PacketBatch>,
    packet_rx: crossbeam_channel::Receiver<relayer_proxy::consumer::PacketBatch>,
    verified_tx: crossbeam_channel::Sender<(
        Vec<relayer_proxy::consumer::PacketBatch>,
        Option<relayer_proxy::consumer::SigverifyTracerPacketStats>,
    )>,
    verified_rx: crossbeam_channel::Receiver<(
        Vec<relayer_proxy::consumer::PacketBatch>,
        Option<relayer_proxy::consumer::SigverifyTracerPacketStats>,
    )>,
    event: relayer_proxy::tpu::HeartbeatEvent,
    watchdog: HeartbeatWatchdog,
    stats: RelayerStageStats,
    connected: Vec<u8>,
}

impl Loop {
    fn new() -> Self {
        let (heartbeat_tx, heartbeat_rx) = crossbeam_channel::unbounded();
        let (packet_tx, packet_rx) = crossbeam_channel::unbounded();
        let (verified_tx, verified_rx) = crossbeam_channel::unbounded();
        let event = heartbeat_event_from_config(&TpuConfigResponse {
            tpu: Some(TpuSocketConfig {
                ip: "127.0.0.1".to_string(),
                port: 8000,
            }),
            tpu_forward: Some(TpuSocketConfig {
                ip: "127.0.0.1".to_string(),
                port: 8001,
            }),
        })
        .unwrap();
        Loop {
            heartbeat_tx,
            heartbeat_rx,
            packet_tx,
            packet_rx,
            verified_tx,
            verified_rx,
            event,
            watchdog: HeartbeatWatchdog::new(0, 20),
            stats: RelayerStageStats::default(),
            connected: vec![7u8; 32],
        }
    }

    fn step(&mut self, event: ConsumerEvent, now: u64) -> Result<ConsumerEffect, ProxyError> {
        consumer_step(
            event,
            now,
            &self.event,
            &self.heartbeat_tx,
            &self.packet_tx,
            &self.verified_tx,
            false,
            &mut self.watchdog,
            &mut self.stats,
            &self.connected,
        )
    }
}

#[test]
fn one_step_services_each_event_source() {
    let mut l = Loop::new();

    // A heartbeat message resets the staleness clock and reaches the
    // heartbeat sink.
    let r = l.step(
        ConsumerEvent::StreamItem(Ok(Some(RelayerMessage::Heartbeat))),
        9,
    );
    assert!(matches!(r.unwrap(), ConsumerEffect::Handled));
    assert_eq!(l.watchdog.last_heartbeat, 9);
    assert!(l.heartbeat_rx.try_recv().is_ok());

    // The deadline tick passes within the allowed age and fails past it.
    assert!(l.step(ConsumerEvent::HeartbeatDeadlineTick, 29).is_ok());
    assert_eq!(
        l.step(ConsumerEvent::HeartbeatDeadlineTick, 30).unwrap_err(),
        ProxyError::HeartbeatExpired
    );

    // A batch goes to the unverified sink and is counted.
    let batch = relayer_proxy::consumer::PacketBatch {
        packets: vec![relayer_proxy::consumer::Packet { data: vec![1, 2] }],
    };
    l.step(
        ConsumerEvent::StreamItem(Ok(Some(RelayerMessage::Batch(batch)))),
        10,
    )
    .unwrap();
    assert_eq!(l.packet_rx.try_recv().unwrap().packets.len(), 1);
    assert!(l.verified_rx.try_recv().is_err());

    // The metrics tick reports and resets.
    match l.step(ConsumerEvent::MetricsTick, 11).unwrap() {
        ConsumerEffect::EmitStats(report) => {
            assert_eq!(report.num_heartbeats, 1);
            assert_eq!(report.num_packets, 1);
            assert_eq!(report.num_empty_messages, 0);
        }
        _ => panic!("metrics tick must emit statistics"),
    }
    assert_eq!(l.stats.num_packets, 0);

    // A cleanly ended stream is fatal.
    assert_eq!(
        l.step(ConsumerEvent::StreamItem(Ok(None)), 12).unwrap_err(),
        ProxyError::GrpcStreamDisconnected
    );
}

#[test]
fn maintenance_step_judges_identity_before_expiry() {
    let mut l = Loop::new();
    let rotated = vec![8u8; 32];
    let r = l.step(
        ConsumerEvent::MaintenanceTick {
            current_identity: rotated,
            access_expiry: 0,
            refresh_expiry: 0,
            lookahead: 750,
        },
        100,
    );
    assert_eq!(r.unwrap_err(), ProxyError::IdentityChanged);

    let same = vec![7u8; 32];
    let r = l.step(
        ConsumerEvent::MaintenanceTick {
            current_identity: same,
            access_expiry: 100 + 500,
            refresh_expiry: 100_000,
            lookahead: 750,
        },
        100,
    );
    match r.unwrap() {
        ConsumerEffect::Refresh(decision) => assert_eq!(decision, RefreshDecision::LightRefresh),
        _ => panic!("maintenance tick must yield a refresh decision"),
    }
}
