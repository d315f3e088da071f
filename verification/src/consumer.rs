use vstd::prelude::*;

use crate::auth::{spec_decide_refresh, RefreshDecision};
use crate::errors::ProxyError;
use crate::stats::{spec_saturating_add, RelayerStageStats, StatsReport};
use crate::tpu::HeartbeatEvent;
use crate::watchdog::{spec_heartbeat_age, HeartbeatWatchdog};

verus! {

/// One packet in the validator's internal representation. Translation
/// from the wire format is done by an external collaborator before the
/// batch reaches this crate.
#[derive(Debug)]
pub struct Packet {
    pub data: Vec<u8>,
}

/// A batch of packets as delivered by one stream message.
#[derive(Debug)]
pub struct PacketBatch {
    pub packets: Vec<Packet>,
}

/// The per-batch verification statistics slot expected by the verified
/// sink. Batches arriving through the relayer carry no such statistics,
/// so the slot sent along with them is always absent.
#[derive(Debug)]
pub struct SigverifyTracerPacketStats {
    pub num_packets: u64,
}

/// One decoded message of the packet stream.
#[derive(Debug)]
pub enum RelayerMessage {
    /// A message with no recognized payload; counted, not fatal.
    Empty,
    /// A batch of packets to forward downstream.
    Batch(PacketBatch),
    /// A liveness signal from the relayer.
    Heartbeat,
}

/// What the consumer must do with one stream message.
pub enum MessagePlan {
    /// Count the empty message and move on.
    CountEmpty,
    /// Forward the batch to the verified sink, paired with an absent
    /// statistics slot: signature verification is bypassed.
    ForwardTrusted { batches: Vec<PacketBatch>, stats_slot: Option<SigverifyTracerPacketStats> },
    /// Forward the batch to the unverified sink for downstream signature
    /// verification.
    ForwardUntrusted { batch: PacketBatch },
    /// Record the heartbeat and replay the connection's heartbeat event.
    RecordHeartbeat,
}

/// Decides where one stream message goes. With `trust_packets` set every
/// batch is forwarded to the verified sink paired with an empty
/// statistics slot and never to the unverified sink; with it unset, the
/// reverse holds.
pub fn route_message(msg: RelayerMessage, trust_packets: bool) -> (r: MessagePlan)
    ensures
        msg is Empty ==> r is CountEmpty,
        msg is Heartbeat ==> r is RecordHeartbeat,
        msg matches RelayerMessage::Batch(b) ==> (trust_packets ==> (
        r matches MessagePlan::ForwardTrusted { batches, stats_slot } && batches@.len() == 1
            && batches@[0] == b && stats_slot is None)),
        msg matches RelayerMessage::Batch(b) ==> (!trust_packets ==> (
        r matches MessagePlan::ForwardUntrusted { batch } && batch == b)),
{
    match msg {
        RelayerMessage::Empty => MessagePlan::CountEmpty,
        RelayerMessage::Heartbeat => MessagePlan::RecordHeartbeat,
        RelayerMessage::Batch(batch) => {
            if trust_packets {
                let mut batches: Vec<PacketBatch> = Vec::new();
                batches.push(batch);
                MessagePlan::ForwardTrusted { batches, stats_slot: None }
            } else {
                MessagePlan::ForwardUntrusted { batch }
            }
        },
    }
}

/// Handles one decoded stream message: counts it, and either forwards the
/// batch to the sink picked by [`route_message`], or records the
/// heartbeat and replays the connection's heartbeat event. A closed sink
/// is fatal: `PacketForwardError` for a batch, `HeartbeatChannelError`
/// for a heartbeat.
pub fn handle_relayer_packets(
    msg: RelayerMessage,
    heartbeat_event: &HeartbeatEvent,
    heartbeat_tx: &crossbeam_channel::Sender<HeartbeatEvent>,
    watchdog: &mut HeartbeatWatchdog,
    now: u64,
    packet_tx: &crossbeam_channel::Sender<PacketBatch>,
    trust_packets: bool,
    verified_packet_tx: &crossbeam_channel::Sender<
        (Vec<PacketBatch>, Option<SigverifyTracerPacketStats>),
    >,
    relayer_stats: &mut RelayerStageStats,
) -> (r: Result<(), ProxyError>)
    ensures
        msg is Empty ==> (final(relayer_stats).num_empty_messages == spec_saturating_add(
            old(relayer_stats).num_empty_messages,
            1,
        ) && final(relayer_stats).num_packets == old(relayer_stats).num_packets && final(relayer_stats).num_heartbeats == old(relayer_stats).num_heartbeats && *final(watchdog) == *old(watchdog)
            && r is Ok),
        msg matches RelayerMessage::Batch(b) ==> (final(relayer_stats).num_packets
            == spec_saturating_add(old(relayer_stats).num_packets, b.packets@.len() as u64)
            && final(relayer_stats).num_empty_messages == old(relayer_stats).num_empty_messages
            && final(relayer_stats).num_heartbeats == old(relayer_stats).num_heartbeats && *final(watchdog) == *old(watchdog) && (r is Ok || r == Result::<(), ProxyError>::Err(
            ProxyError::PacketForwardError,
        ))),
        msg is Heartbeat ==> (final(relayer_stats).num_heartbeats == spec_saturating_add(
            old(relayer_stats).num_heartbeats,
            1,
        ) && final(relayer_stats).num_empty_messages == old(relayer_stats).num_empty_messages
            && final(relayer_stats).num_packets == old(relayer_stats).num_packets && final(watchdog).last_heartbeat == now && final(watchdog).oldest_allowed_heartbeat == old(watchdog).oldest_allowed_heartbeat && (r is Ok || r == Result::<(), ProxyError>::Err(
            ProxyError::HeartbeatChannelError,
        ))),
{
    let plan = route_message(msg, trust_packets);
    match plan {
        MessagePlan::CountEmpty => {
            relayer_stats.num_empty_messages = relayer_stats.num_empty_messages.saturating_add(1);
            Ok(())
        },
        MessagePlan::ForwardTrusted { batches, stats_slot } => {
            let num: u64 = batches[0].packets.len() as u64;
            relayer_stats.num_packets = relayer_stats.num_packets.saturating_add(num);
            match verified_packet_tx.send((batches, stats_slot)) {
                Ok(_) => Ok(()),
                Err(_) => Err(ProxyError::PacketForwardError),
            }
        },
        MessagePlan::ForwardUntrusted { batch } => {
            let num: u64 = batch.packets.len() as u64;
            relayer_stats.num_packets = relayer_stats.num_packets.saturating_add(num);
            match packet_tx.send(batch) {
                Ok(_) => Ok(()),
                Err(_) => Err(ProxyError::PacketForwardError),
            }
        },
        MessagePlan::RecordHeartbeat => {
            relayer_stats.num_heartbeats = relayer_stats.num_heartbeats.saturating_add(1);
            watchdog.record_heartbeat(now);
            match heartbeat_tx.send(*heartbeat_event) {
                Ok(_) => Ok(()),
                Err(_) => Err(ProxyError::HeartbeatChannelError),
            }
        },
    }
}

/// Classifies what the stream handed back: a decoded message is passed
/// on, a cleanly ended stream is `GrpcStreamDisconnected`, and a
/// transport error is carried through.
pub fn check_stream_item(item: Result<Option<RelayerMessage>, String>) -> (r: Result<
    RelayerMessage,
    ProxyError,
>)
    ensures
        item matches Ok(o) ==> (o matches Some(m) ==> r == Ok::<RelayerMessage, ProxyError>(m)),
        item matches Ok(o) ==> (o is None ==> r == Result::<RelayerMessage, ProxyError>::Err(
            ProxyError::GrpcStreamDisconnected,
        )),
        item matches Err(s) ==> (r matches Err(e) && e matches ProxyError::GrpcError(m) && m@
            == s@),
{
    match item {
        Ok(Some(m)) => Ok(m),
        Ok(None) => Err(ProxyError::GrpcStreamDisconnected),
        Err(s) => Err(ProxyError::GrpcError(s)),
    }
}

/// Compares two byte strings.
pub fn bytes_equal(a: &Vec<u8>, b: &Vec<u8>) -> (r: bool)
    ensures
        r <==> a@ == b@,
{
    if a.len() != b.len() {
        return false;
    }
    let n = a.len();
    let mut i: usize = 0;
    while i < n
        invariant
            i <= n,
            n == a@.len(),
            n == b@.len(),
            forall|j: int| 0 <= j < i ==> a@[j] == b@[j],
        decreases n - i,
    {
        if a[i] != b[i] {
            return false;
        }
        i = i + 1;
    }
    proof {
        assert(a@ =~= b@);
    }
    true
}

/// The maintenance tick's decision. The local signing identity must
/// still be the one the connection was authorized for; if it rotated,
/// the connection fails with `IdentityChanged` before any refresh is
/// considered. Otherwise the refresh decision is re-evaluated against
/// the current instant, independently of earlier ticks.
pub fn maintenance_plan(
    connected_identity: &Vec<u8>,
    current_identity: &Vec<u8>,
    access_expiry: u64,
    refresh_expiry: u64,
    now: u64,
    lookahead: u64,
) -> (r: Result<RefreshDecision, ProxyError>)
    ensures
        current_identity@ != connected_identity@ ==> r == Result::<
            RefreshDecision,
            ProxyError,
        >::Err(ProxyError::IdentityChanged),
        current_identity@ == connected_identity@ ==> r == Ok::<RefreshDecision, ProxyError>(
            spec_decide_refresh(access_expiry, refresh_expiry, now, lookahead),
        ),
{
    if !bytes_equal(current_identity, connected_identity) {
        return Err(ProxyError::IdentityChanged);
    }
    Ok(crate::auth::decide_refresh(access_expiry, refresh_expiry, now, lookahead))
}

/// The maintenance tick against the wall clock: reads the current
/// instant once and judges the identity and both expiries against it, as
/// an independent re-evaluation of current state. The returned instant
/// is the one the decision was made at.
pub fn maintenance_plan_now(
    connected_identity: &Vec<u8>,
    current_identity: &Vec<u8>,
    access_expiry: u64,
    refresh_expiry: u64,
    lookahead: u64,
) -> (r: (u64, Result<RefreshDecision, ProxyError>))
    ensures
        current_identity@ != connected_identity@ ==> r.1 == Result::<
            RefreshDecision,
            ProxyError,
        >::Err(ProxyError::IdentityChanged),
        current_identity@ == connected_identity@ ==> r.1 == Ok::<RefreshDecision, ProxyError>(
            spec_decide_refresh(access_expiry, refresh_expiry, r.0, lookahead),
        ),
{
    let now = crate::clock::current_unix_time();
    let plan = maintenance_plan(
        connected_identity,
        current_identity,
        access_expiry,
        refresh_expiry,
        now,
        lookahead,
    );
    (now, plan)
}

/// One of the four event sources the streaming loop races; exactly one
/// is serviced per iteration, first-ready-wins.
#[derive(Debug)]
pub enum ConsumerEvent {
    /// The packet stream yielded an item (or ended, or failed).
    StreamItem(Result<Option<RelayerMessage>, String>),
    /// The heartbeat-deadline timer fired.
    HeartbeatDeadlineTick,
    /// The statistics timer fired.
    MetricsTick,
    /// The maintenance timer fired; carries the freshly re-read local
    /// identity and the credential expiries to judge.
    MaintenanceTick {
        current_identity: Vec<u8>,
        access_expiry: u64,
        refresh_expiry: u64,
        lookahead: u64,
    },
}

/// What servicing one event asks of the caller.
#[derive(Debug)]
pub enum ConsumerEffect {
    /// Nothing further: the event was fully handled.
    Handled,
    /// Emit this statistics datapoint.
    EmitStats(StatsReport),
    /// Perform this credential maintenance (the refresh RPCs are the
    /// caller's to make).
    Refresh(RefreshDecision),
}

/// Services one iteration of the streaming loop: decodes and routes a
/// stream item, checks the heartbeat deadline, emits and resets the
/// statistics, or judges identity and credential expiry — whichever
/// source fired. Every error returned here is fatal to the connection
/// and sends control back to the supervisor.
pub fn consumer_step(
    event: ConsumerEvent,
    now: u64,
    heartbeat_event: &HeartbeatEvent,
    heartbeat_tx: &crossbeam_channel::Sender<HeartbeatEvent>,
    packet_tx: &crossbeam_channel::Sender<PacketBatch>,
    verified_packet_tx: &crossbeam_channel::Sender<
        (Vec<PacketBatch>, Option<SigverifyTracerPacketStats>),
    >,
    trust_packets: bool,
    watchdog: &mut HeartbeatWatchdog,
    relayer_stats: &mut RelayerStageStats,
    connected_identity: &Vec<u8>,
) -> (r: Result<ConsumerEffect, ProxyError>)
    ensures
        event matches ConsumerEvent::StreamItem(item) ==> (item matches Ok(o) ==> (o is None
            ==> r == Result::<ConsumerEffect, ProxyError>::Err(
            ProxyError::GrpcStreamDisconnected,
        ))),
        event matches ConsumerEvent::StreamItem(item) ==> (item matches Err(s) ==> (
        r matches Err(e) && e matches ProxyError::GrpcError(m) && m@ == s@)),
        event matches ConsumerEvent::StreamItem(item) ==> (item matches Ok(o) ==> (o matches Some(
            msg,
        ) ==> ((msg is Empty ==> (r == Ok::<ConsumerEffect, ProxyError>(ConsumerEffect::Handled)
            && final(relayer_stats).num_empty_messages == spec_saturating_add(
            old(relayer_stats).num_empty_messages,
            1,
        ) && *final(watchdog) == *old(watchdog))) && (msg is Heartbeat ==> (final(watchdog).last_heartbeat == now && final(relayer_stats).num_heartbeats == spec_saturating_add(
            old(relayer_stats).num_heartbeats,
            1,
        ) && (r == Ok::<ConsumerEffect, ProxyError>(ConsumerEffect::Handled) || r == Result::<
            ConsumerEffect,
            ProxyError,
        >::Err(ProxyError::HeartbeatChannelError)))) && (msg matches RelayerMessage::Batch(b) ==> (
        final(relayer_stats).num_packets == spec_saturating_add(
            old(relayer_stats).num_packets,
            b.packets@.len() as u64,
        ) && *final(watchdog) == *old(watchdog) && (r == Ok::<ConsumerEffect, ProxyError>(
            ConsumerEffect::Handled,
        ) || r == Result::<ConsumerEffect, ProxyError>::Err(ProxyError::PacketForwardError))))))),
        event is HeartbeatDeadlineTick ==> (*final(watchdog) == *old(watchdog) && *final(relayer_stats) =~= *old(relayer_stats) && (r == Ok::<ConsumerEffect, ProxyError>(
            ConsumerEffect::Handled,
        ) <==> spec_heartbeat_age(old(watchdog).last_heartbeat, now) <= old(watchdog).oldest_allowed_heartbeat) && (r is Err ==> r == Result::<ConsumerEffect, ProxyError>::Err(
            ProxyError::HeartbeatExpired,
        ))),
        event is MetricsTick ==> (r matches Ok(eff) && eff matches ConsumerEffect::EmitStats(rep)
            && rep.name@ == "relayer_stage-stats"@ && rep.num_empty_messages == old(relayer_stats).num_empty_messages && rep.num_packets == old(relayer_stats).num_packets
            && rep.num_heartbeats == old(relayer_stats).num_heartbeats && final(relayer_stats).num_empty_messages == 0 && final(relayer_stats).num_packets == 0 && final(relayer_stats).num_heartbeats == 0 && *final(watchdog) == *old(watchdog)),
        event matches ConsumerEvent::MaintenanceTick {
            current_identity,
            access_expiry,
            refresh_expiry,
            lookahead,
        } ==> ((current_identity@ != connected_identity@ ==> r == Result::<
            ConsumerEffect,
            ProxyError,
        >::Err(ProxyError::IdentityChanged)) && (current_identity@ == connected_identity@ ==> r
            == Ok::<ConsumerEffect, ProxyError>(
            ConsumerEffect::Refresh(
                crate::auth::spec_decide_refresh(access_expiry, refresh_expiry, now, lookahead),
            ),
        )) && *final(watchdog) == *old(watchdog) && *final(relayer_stats) =~= *old(relayer_stats)),
{
    match event {
        ConsumerEvent::StreamItem(item) => {
            let msg = check_stream_item(item)?;
            handle_relayer_packets(
                msg,
                heartbeat_event,
                heartbeat_tx,
                watchdog,
                now,
                packet_tx,
                trust_packets,
                verified_packet_tx,
                relayer_stats,
            )?;
            Ok(ConsumerEffect::Handled)
        },
        ConsumerEvent::HeartbeatDeadlineTick => {
            watchdog.check(now)?;
            Ok(ConsumerEffect::Handled)
        },
        ConsumerEvent::MetricsTick => Ok(ConsumerEffect::EmitStats(relayer_stats.tick())),
        ConsumerEvent::MaintenanceTick {
            current_identity,
            access_expiry,
            refresh_expiry,
            lookahead,
        } => {
            let decision = maintenance_plan(
                connected_identity,
                &current_identity,
                access_expiry,
                refresh_expiry,
                now,
                lookahead,
            )?;
            Ok(ConsumerEffect::Refresh(decision))
        },
    }
}

} // verus!
