use vstd::prelude::*;

verus! {

/// Addition that sticks at the counter ceiling instead of overflowing.
pub open spec fn spec_saturating_add(a: u64, b: u64) -> u64 {
    if a + b <= u64::MAX {
        (a + b) as u64
    } else {
        u64::MAX
    }
}

/// Per-interval counters of what the packet stream delivered. Reset each
/// reporting interval.
pub struct RelayerStageStats {
    pub num_empty_messages: u64,
    pub num_packets: u64,
    pub num_heartbeats: u64,
}

/// One emitted statistics datapoint: the telemetry event name together
/// with the counter values of the interval that just ended.
#[derive(Debug)]
pub struct StatsReport {
    pub name: String,
    pub num_empty_messages: u64,
    pub num_packets: u64,
    pub num_heartbeats: u64,
}

impl Default for RelayerStageStats {
    /// A fresh interval starts with every counter at zero.
    fn default() -> (r: Self)
        ensures
            r.num_empty_messages == 0,
            r.num_packets == 0,
            r.num_heartbeats == 0,
    {
        RelayerStageStats { num_empty_messages: 0, num_packets: 0, num_heartbeats: 0 }
    }
}

impl RelayerStageStats {
    /// The datapoint to emit for this interval: the counters verbatim,
    /// under the contracted telemetry event name.
    pub fn report(&self) -> (r: StatsReport)
        ensures
            r.name@ == "relayer_stage-stats"@,
            r.num_empty_messages == self.num_empty_messages,
            r.num_packets == self.num_packets,
            r.num_heartbeats == self.num_heartbeats,
    {
        StatsReport {
            name: String::from_str("relayer_stage-stats"),
            num_empty_messages: self.num_empty_messages,
            num_packets: self.num_packets,
            num_heartbeats: self.num_heartbeats,
        }
    }

    /// The metrics tick: emits the interval's datapoint and resets every
    /// counter for the next interval.
    pub fn tick(&mut self) -> (r: StatsReport)
        ensures
            r.name@ == "relayer_stage-stats"@,
            r.num_empty_messages == old(self).num_empty_messages,
            r.num_packets == old(self).num_packets,
            r.num_heartbeats == old(self).num_heartbeats,
            final(self).num_empty_messages == 0,
            final(self).num_packets == 0,
            final(self).num_heartbeats == 0,
    {
        let report = self.report();
        self.num_empty_messages = 0;
        self.num_packets = 0;
        self.num_heartbeats = 0;
        report
    }
}

} // verus!
