//! Connection and traffic counters the server keeps per process, and the
//! snapshot it serves over its administrative interface.

use crate::clock::now_millis;
use vstd::prelude::*;

verus! {

/// One room and how many users sit in it.
#[derive(Clone, Debug, PartialEq, Eq)]
pub struct RoomStat {
    pub name: String,
    pub user_count: usize,
}

/// Counters over the life of the process. Counts wrap around like the
/// machine words they are.
pub struct Metrics {
    active_connections: usize,
    total_bytes_rx: u64,
    total_bytes_tx: u64,
    start_ms: u64,
}

/// The answer the metrics endpoint serves: totals plus an average receive
/// rate over the whole uptime.
pub struct MetricsSnapshot {
    pub uptime_seconds: u64,
    pub active_connections: usize,
    pub total_bytes_received: u64,
    pub total_bytes_sent: u64,
    pub avg_rx_speed_bps: u64,
}

impl Metrics {
    pub closed spec fn spec_active(self) -> usize {
        self.active_connections
    }

    pub closed spec fn spec_rx(self) -> u64 {
        self.total_bytes_rx
    }

    pub closed spec fn spec_tx(self) -> u64 {
        self.total_bytes_tx
    }

    /// Fresh counters, stamped with the clock so uptime can be served.
    pub fn new() -> (r: Self)
        ensures
            r.spec_active() == 0,
            r.spec_rx() == 0,
            r.spec_tx() == 0,
    {
        Metrics {
            active_connections: 0,
            total_bytes_rx: 0,
            total_bytes_tx: 0,
            start_ms: now_millis(),
        }
    }

    pub fn inc_connection(&mut self)
        ensures
            old(self).spec_active() < usize::MAX ==> final(self).spec_active() == old(
                self,
            ).spec_active() + 1,
            old(self).spec_active() == usize::MAX ==> final(self).spec_active() == 0,
            final(self).spec_rx() == old(self).spec_rx(),
            final(self).spec_tx() == old(self).spec_tx(),
    {
        self.active_connections = if self.active_connections == usize::MAX {
            0
        } else {
            self.active_connections + 1
        };
    }

    pub fn dec_connection(&mut self)
        ensures
            old(self).spec_active() > 0 ==> final(self).spec_active() == old(self).spec_active()
                - 1,
            old(self).spec_active() == 0 ==> final(self).spec_active() == usize::MAX,
            final(self).spec_rx() == old(self).spec_rx(),
            final(self).spec_tx() == old(self).spec_tx(),
    {
        self.active_connections = if self.active_connections == 0 {
            usize::MAX
        } else {
            self.active_connections - 1
        };
    }

    pub fn add_rx(&mut self, size: u64)
        ensures
            old(self).spec_rx() + size <= u64::MAX ==> final(self).spec_rx() == old(self).spec_rx()
                + size,
            old(self).spec_rx() + size > u64::MAX ==> final(self).spec_rx() == old(self).spec_rx()
                + size - 0x1_0000_0000_0000_0000,
            final(self).spec_active() == old(self).spec_active(),
            final(self).spec_tx() == old(self).spec_tx(),
    {
        self.total_bytes_rx = self.total_bytes_rx.wrapping_add(size);
    }

    pub fn add_tx(&mut self, size: u64)
        ensures
            old(self).spec_tx() + size <= u64::MAX ==> final(self).spec_tx() == old(self).spec_tx()
                + size,
            old(self).spec_tx() + size > u64::MAX ==> final(self).spec_tx() == old(self).spec_tx()
                + size - 0x1_0000_0000_0000_0000,
            final(self).spec_active() == old(self).spec_active(),
            final(self).spec_rx() == old(self).spec_rx(),
    {
        self.total_bytes_tx = self.total_bytes_tx.wrapping_add(size);
    }

    /// A snapshot of the counters. The uptime comes from the wall clock; the
    /// average rate is the received total over the uptime, with a floor of
    /// one second so the division is defined.
    pub fn snapshot(&self) -> (r: MetricsSnapshot)
        ensures
            r.active_connections == self.spec_active(),
            r.total_bytes_received == self.spec_rx(),
            r.total_bytes_sent == self.spec_tx(),
            r.avg_rx_speed_bps == r.total_bytes_received as int / (if r.uptime_seconds == 0 {
                1int
            } else {
                r.uptime_seconds as int
            }),
    {
        let now = now_millis();
        let uptime_ms: u64 = if now >= self.start_ms {
            now - self.start_ms
        } else {
            0
        };
        let uptime = uptime_ms / 1000;
        let safe_uptime: u64 = if uptime == 0 {
            1
        } else {
            uptime
        };
        MetricsSnapshot {
            uptime_seconds: uptime,
            active_connections: self.active_connections,
            total_bytes_received: self.total_bytes_rx,
            total_bytes_sent: self.total_bytes_tx,
            avg_rx_speed_bps: self.total_bytes_rx / safe_uptime,
        }
    }
}

} // verus!
