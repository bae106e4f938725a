use vstd::prelude::*;

verus! {

pub const INGEST_COUNT: &'static str = "log_daemon_ingest_count";

pub const BYTES_PROCESSED: &'static str = "log_daemon_bytes_processed";

pub const DROPPED_MESSAGES: &'static str = "log_daemon_dropped_messages";

pub const WRITE_LATENCY: &'static str = "log_daemon_write_latency_ms";

pub const ACTIVE_CONNECTIONS: &'static str = "log_daemon_active_connections";

/// The gauge of live connection handlers: one step up as a handler enters,
/// one step down as it exits.
pub struct ConnectionGauge {
    active: usize,
    opened: Ghost<int>,
    closed: Ghost<int>,
}

impl ConnectionGauge {
    /// How many handlers ever entered.
    pub closed spec fn opened(self) -> int {
        self.opened@
    }

    /// How many handlers ever exited.
    pub closed spec fn closed(self) -> int {
        self.closed@
    }

    /// The gauge's current value.
    pub closed spec fn active(self) -> int {
        self.active as int
    }

    /// The gauge counts exactly the handlers that entered and did not exit.
    pub open spec fn inv(self) -> bool {
        &&& 0 <= self.closed() <= self.opened()
        &&& self.active() == self.opened() - self.closed()
    }

    pub fn new() -> (r: Self)
        ensures
            r.inv(),
            r.opened() == 0,
            r.closed() == 0,
            r.active() == 0,
    {
        ConnectionGauge { active: 0, opened: Ghost(0), closed: Ghost(0) }
    }

    /// A handler enters: the gauge rises by one.
    pub fn connect(&mut self) -> (n: usize)
        requires
            old(self).inv(),
            old(self).active() < usize::MAX,
        ensures
            final(self).inv(),
            final(self).opened() == old(self).opened() + 1,
            final(self).closed() == old(self).closed(),
            n == final(self).active() == old(self).active() + 1,
    {
        self.active = self.active + 1;
        proof {
            self.opened@ = self.opened@ + 1;
        }
        self.active
    }

    /// A handler exits: the gauge falls by one.
    pub fn disconnect(&mut self) -> (n: usize)
        requires
            old(self).inv(),
            old(self).active() > 0,
        ensures
            final(self).inv(),
            final(self).opened() == old(self).opened(),
            final(self).closed() == old(self).closed() + 1,
            n == final(self).active() == old(self).active() - 1,
    {
        self.active = self.active - 1;
        proof {
            self.closed@ = self.closed@ + 1;
        }
        self.active
    }

    /// The gauge's current value.
    pub fn current(&self) -> (n: usize)
        ensures
            n == self.active(),
    {
        self.active
    }
}

/// Once every handler that entered has exited, the gauge stands at zero
/// again.
pub proof fn lemma_gauge_returns_to_zero(g: ConnectionGauge)
    requires
        g.inv(),
        g.opened() == g.closed(),
    ensures
        g.active() == 0,
{
}

} // verus!
