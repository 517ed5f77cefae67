use crate::pool::PoolError;
use crate::pool::TorProxyManager;
use vstd::prelude::*;

verus! {

/// Relies on port_scanner::local_port_available: tries to bind the
/// port on the local loopback interface and reports whether that
/// succeeded. The answer depends on the host's state at the moment of
/// the call — a point-in-time snapshot, inherently racy against other
/// processes — so nothing is promised of the result.
#[verifier::external_body]
fn probe_port_available(port: u16) -> bool {
    port_scanner::local_port_available(port)
}

impl TorProxyManager {
    /// Walks the configured port range in ascending order, probing
    /// each port for local availability, and collects up to
    /// `count_ports_max` free ports, stopping early once satisfied.
    /// Whatever the probes answered, every returned port lies inside
    /// the configured range and the result is strictly increasing, so
    /// no port is reported twice. A short result means the range ran
    /// out of free ports; the caller must treat that as a hard
    /// failure, never as a partial pool.
    pub fn search_available_ports(&self, count_ports_max: u16) -> (found: Vec<u16>)
        requires
            self.wf(),
        ensures
            found@.len() <= count_ports_max,
            found@.len() <= self.spec_range_end() - self.spec_range_start(),
            forall|i: int|
                0 <= i < found@.len() ==> self.spec_range_start() <= #[trigger] found@[i]
                    < self.spec_range_end(),
            forall|i: int, j: int| 0 <= i < j < found@.len() ==> found@[i] < found@[j],
    {
        let start = self.range_start();
        let end = self.range_end();
        let mut available_ports: Vec<u16> = Vec::new();
        if count_ports_max == 0 {
            return available_ports;
        }
        let mut port = start;
        while port < end
            invariant
                start == self.spec_range_start(),
                end == self.spec_range_end(),
                start <= port <= end,
                available_ports@.len() < count_ports_max,
                available_ports@.len() <= port - start,
                forall|i: int|
                    0 <= i < available_ports@.len() ==> start <= #[trigger] available_ports@[i]
                        < port,
                forall|i: int, j: int|
                    0 <= i < j < available_ports@.len() ==> available_ports@[i]
                        < available_ports@[j],
            decreases end - port,
        {
            if probe_port_available(port) {
                available_ports.push(port);
                if available_ports.len() == count_ports_max as usize {
                    return available_ports;
                }
            }
            port = port + 1;
        }
        available_ports
    }

    /// Readies the pool for serving: probes the configured range for
    /// two free ports per backend and, when enough were found, pairs
    /// them into the descriptor list. On success the pool holds one
    /// descriptor per configured backend, built over distinct ports of
    /// the configured range with each control port below its proxy
    /// port; on failure — only possible because the probes found too
    /// few free ports — the capacity error is returned and the pool is
    /// left unchanged. Provisioning the backend processes behind the
    /// descriptors is the caller's business, not this manager's.
    pub fn start(&mut self) -> (r: Result<(), PoolError>)
        requires
            old(self).wf(),
        ensures
            final (self).wf(),
            final (self).spec_count() == old(self).spec_count(),
            final (self).spec_range_start() == old(self).spec_range_start(),
            final (self).spec_range_end() == old(self).spec_range_end(),
            r is Err ==> r == Err::<(), PoolError>(PoolError::InsufficientPorts) && *final (self)
                == *old(self),
            r is Ok ==> {
                &&& final (self).spec_ports().len() == old(self).spec_count()
                &&& final (self).spec_cursor() == 0
                &&& forall|i: int|
                    0 <= i < final (self).spec_ports().len() ==> {
                        &&& old(self).spec_range_start()
                            <= (#[trigger] final (self).spec_ports()[i]).control_port
                        &&& final (self).spec_ports()[i].control_port < final (self).spec_ports()[i].proxy_port
                        &&& final (self).spec_ports()[i].proxy_port < old(self).spec_range_end()
                    }
                &&& forall|i: int, j: int|
                    0 <= i < j < final (self).spec_ports().len()
                        ==> (#[trigger] final (self).spec_ports()[i]).proxy_port
                        < (#[trigger] final (self).spec_ports()[j]).control_port
            },
    {
        let needed: u32 = (self.count() as u32) * 2;
        if needed > 0xffff {
            return Err(PoolError::InsufficientPorts);
        }
        let available_ports = self.search_available_ports(needed as u16);
        if (available_ports.len() as u32) < needed {
            return Err(PoolError::InsufficientPorts);
        }
        let r = self.set_ports(&available_ports);
        r
    }
}

} // verus!
