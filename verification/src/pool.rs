use vstd::arithmetic::div_mod::lemma_add_mod_noop;
use vstd::arithmetic::div_mod::lemma_mod_add_multiples_vanish;
use vstd::arithmetic::div_mod::lemma_mod_equivalence;
use vstd::arithmetic::div_mod::lemma_mod_pos_bound;
use vstd::arithmetic::div_mod::lemma_mod_self_0;
use vstd::arithmetic::div_mod::lemma_small_mod;
use vstd::prelude::*;

verus! {

/// Default number of backends, and the soft cap above which operation
/// is allowed but not recommended.
pub const MAX_CONTAINERS_RECOMMENDED: u16 = 5;

type NetworkPort = u16;

/// Range of local ports the manager may draw from: `[start, end)`.
struct TorProxyPortRange {
    start: NetworkPort,
    end: NetworkPort,
}

/// One backend's pair of reserved local ports: `control_port` serves
/// the identity-rotation control protocol, `proxy_port` receives the
/// relayed client traffic. The two flags are observability markers
/// only; they never gate selection.
#[derive(Clone, Copy, Debug, PartialEq, Eq, Structural)]
pub struct TorProxyPort {
    pub control_port: NetworkPort,
    pub proxy_port: NetworkPort,
    pub is_used_by_proxy: bool,
    pub use_in_progress: bool,
}

/// Why a configuration was rejected or a pool could not be built.
#[derive(Clone, Copy, Debug, PartialEq, Eq, Structural)]
pub enum PoolError {
    /// The range's start port is larger than its end port.
    StartAfterEnd,
    /// The range's start and end ports are equal.
    EqualBounds,
    /// The range spans fewer ports than the pool needs.
    InsufficientSpan,
    /// Fewer free ports were supplied than the pool needs.
    InsufficientPorts,
}

/// Owns the ordered pool of backend port pairs and the round-robin
/// cursor over them.
pub struct TorProxyManager {
    containers_count: u16,
    pub ports: Vec<TorProxyPort>,
    ports_range: TorProxyPortRange,
    next_available_port_index: usize,
}

/// Index selected by the `k`-th call to `get_next_port` after a state
/// whose cursor stood at `start`, for a pool of `len` descriptors.
pub open spec fn sel_index(start: int, k: int, len: int) -> int
    recommends
        0 < len,
{
    (start + k) % len
}

impl TorProxyManager {
    /// Number of backends this manager was configured for.
    pub closed spec fn spec_count(&self) -> u16 {
        self.containers_count
    }

    /// The descriptor list, as a sequence.
    pub closed spec fn spec_ports(&self) -> Seq<TorProxyPort> {
        self.ports@
    }

    /// The round-robin cursor: index of the descriptor the next call
    /// to `get_next_port` hands out.
    pub closed spec fn spec_cursor(&self) -> int {
        self.next_available_port_index as int
    }

    /// First port of the configured range.
    pub closed spec fn spec_range_start(&self) -> u16 {
        self.ports_range.start
    }

    /// One past the last port of the configured range.
    pub closed spec fn spec_range_end(&self) -> u16 {
        self.ports_range.end
    }

    /// The cursor always points at a descriptor while the pool is
    /// non-empty, and rests at zero while it is empty; the configured
    /// port range is never reversed or empty.
    pub open spec fn wf(&self) -> bool {
        &&& self.spec_ports().len() > 0 ==> self.spec_cursor() < self.spec_ports().len()
        &&& self.spec_ports().len() == 0 ==> self.spec_cursor() == 0
        &&& self.spec_range_start() < self.spec_range_end()
    }

    /// Creates a manager for `containers_count` backends (the
    /// recommended count if none is given), with an empty pool and the
    /// default port range.
    pub fn new(containers_count: Option<u16>) -> (m: Self)
        ensures
            m.wf(),
            m.spec_count() == (match containers_count {
                Some(count) => count,
                None => MAX_CONTAINERS_RECOMMENDED,
            }),
            m.spec_ports().len() == 0,
            m.spec_cursor() == 0,
            m.spec_range_start() == 9000,
            m.spec_range_end() == 9100,
    {
        let containers_count = match containers_count {
            Some(count) => count,
            None => MAX_CONTAINERS_RECOMMENDED,
        };
        Self {
            containers_count,
            ports: Vec::with_capacity(containers_count as usize),
            ports_range: TorProxyPortRange { start: 9000, end: 9100 },
            next_available_port_index: 0,
        }
    }

    /// Configured backend count.
    pub fn count(&self) -> (n: u16)
        ensures
            n == self.spec_count(),
    {
        self.containers_count
    }

    /// First port of the configured range.
    pub fn range_start(&self) -> (p: u16)
        ensures
            p == self.spec_range_start(),
    {
        self.ports_range.start
    }

    /// One past the last port of the configured range.
    pub fn range_end(&self) -> (p: u16)
        ensures
            p == self.spec_range_end(),
    {
        self.ports_range.end
    }

    /// True when the configured backend count is above the
    /// recommended soft cap; the caller may warn but must not stop.
    pub fn exceeds_recommended_count(&self) -> (r: bool)
        ensures
            r == (self.spec_count() > MAX_CONTAINERS_RECOMMENDED),
    {
        self.containers_count > MAX_CONTAINERS_RECOMMENDED
    }

    /// Number of ports the configured pool needs: two per backend.
    fn get_ports_count_to_use(&self) -> (n: u32)
        ensures
            n == 2 * self.spec_count(),
    {
        (self.containers_count as u32) * 2
    }

    /// Checks whether `[start, end)` is a usable port range for this
    /// manager's backend count. Rejects a reversed range, an empty
    /// range, and a range spanning fewer than two ports per backend,
    /// each with its own error; accepts everything else. The stored
    /// range is not changed.
    pub fn set_ports_range(&self, start: NetworkPort, end: NetworkPort) -> (r: Result<
        (),
        PoolError,
    >)
        ensures
            r is Ok <==> (start < end && end - start >= 2 * self.spec_count()),
            r == Err::<(), PoolError>(PoolError::StartAfterEnd) <==> start > end,
            r == Err::<(), PoolError>(PoolError::EqualBounds) <==> start == end,
            r == Err::<(), PoolError>(PoolError::InsufficientSpan) <==> (start < end && end - start
                < 2 * self.spec_count()),
    {
        if start > end {
            return Err(PoolError::StartAfterEnd);
        }
        if start == end {
            return Err(PoolError::EqualBounds);
        }
        let needed: u32 = self.get_ports_count_to_use();
        if ((end - start) as u32) < needed {
            return Err(PoolError::InsufficientSpan);
        }
        Ok(())
    }

    /// Rebuilds the pool from `available_ports`, consuming them two at
    /// a time in the given order: descriptor `i` gets control port
    /// `available_ports[2*i]` and proxy port `available_ports[2*i+1]`.
    /// Fails, leaving the manager unchanged, exactly when fewer than
    /// two ports per backend were supplied. The cursor restarts at the
    /// first descriptor.
    pub fn set_ports(&mut self, available_ports: &Vec<NetworkPort>) -> (r: Result<(), PoolError>)
        requires
            old(self).wf(),
        ensures
            r is Ok <==> available_ports@.len() >= 2 * old(self).spec_count(),
            r is Err ==> r == Err::<(), PoolError>(PoolError::InsufficientPorts) && *final (self)
                == *old(self),
            final (self).spec_count() == old(self).spec_count(),
            final (self).spec_range_start() == old(self).spec_range_start(),
            final (self).spec_range_end() == old(self).spec_range_end(),
            final (self).wf(),
            r is Ok ==> {
                &&& final (self).spec_ports().len() == old(self).spec_count()
                &&& final (self).spec_cursor() == 0
                &&& forall|i: int|
                    0 <= i < old(self).spec_count() ==> {
                        &&& (#[trigger] final (self).spec_ports()[i]).control_port
                            == available_ports@[2 * i]
                        &&& final (self).spec_ports()[i].proxy_port == available_ports@[2 * i + 1]
                        &&& final (self).spec_ports()[i].is_used_by_proxy == true
                        &&& final (self).spec_ports()[i].use_in_progress == false
                    }
            },
    {
        let needed: u32 = self.get_ports_count_to_use();
        if (available_ports.len() as u64) < (needed as u64) {
            return Err(PoolError::InsufficientPorts);
        }
        self.ports.clear();
        self.next_available_port_index = 0;
        let ghost pre = *self;
        let count = self.containers_count;
        let mut i: usize = 0;
        let mut available_ports_index: usize = 0;
        while i < count as usize
            invariant
                self.containers_count == pre.containers_count,
                self.ports_range.start == pre.ports_range.start,
                self.ports_range.end == pre.ports_range.end,
                self.next_available_port_index == 0,
                count == pre.containers_count,
                available_ports@.len() >= 2 * count,
                i <= count as usize,
                available_ports_index == 2 * i,
                self.ports@.len() == i,
                forall|j: int|
                    0 <= j < i ==> {
                        &&& (#[trigger] self.ports@[j]).control_port == available_ports@[2 * j]
                        &&& self.ports@[j].proxy_port == available_ports@[2 * j + 1]
                        &&& self.ports@[j].is_used_by_proxy == true
                        &&& self.ports@[j].use_in_progress == false
                    },
            decreases count as int - i as int,
        {
            let control_port = available_ports[available_ports_index];
            let proxy_port = available_ports[available_ports_index + 1];
            available_ports_index = available_ports_index + 2;
            self.ports.push(
                TorProxyPort {
                    control_port,
                    proxy_port,
                    is_used_by_proxy: true,
                    use_in_progress: false,
                },
            );
            i = i + 1;
        }
        Ok(())
    }

    /// Hands out the descriptor under the cursor and advances the
    /// cursor by one, wrapping at the end of the pool; on an empty
    /// pool it returns nothing and changes nothing. Selection never
    /// fails for a non-empty pool.
    pub fn get_next_port(&mut self) -> (r: Option<TorProxyPort>)
        requires
            old(self).wf(),
        ensures
            final (self).wf(),
            final (self).spec_ports() == old(self).spec_ports(),
            final (self).spec_count() == old(self).spec_count(),
            final (self).spec_range_start() == old(self).spec_range_start(),
            final (self).spec_range_end() == old(self).spec_range_end(),
            old(self).spec_ports().len() == 0 ==> r is None && final (self).spec_cursor() == 0,
            old(self).spec_ports().len() > 0 ==> {
                &&& r == Some(old(self).spec_ports()[old(self).spec_cursor()])
                &&& final (self).spec_cursor() == sel_index(
                    old(self).spec_cursor(),
                    1,
                    old(self).spec_ports().len() as int,
                )
            },
    {
        if self.ports.len() == 0 {
            return None;
        }
        let current_index = self.next_available_port_index;
        if self.ports.len() - 1 > self.next_available_port_index {
            self.next_available_port_index = self.next_available_port_index + 1;
        } else {
            self.next_available_port_index = 0;
        }
        proof {
            let len = self.ports@.len() as int;
            let c = old(self).spec_cursor();
            if c + 1 < len {
                lemma_small_mod((c + 1) as nat, len as nat);
            } else {
                lemma_mod_self_0(len);
            }
        }
        Some(self.ports[current_index])
    }
}

/// Law: every selection lands on a descriptor of the pool, whatever
/// the starting cursor and however many calls have gone before.
pub proof fn lemma_sel_index_in_range(start: int, k: int, len: int)
    requires
        0 <= start < len,
        0 <= k,
    ensures
        0 <= sel_index(start, k, len) < len,
{
    lemma_mod_pos_bound(start + k, len);
}

/// Law: within one full cycle over a pool of `len` descriptors, no
/// descriptor is handed out twice — the `i`-th and `j`-th selections
/// after any starting cursor differ whenever `i` and `j` are distinct
/// positions inside the cycle.
pub proof fn lemma_round_robin_visits_once(start: int, i: int, j: int, len: int)
    requires
        0 <= start < len,
        0 <= i < j < len,
    ensures
        sel_index(start, i, len) != sel_index(start, j, len),
{
    lemma_mod_equivalence(start + j, start + i, len);
    lemma_small_mod((j - i) as nat, len as nat);
}

/// Law: after a full cycle the selection wraps around — the `len`-th
/// selection is the same descriptor as the first.
pub proof fn lemma_round_robin_wraps(start: int, len: int)
    requires
        0 <= start < len,
    ensures
        sel_index(start, len, len) == sel_index(start, 0, len),
{
    lemma_mod_add_multiples_vanish(start, len);
    lemma_small_mod(start as nat, len as nat);
}

/// Law: one more call advances the selection by one step — the
/// `(k+1)`-th selection from `start` equals the next selection after
/// the `k`-th, which ties the closed form `sel_index` to the
/// cursor-advance clause in `get_next_port`'s contract.
pub proof fn lemma_sel_index_step(start: int, k: int, len: int)
    requires
        0 <= start < len,
        0 <= k,
    ensures
        sel_index(start, k + 1, len) == sel_index(sel_index(start, k, len), 1, len),
{
    lemma_add_mod_noop(start + k, 1, len);
    if len == 1 {
        lemma_mod_self_0(1);
    } else {
        lemma_small_mod(1nat, len as nat);
    }
    lemma_small_mod(((start + k) % len) as nat, len as nat);
    assert(((start + k) % len + 1int % len) % len == (start + k + 1) % len);
}

} // verus!
