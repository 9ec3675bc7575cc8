//! The PROXY-protocol switchboard: reserves passive ports for sessions
//! and pairs incoming data connections back to the session that
//! requested them, keyed by the client's source IP and the destination
//! port the proxy preserved.

use vstd::prelude::*;
use crate::proxy_protocol::Ipv4Addr;

verus! {

/// How long a passive-port reservation lives before the allocator may
/// reclaim it, in milliseconds.
pub const RESERVATION_TTL_MS: u64 = 60000;

/// One live reservation: a passive port claimed for one session.
#[derive(Clone, Copy, PartialEq, Eq, Structural, Debug)]
pub struct PortReservation {
    /// The reserved passive port.
    pub port: u16,
    /// The session that asked for it.
    pub session_id: u64,
    /// The source IP of that session's client, as the PROXY header
    /// reported it.
    pub src_ip: Ipv4Addr,
    /// When the reservation lapses, in milliseconds of the caller's
    /// clock.
    pub expires_at: u64,
}

/// The switchboard: the live reservations, the configured inclusive
/// passive-port range, and the rotating scan cursor.
pub struct ProxyProtocolSwitchboard {
    entries: Vec<PortReservation>,
    range_start: u16,
    range_end: u16,
    cursor: u16,
}

/// Whether some reservation in `entries` holds `port`.
pub open spec fn spec_port_live(entries: Seq<PortReservation>, port: u16) -> bool {
    exists|i: int| 0 <= i < entries.len() && entries[i].port == port
}

/// The reservations of `entries` that have not lapsed by `now`, in
/// order.
pub open spec fn spec_live(entries: Seq<PortReservation>, now: u64) -> Seq<PortReservation>
    decreases entries.len(),
{
    if entries.len() == 0 {
        Seq::empty()
    } else {
        let rest = spec_live(entries.drop_last(), now);
        if entries.last().expires_at > now {
            rest.push(entries.last())
        } else {
            rest
        }
    }
}

/// The reservations of `entries` with the one keyed `(src_ip, port)`
/// removed.
pub open spec fn spec_without(entries: Seq<PortReservation>, src_ip: Ipv4Addr, port: u16) -> Seq<
    PortReservation,
>
    decreases entries.len(),
{
    if entries.len() == 0 {
        Seq::empty()
    } else {
        let rest = spec_without(entries.drop_last(), src_ip, port);
        if entries.last().src_ip == src_ip && entries.last().port == port {
            rest
        } else {
            rest.push(entries.last())
        }
    }
}

/// Everything in `spec_live(entries)` comes from `entries`: a port live
/// afterwards was live before, and distinct ports stay distinct.
proof fn lemma_live_sound(entries: Seq<PortReservation>, now: u64)
    ensures
        forall|p: u16| spec_port_live(spec_live(entries, now), p) ==> spec_port_live(entries, p),
        forall|i: int|
            0 <= i < spec_live(entries, now).len() ==> exists|j: int|
                0 <= j < entries.len() && entries[j] == #[trigger] spec_live(entries, now)[i],
        (forall|i: int, j: int|
            0 <= i < j < entries.len() ==> entries[i].port != entries[j].port) ==> (forall|
            i: int,
            j: int,
        |
            0 <= i < j < spec_live(entries, now).len() ==> spec_live(entries, now)[i].port
                != spec_live(entries, now)[j].port),
    decreases entries.len(),
{
    if entries.len() > 0 {
        lemma_live_sound(entries.drop_last(), now);
        let live0 = spec_live(entries, now);
        let rest0 = spec_live(entries.drop_last(), now);
        assert forall|i: int| 0 <= i < live0.len() implies exists|j: int|
            0 <= j < entries.len() && entries[j] == #[trigger] live0[i] by {
            if i < rest0.len() {
                let j = choose|j: int|
                    0 <= j < entries.drop_last().len() && entries.drop_last()[j] == rest0[i];
                assert(entries[j] == live0[i]);
            } else {
                assert(live0[i] == entries[entries.len() - 1]);
            }
        }
        assert forall|p: u16| spec_port_live(spec_live(entries, now), p) implies spec_port_live(
            entries,
            p,
        ) by {
            let live = spec_live(entries, now);
            let i = choose|i: int| 0 <= i < live.len() && live[i].port == p;
            let rest = spec_live(entries.drop_last(), now);
            if i < rest.len() {
                assert(spec_port_live(rest, p));
                let j = choose|j: int|
                    0 <= j < entries.drop_last().len() && entries.drop_last()[j].port == p;
                assert(entries[j].port == p);
            } else {
                assert(entries[entries.len() - 1].port == p);
            }
        }
        let live = spec_live(entries, now);
        let rest = spec_live(entries.drop_last(), now);
        if (forall|i: int, j: int|
            0 <= i < j < entries.len() ==> entries[i].port != entries[j].port) {
            assert(forall|i: int, j: int|
                0 <= i < j < entries.drop_last().len() ==> entries.drop_last()[i].port
                    != entries.drop_last()[j].port);
            if entries.last().expires_at > now {
                assert forall|i: int, j: int| 0 <= i < j < live.len() implies live[i].port
                    != live[j].port by {
                    if j < rest.len() {
                    } else {
                        assert(live[j] == entries.last());
                        assert(spec_port_live(rest, live[i].port));
                        let k = choose|k: int|
                            0 <= k < entries.drop_last().len() && entries.drop_last()[k].port
                                == live[i].port;
                        assert(entries[k].port == live[i].port);
                        assert(entries[k].port != entries[entries.len() - 1].port);
                    }
                }
            }
        }
    }
}

impl ProxyProtocolSwitchboard {
    /// The switchboard's reservations, in order.
    pub closed spec fn view(&self) -> Seq<PortReservation> {
        self.entries@
    }

    /// First port of the configured range, inclusive.
    pub closed spec fn spec_range_start(&self) -> u16 {
        self.range_start
    }

    /// Last port of the configured range, inclusive.
    pub closed spec fn spec_range_end(&self) -> u16 {
        self.range_end
    }

    /// Well-formedness: the range is non-empty, the cursor stays in it,
    /// every reservation's port lies in it, and no port is reserved
    /// twice.
    pub closed spec fn wf(&self) -> bool {
        &&& self.range_start <= self.range_end
        &&& self.range_start <= self.cursor <= self.range_end
        &&& forall|i: int|
            0 <= i < self.entries@.len() ==> self.range_start <= #[trigger] self.entries@[i].port
                <= self.range_end
        &&& forall|i: int, j: int|
            0 <= i < j < self.entries@.len() ==> self.entries@[i].port != self.entries@[j].port
    }

    /// A switchboard over the inclusive passive-port range
    /// `range_start..=range_end`, with no reservations.
    pub fn new(range_start: u16, range_end: u16) -> (sb: ProxyProtocolSwitchboard)
        requires
            range_start <= range_end,
        ensures
            sb.wf(),
            sb@ == Seq::<PortReservation>::empty(),
            sb.spec_range_start() == range_start,
            sb.spec_range_end() == range_end,
    {
        let sb = ProxyProtocolSwitchboard {
            entries: Vec::new(),
            range_start,
            range_end,
            cursor: range_start,
        };
        proof {
            assert(sb@ =~= Seq::<PortReservation>::empty());
        }
        sb
    }

    /// Whether `port` is currently reserved.
    fn is_reserved(&self, port: u16) -> (b: bool)
        ensures
            b == spec_port_live(self@, port),
    {
        let mut i: usize = 0;
        while i < self.entries.len()
            invariant
                i <= self.entries@.len(),
                forall|k: int| 0 <= k < i ==> #[trigger] self.entries@[k].port != port,
            decreases self.entries@.len() - i,
        {
            if self.entries[i].port == port {
                return true;
            }
            i = i + 1;
        }
        false
    }

    /// The first free port in `from..=to`, scanning upward.
    fn scan_free(&self, from: u16, to: u16) -> (r: Option<u16>)
        requires
            from <= to,
        ensures
            match r {
                Some(p) => from <= p <= to && !spec_port_live(self@, p),
                None => forall|q: u16| from <= q <= to ==> spec_port_live(self@, q),
            },
    {
        let mut p: u32 = from as u32;
        while p <= to as u32
            invariant
                from as u32 <= p <= to as u32 + 1,
                forall|q: u16| from <= q < p ==> spec_port_live(self@, q),
            decreases to as u32 + 1 - p,
        {
            if !self.is_reserved(p as u16) {
                return Some(p as u16);
            }
            p = p + 1;
        }
        None
    }

    /// Drops every reservation that lapsed by `now`.
    fn drop_expired(&mut self, now: u64)
        ensures
            final(self)@ == spec_live(old(self)@, now),
            final(self).spec_range_start() == old(self).spec_range_start(),
            final(self).spec_range_end() == old(self).spec_range_end(),
            final(self).cursor == old(self).cursor,
    {
        let mut kept: Vec<PortReservation> = Vec::new();
        let mut i: usize = 0;
        proof {
            assert(old(self)@.take(0) =~= Seq::<PortReservation>::empty());
        }
        while i < self.entries.len()
            invariant
                i <= self.entries@.len(),
                self.entries@ == old(self)@,
                self.range_start == old(self).spec_range_start(),
                self.range_end == old(self).spec_range_end(),
                self.cursor == old(self).cursor,
                kept@ == spec_live(old(self)@.take(i as int), now),
            decreases self.entries@.len() - i,
        {
            let e = self.entries[i];
            if e.expires_at > now {
                kept.push(e);
            }
            i = i + 1;
            proof {
                assert(old(self)@.take(i as int).drop_last() =~= old(self)@.take(i as int - 1));
                assert(old(self)@.take(i as int).last() == old(self)@[i as int - 1]);
            }
        }
        proof {
            assert(old(self)@.take(old(self)@.len() as int) =~= old(self)@);
        }
        self.entries = kept;
    }

    /// Reserves the next free port of the range for `session_id`, whose
    /// client connects from `src_ip`: lapsed reservations are reclaimed
    /// first, then the range is scanned upward from the rotating
    /// cursor. Returns the reserved port, or nothing when every port of
    /// the range is reserved; `now` is the caller's clock in
    /// milliseconds.
    pub fn reserve_next_free_port(
        &mut self,
        now: u64,
        session_id: u64,
        src_ip: Ipv4Addr,
    ) -> (r: Option<u16>)
        requires
            old(self).wf(),
            now <= u64::MAX - RESERVATION_TTL_MS,
        ensures
            final(self).wf(),
            final(self).spec_range_start() == old(self).spec_range_start(),
            final(self).spec_range_end() == old(self).spec_range_end(),
            match r {
                Some(port) => {
                    &&& old(self).spec_range_start() <= port <= old(self).spec_range_end()
                    &&& !spec_port_live(spec_live(old(self)@, now), port)
                    &&& final(self)@ == spec_live(old(self)@, now).push(
                        PortReservation {
                            port,
                            session_id,
                            src_ip,
                            expires_at: (now + RESERVATION_TTL_MS) as u64,
                        },
                    )
                },
                None => {
                    &&& final(self)@ == spec_live(old(self)@, now)
                    &&& forall|q: u16|
                        old(self).spec_range_start() <= q <= old(self).spec_range_end()
                            ==> spec_port_live(spec_live(old(self)@, now), q)
                },
            },
    {
        proof {
            lemma_live_sound(self@, now);
        }
        self.drop_expired(now);
        let found = match self.scan_free(self.cursor, self.range_end) {
            Some(p) => Some(p),
            None => {
                if self.range_start < self.cursor {
                    self.scan_free(self.range_start, self.cursor - 1)
                } else {
                    None
                }
            },
        };
        match found {
            Some(port) => {
                self.entries.push(
                    PortReservation {
                        port,
                        session_id,
                        src_ip,
                        expires_at: now + RESERVATION_TTL_MS,
                    },
                );
                self.cursor = if port == self.range_end {
                    self.range_start
                } else {
                    port + 1
                };
                Some(port)
            },
            None => None,
        }
    }

    /// The session that reserved `port` for a client at `src_ip`, if
    /// any: the rendezvous lookup for an incoming data connection.
    pub fn get_session_by_incoming_data_connection(&self, src_ip: Ipv4Addr, port: u16) -> (r:
        Option<u64>)
        ensures
            match r {
                Some(sid) => exists|i: int|
                    0 <= i < self@.len() && self@[i].port == port && self@[i].src_ip == src_ip
                        && self@[i].session_id == sid,
                None => forall|i: int|
                    0 <= i < self@.len() ==> !(#[trigger] self@[i].port == port && self@[i].src_ip
                        == src_ip),
            },
    {
        let mut i: usize = 0;
        while i < self.entries.len()
            invariant
                i <= self.entries@.len(),
                forall|k: int|
                    0 <= k < i ==> !(#[trigger] self.entries@[k].port == port
                        && self.entries@[k].src_ip == src_ip),
            decreases self.entries@.len() - i,
        {
            let e = self.entries[i];
            if e.port == port && e.src_ip == src_ip {
                proof {
                    let gi = i as int;
                    assert(0 <= gi < self@.len() && self@[gi].port == port && self@[gi].src_ip
                        == src_ip && self@[gi].session_id == e.session_id);
                }
                return Some(e.session_id);
            }
            i = i + 1;
        }
        None
    }

    /// Drops the reservation keyed `(src_ip, port)`, once a data
    /// connection consumed it.
    pub fn unregister(&mut self, src_ip: Ipv4Addr, port: u16)
        requires
            old(self).wf(),
        ensures
            final(self).wf(),
            final(self)@ == spec_without(old(self)@, src_ip, port),
            final(self).spec_range_start() == old(self).spec_range_start(),
            final(self).spec_range_end() == old(self).spec_range_end(),
    {
        proof {
            lemma_without_sound(self@, src_ip, port);
        }
        let mut kept: Vec<PortReservation> = Vec::new();
        let mut i: usize = 0;
        proof {
            assert(old(self)@.take(0) =~= Seq::<PortReservation>::empty());
        }
        while i < self.entries.len()
            invariant
                i <= self.entries@.len(),
                self.entries@ == old(self)@,
                self.range_start == old(self).spec_range_start(),
                self.range_end == old(self).spec_range_end(),
                self.cursor == old(self).cursor,
                kept@ == spec_without(old(self)@.take(i as int), src_ip, port),
            decreases self.entries@.len() - i,
        {
            let e = self.entries[i];
            if !(e.src_ip == src_ip && e.port == port) {
                kept.push(e);
            }
            i = i + 1;
            proof {
                assert(old(self)@.take(i as int).drop_last() =~= old(self)@.take(i as int - 1));
                assert(old(self)@.take(i as int).last() == old(self)@[i as int - 1]);
            }
        }
        proof {
            assert(old(self)@.take(old(self)@.len() as int) =~= old(self)@);
        }
        self.entries = kept;
    }
}

/// Everything in `spec_without(entries, ..)` comes from `entries`: a
/// port live afterwards was live before, ports in the range stay in the
/// range, and distinct ports stay distinct.
proof fn lemma_without_sound(entries: Seq<PortReservation>, src_ip: Ipv4Addr, port: u16)
    ensures
        forall|p: u16|
            spec_port_live(spec_without(entries, src_ip, port), p) ==> spec_port_live(entries, p),
        forall|i: int|
            0 <= i < spec_without(entries, src_ip, port).len() ==> exists|j: int|
                0 <= j < entries.len() && entries[j] == #[trigger] spec_without(
                    entries,
                    src_ip,
                    port,
                )[i],
        (forall|i: int, j: int|
            0 <= i < j < entries.len() ==> entries[i].port != entries[j].port) ==> (forall|
            i: int,
            j: int,
        |
            0 <= i < j < spec_without(entries, src_ip, port).len() ==> spec_without(
                entries,
                src_ip,
                port,
            )[i].port != spec_without(entries, src_ip, port)[j].port),
    decreases entries.len(),
{
    if entries.len() > 0 {
        lemma_without_sound(entries.drop_last(), src_ip, port);
        let rest = spec_without(entries.drop_last(), src_ip, port);
        let whole = spec_without(entries, src_ip, port);
        assert forall|i: int| 0 <= i < whole.len() implies exists|j: int|
            0 <= j < entries.len() && entries[j] == #[trigger] whole[i] by {
            if i < rest.len() {
                let j = choose|j: int|
                    0 <= j < entries.drop_last().len() && entries.drop_last()[j] == rest[i];
                assert(entries[j] == whole[i]);
            } else {
                assert(whole[i] == entries[entries.len() - 1]);
            }
        }
        assert forall|p: u16| spec_port_live(whole, p) implies spec_port_live(entries, p) by {
            let i = choose|i: int| 0 <= i < whole.len() && whole[i].port == p;
            let j = choose|j: int| 0 <= j < entries.len() && entries[j] == whole[i];
            assert(entries[j].port == p);
        }
        if (forall|i: int, j: int|
            0 <= i < j < entries.len() ==> entries[i].port != entries[j].port) {
            assert(forall|i: int, j: int|
                0 <= i < j < entries.drop_last().len() ==> entries.drop_last()[i].port
                    != entries.drop_last()[j].port);
            if !(entries.last().src_ip == src_ip && entries.last().port == port) {
                assert forall|i: int, j: int| 0 <= i < j < whole.len() implies whole[i].port
                    != whole[j].port by {
                    if j < rest.len() {
                    } else {
                        assert(whole[j] == entries.last());
                        let k = choose|k: int|
                            0 <= k < entries.drop_last().len() && entries.drop_last()[k]
                                == whole[i];
                        assert(entries[k].port == whole[i].port);
                        assert(entries[k].port != entries[entries.len() - 1].port);
                    }
                }
            }
        }
    }
}

/// The switchboard's rendezvous keys are unique: with distinct ports,
/// no two live reservations share the `(src_ip, port)` pair a data
/// connection is matched by.
pub proof fn lemma_switchboard_keys_unique(sb: &ProxyProtocolSwitchboard)
    requires
        sb.wf(),
    ensures
        forall|i: int, j: int|
            0 <= i < j < sb@.len() ==> !(sb@[i].port == sb@[j].port && sb@[i].src_ip
                == sb@[j].src_ip),
{
}

} // verus!
