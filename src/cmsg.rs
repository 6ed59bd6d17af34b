use crate::clock::Timestamp;
use vstd::prelude::*;

verus! {

/// One control message received alongside a datagram, in the order the
/// kernel delivered it. Kinds that timing does not use keep only the values
/// worth reporting.
#[derive(Clone, Debug)]
pub enum ControlRecord {
    /// `SCM_TIMESTAMPING`: software, legacy hardware-transformed and raw
    /// hardware timestamps; the zero value marks one that was not taken.
    Timestamps { system: Timestamp, hw_trans: Timestamp, hw_raw: Timestamp },
    /// Passed file descriptors.
    Rights(Vec<i32>),
    /// Peer credentials.
    Credentials,
    /// A single `SCM_TIMESTAMP` value, microsecond resolution.
    LegacyTimestamp,
    /// A single `SCM_TIMESTAMPNS` value.
    LegacyTimestampNs,
    Ipv4PacketInfo,
    Ipv6PacketInfo,
    Ipv4OrigDstAddr,
    Ipv6OrigDstAddr,
    /// Number of segments coalesced by UDP GRO.
    UdpGroSegments(u16),
    /// Datagrams dropped for receive-queue overflow.
    RxqOvfl(u32),
    /// An IPv4 error-queue entry, with its error code.
    Ipv4RecvErr(u32),
    /// An IPv6 error-queue entry, with its error code.
    Ipv6RecvErr(u32),
    /// A kind this library does not know.
    Other,
}

impl ControlRecord {
    /// Every timestamp the record carries is normalized.
    pub open spec fn wf(&self) -> bool {
        match *self {
            ControlRecord::Timestamps { system, hw_trans, hw_raw } => system.wf() && hw_trans.wf()
                && hw_raw.wf(),
            _ => true,
        }
    }

    fn check(&self) -> (r: bool)
        ensures
            r == self.wf(),
    {
        match self {
            ControlRecord::Timestamps { system, hw_trans, hw_raw } => {
                0 <= system.nsec && system.nsec < 1_000_000_000 && 0 <= hw_trans.nsec
                    && hw_trans.nsec < 1_000_000_000 && 0 <= hw_raw.nsec && hw_raw.nsec
                    < 1_000_000_000
            },
            _ => true,
        }
    }
}

/// Every record of `s` is well formed.
pub open spec fn records_wf(s: Seq<ControlRecord>) -> bool {
    forall|i: int| 0 <= i < s.len() ==> #[trigger] s[i].wf()
}

/// The software timestamp of the last timestamping record of `s`, absent or
/// not; `None` when `s` has no such record.
pub open spec fn last_system_timestamp(s: Seq<ControlRecord>) -> Option<Timestamp>
    decreases s.len(),
{
    if s.len() == 0 {
        None
    } else {
        match s.last() {
            ControlRecord::Timestamps { system, .. } => Some(system),
            _ => last_system_timestamp(s.drop_last()),
        }
    }
}

/// The kernel's software receive timestamp among `s`, when one was taken.
pub open spec fn spec_software_timestamp(s: Seq<ControlRecord>) -> Option<Timestamp> {
    match last_system_timestamp(s) {
        Some(t) => if t.spec_is_absent() {
            None
        } else {
            Some(t)
        },
        None => None,
    }
}

/// Whether every record is well formed; a malformed timestamp means the
/// control data was not decoded as the kernel wrote it.
pub fn records_valid(records: &Vec<ControlRecord>) -> (r: bool)
    ensures
        r == records_wf(records@),
{
    let mut i: usize = 0;
    while i < records.len()
        invariant
            i <= records.len(),
            forall|j: int| 0 <= j < i ==> #[trigger] records@[j].wf(),
        decreases records.len() - i,
    {
        if !records[i].check() {
            return false;
        }
        i = i + 1;
    }
    true
}

/// The software receive timestamp: the one of the last timestamping record,
/// unless the kernel left it zero.
pub fn software_timestamp(records: &Vec<ControlRecord>) -> (r: Option<Timestamp>)
    ensures
        r == spec_software_timestamp(records@),
{
    let mut found: Option<Timestamp> = None;
    let mut i: usize = 0;
    while i < records.len()
        invariant
            i <= records.len(),
            found == last_system_timestamp(records@.subrange(0, i as int)),
        decreases records.len() - i,
    {
        proof {
            let s = records@.subrange(0, i as int + 1);
            assert(s.drop_last() =~= records@.subrange(0, i as int));
        }
        match &records[i] {
            ControlRecord::Timestamps { system, .. } => {
                found = Some(*system);
            },
            _ => {},
        }
        i = i + 1;
    }
    assert(records@.subrange(0, records@.len() as int) =~= records@);
    match found {
        Some(t) => if t.is_absent() {
            None
        } else {
            Some(t)
        },
        None => None,
    }
}

/// With one timestamping record and one record of another kind, the
/// software timestamp found is the same in either order: the record's own,
/// unless it is zero.
pub proof fn lemma_timestamp_order_free(ts: ControlRecord, other: ControlRecord)
    requires
        ts is Timestamps,
        !(other is Timestamps),
    ensures
        spec_software_timestamp(seq![ts, other]) == spec_software_timestamp(seq![other, ts]),
        spec_software_timestamp(seq![ts, other]) == (if ts->system.spec_is_absent() {
            None
        } else {
            Some(ts->system)
        }),
{
    let a = seq![ts, other];
    let b = seq![other, ts];
    assert(a.drop_last() =~= seq![ts]);
    assert(seq![ts].drop_last() =~= Seq::<ControlRecord>::empty());
    assert(b.drop_last() =~= seq![other]);
    reveal_with_fuel(last_system_timestamp, 3);
}

} // verus!
