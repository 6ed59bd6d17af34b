use udp_tstamp::clock::Timestamp;
use udp_tstamp::cmsg::{records_valid, software_timestamp, ControlRecord};

fn stamp(sec: i64, nsec: i64) -> ControlRecord {
    let zero = Timestamp { sec: 0, nsec: 0 };
    ControlRecord::Timestamps { system: Timestamp { sec, nsec }, hw_trans: zero, hw_raw: zero }
}

#[test]
fn timestamp_found_in_either_order() {
    let first = vec![stamp(10, 20), ControlRecord::Ipv4PacketInfo];
    let second = vec![ControlRecord::Ipv4PacketInfo, stamp(10, 20)];
    assert_eq!(first.len(), 2);
    assert_eq!(second.len(), 2);
    assert_eq!(software_timestamp(&first), Some(Timestamp { sec: 10, nsec: 20 }));
    assert_eq!(software_timestamp(&second), Some(Timestamp { sec: 10, nsec: 20 }));
}

#[test]
fn zero_timestamp_is_absent() {
    let records = vec![stamp(0, 0), ControlRecord::RxqOvfl(3)];
    assert_eq!(software_timestamp(&records), None);
}

#[test]
fn no_timestamp_record() {
    let records = vec![ControlRecord::UdpGroSegments(2), ControlRecord::Other, ControlRecord::Rights(vec![4, 5])];
    assert_eq!(software_timestamp(&records), None);
    assert_eq!(software_timestamp(&Vec::new()), None);
}

#[test]
fn last_timestamp_record_wins() {
    let records = vec![stamp(1, 1), ControlRecord::Credentials, stamp(2, 2)];
    assert_eq!(software_timestamp(&records), Some(Timestamp { sec: 2, nsec: 2 }));
}

#[test]
fn malformed_timestamp_is_invalid() {
    assert!(records_valid(&vec![stamp(1, 999_999_999), ControlRecord::Ipv6RecvErr(11)]));
    assert!(!records_valid(&vec![ControlRecord::Ipv4RecvErr(11), stamp(1, 1_000_000_000)]));
    assert!(records_valid(&Vec::new()));
}
