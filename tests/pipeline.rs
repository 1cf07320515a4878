use ris_live::parse::{decode, AnnouncementEntry, RISMessage, RISPacket, WireMessage, WirePacket};
use ris_live::{AddressField, BGPUpdate, BGPUpdateType, DeriveError, IpAddress, Prefix};

fn s(x: &str) -> String {
    x.to_string()
}

fn entry(next_hop: &str, prefixes: &[&str]) -> AnnouncementEntry {
    AnnouncementEntry { next_hop: s(next_hop), prefixes: prefixes.iter().map(|p| s(p)).collect() }
}

fn data(
    path: Option<Vec<u32>>,
    announcements: Option<Vec<AnnouncementEntry>>,
    withdrawals: Option<Vec<&str>>,
) -> WireMessage {
    WireMessage {
        timestamp: Some(serde_json::Number::from_f64(1.0).unwrap()),
        peer: Some(s("1.1.1.1")),
        peer_asn: Some(s("65000")),
        id: Some(s("x")),
        host: Some(s("h")),
        kind: Some(s("UPDATE")),
        path,
        community: None,
        origin: None,
        announcements,
        withdrawals: withdrawals.map(|w| w.iter().map(|p| s(p)).collect()),
    }
}

fn packet(d: WireMessage) -> WirePacket {
    WirePacket { kind: s("ris_message"), data: Some(d) }
}

fn message(d: WireMessage) -> RISMessage {
    match decode(packet(d)).unwrap() {
        RISPacket::Message(m) => m,
    }
}

fn v4(a: u8, b: u8, c: u8, d: u8) -> IpAddress {
    IpAddress::V4(u32::from_be_bytes([a, b, c, d]))
}

#[test]
fn announce_scenario_renders_one_line() {
    let m = message(data(Some(vec![65001]), Some(vec![entry("2.2.2.2", &["10.0.0.0/24"])]), None));
    let evs = BGPUpdate::from_message(&m).unwrap();
    assert_eq!(evs.len(), 1);
    assert_eq!(evs[0].asn, 65000);
    assert_eq!(evs[0].timestamp.as_f64(), Some(1.0));
    match &evs[0].kind {
        BGPUpdateType::Announce { path, vectors } => {
            assert_eq!(path, &vec![65001]);
            assert_eq!(vectors.len(), 1);
            assert_eq!(vectors[0].next_hop, v4(2, 2, 2, 2));
            assert_eq!(vectors[0].prefixes, vec![Prefix { addr: v4(10, 0, 0, 0), len: 24 }]);
        }
        BGPUpdateType::Withdraw { .. } => panic!("expected an announcement"),
    }
    assert!(evs[0].is_well_formed());
    assert_eq!(evs[0].render(), vec![s(" 65000|A 10.0.0.0/24         |65001 ")]);
}

#[test]
fn withdraw_scenario_renders_one_line() {
    let m = message(data(None, None, Some(vec!["10.0.0.0/24"])));
    let evs = BGPUpdate::from_message(&m).unwrap();
    assert_eq!(evs.len(), 1);
    match &evs[0].kind {
        BGPUpdateType::Withdraw { prefixes } => {
            assert_eq!(prefixes, &vec![Prefix { addr: v4(10, 0, 0, 0), len: 24 }]);
        }
        BGPUpdateType::Announce { .. } => panic!("expected a withdrawal"),
    }
    assert_eq!(evs[0].render(), vec![s(" 65000|W 10.0.0.0/24         ")]);
}

#[test]
fn announce_then_withdraw() {
    let m = message(data(
        Some(vec![65001]),
        Some(vec![entry("2.2.2.2", &["10.0.0.0/24"])]),
        Some(vec!["192.168.0.0/16"]),
    ));
    let evs = BGPUpdate::from_message(&m).unwrap();
    assert_eq!(evs.len(), 2);
    assert!(matches!(evs[0].kind, BGPUpdateType::Announce { .. }));
    assert!(matches!(evs[1].kind, BGPUpdateType::Withdraw { .. }));
    assert_eq!(evs[0].timestamp, evs[1].timestamp);
    assert_eq!(evs[0].asn, evs[1].asn);
    assert_eq!(evs[0].render(), vec![s(" 65000|A 10.0.0.0/24         |65001 ")]);
    assert_eq!(evs[1].render(), vec![s(" 65000|W 192.168.0.0/16      ")]);
}

#[test]
fn invalid_next_hop_is_reported() {
    let m = message(data(Some(vec![65001]), Some(vec![entry("not-an-ip", &["10.0.0.0/24"])]), None));
    match BGPUpdate::from_message(&m) {
        Err(DeriveError::InvalidAddress(AddressField::NextHop, v)) => assert_eq!(v, "not-an-ip"),
        other => panic!("unexpected {:?}", other),
    }
}

#[test]
fn invalid_prefix_is_reported() {
    let m = message(data(
        Some(vec![65001]),
        Some(vec![entry("2.2.2.2", &["10.0.0.0/24"]), entry("2.2.2.3", &["10.0.0.0/33", "bad"])]),
        None,
    ));
    match BGPUpdate::from_message(&m) {
        Err(DeriveError::InvalidAddress(AddressField::Prefix, v)) => assert_eq!(v, "10.0.0.0/33"),
        other => panic!("unexpected {:?}", other),
    }
}

#[test]
fn invalid_withdrawal_is_reported() {
    let m = message(data(None, None, Some(vec!["10.0.0.0/24", "10.0.0.0"])));
    match BGPUpdate::from_message(&m) {
        Err(DeriveError::InvalidAddress(AddressField::Withdrawal, v)) => assert_eq!(v, "10.0.0.0"),
        other => panic!("unexpected {:?}", other),
    }
}

#[test]
fn community_without_path_is_inconsistent() {
    let mut d = data(None, None, Some(vec!["10.0.0.0/24"]));
    d.community = Some(vec![vec![65000, 1]]);
    let m = message(d);
    assert!(matches!(BGPUpdate::from_message(&m), Err(DeriveError::InconsistentAnnouncement)));
}

#[test]
fn origin_or_entries_without_path_is_inconsistent() {
    let mut d = data(None, None, None);
    d.origin = Some(s("igp"));
    assert!(matches!(
        BGPUpdate::from_message(&message(d)),
        Err(DeriveError::InconsistentAnnouncement)
    ));
    let d = data(None, Some(vec![entry("2.2.2.2", &["10.0.0.0/24"])]), None);
    assert!(matches!(
        BGPUpdate::from_message(&message(d)),
        Err(DeriveError::InconsistentAnnouncement)
    ));
}

#[test]
fn path_without_entries_is_missing() {
    let m = message(data(Some(vec![65001]), None, None));
    assert!(matches!(BGPUpdate::from_message(&m), Err(DeriveError::MissingAnnouncementEntries)));
    let m = message(data(Some(vec![65001]), Some(vec![]), None));
    assert!(matches!(BGPUpdate::from_message(&m), Err(DeriveError::MissingAnnouncementEntries)));
}

#[test]
fn empty_update_gives_no_event() {
    let m = message(data(None, None, None));
    assert_eq!(BGPUpdate::from_message(&m).unwrap().len(), 0);
}

#[test]
fn bad_peer_asn_in_message_is_reported() {
    let mut m = message(data(None, None, Some(vec!["10.0.0.0/24"])));
    m.peer_asn = s("AS65000");
    match BGPUpdate::from_message(&m) {
        Err(DeriveError::InvalidAsn(v)) => assert_eq!(v, "AS65000"),
        other => panic!("unexpected {:?}", other),
    }
}

#[test]
fn path_order_and_vector_count_kept() {
    let m = message(data(
        Some(vec![3, 1, 2, 1]),
        Some(vec![entry("2.2.2.2", &["10.0.0.0/24"]), entry("2001:db8::1", &["2001:db8::/32"])]),
        None,
    ));
    let evs = BGPUpdate::from_message(&m).unwrap();
    assert_eq!(evs.len(), 1);
    match &evs[0].kind {
        BGPUpdateType::Announce { path, vectors } => {
            assert_eq!(path, &vec![3, 1, 2, 1]);
            assert_eq!(vectors.len(), 2);
            assert_eq!(vectors[1].next_hop, IpAddress::V6(0x2001_0db8_0000_0000_0000_0000_0000_0001));
            assert_eq!(
                vectors[1].prefixes,
                vec![Prefix { addr: IpAddress::V6(0x2001_0db8 << 96), len: 32 }]
            );
        }
        BGPUpdateType::Withdraw { .. } => panic!("expected an announcement"),
    }
}

#[test]
fn withdrawals_keep_order_and_repeats() {
    let m = message(data(None, None, Some(vec!["10.0.0.0/24", "10.0.0.0/8", "10.0.0.0/24"])));
    let evs = BGPUpdate::from_message(&m).unwrap();
    assert_eq!(evs.len(), 1);
    match &evs[0].kind {
        BGPUpdateType::Withdraw { prefixes } => {
            let p24 = Prefix { addr: v4(10, 0, 0, 0), len: 24 };
            let p8 = Prefix { addr: v4(10, 0, 0, 0), len: 8 };
            assert_eq!(prefixes, &vec![p24, p8, p24]);
        }
        BGPUpdateType::Announce { .. } => panic!("expected a withdrawal"),
    }
    assert_eq!(
        evs[0].render(),
        vec![
            s(" 65000|W 10.0.0.0/24         "),
            s(" 65000|W 10.0.0.0/8          "),
            s(" 65000|W 10.0.0.0/24         "),
        ]
    );
}

#[test]
fn two_prefixes_render_two_lines() {
    let m = message(data(
        Some(vec![65001, 65002]),
        Some(vec![entry("2.2.2.2", &["10.0.0.0/24", "10.1.0.0/16"])]),
        None,
    ));
    let evs = BGPUpdate::from_message(&m).unwrap();
    assert_eq!(
        evs[0].render(),
        vec![
            s(" 65000|A 10.0.0.0/24         |65001  65002 "),
            s(" 65000|A 10.1.0.0/16         |65001  65002 "),
        ]
    );
}

#[test]
fn ipv6_prefix_text_comes_from_ipnet() {
    let m = message(data(None, None, Some(vec!["2001:0db8:0000::/32"])));
    let evs = BGPUpdate::from_message(&m).unwrap();
    assert_eq!(evs[0].render(), vec![s(" 65000|W 2001:db8::/32       ")]);
}

#[test]
fn ill_formed_event_is_detected() {
    let ts = serde_json::Number::from_f64(1.0).unwrap();
    let u = BGPUpdate {
        timestamp: ts,
        asn: 1,
        kind: BGPUpdateType::Withdraw { prefixes: vec![Prefix { addr: v4(10, 0, 0, 0), len: 33 }] },
    };
    assert!(!u.is_well_formed());
    let p = Prefix { addr: IpAddress::V6(0), len: 128 };
    assert!(p.is_valid());
}

#[test]
fn lib_it_works() {
    let packets = vec![
        packet(data(Some(vec![65001]), Some(vec![entry("2.2.2.2", &["10.0.0.0/24"])]), None)),
        packet(data(None, None, Some(vec!["10.0.0.0/24"]))),
        WirePacket { kind: s("ris_error"), data: None },
    ];
    let mut res: Vec<BGPUpdate> = Vec::new();
    for p in packets {
        if let Ok(RISPacket::Message(m)) = decode(p) {
            if let Ok(mut evs) = BGPUpdate::from_message(&m) {
                res.append(&mut evs);
            }
        }
    }
    assert_eq!(res.len(), 2);
    let lines: Vec<String> = res.iter().flat_map(|u| u.render()).collect();
    assert_eq!(lines.len(), 2);
}
