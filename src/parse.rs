use vstd::prelude::*;
use vstd::string::*;

verus! {

/// serde_json's number, carried through unread (it holds the timestamp).
#[verifier::external_type_specification]
#[verifier::external_body]
pub struct ExNumber(serde_json::Number);

/// A RIS Live packet, once its kind and fields have been checked.
#[derive(Debug)]
pub enum RISPacket {
    Message(RISMessage),
}

/// A RIS Live message: where it came from, and what it carries.
#[derive(Debug)]
pub struct RISMessage {
    pub timestamp: serde_json::Number,
    pub peer: String,
    pub peer_asn: String,
    pub id: String,
    pub host: String,
    pub ty: RISMessageType,
}

/// The kinds of BGP message; the presence of a path marks an announcement,
/// and withdrawals may come with it or alone.
#[derive(Debug)]
pub enum RISMessageType {
    UPDATE { announce: RISAnnouncement, withdrawals: Option<Vec<String>> },
}

/// The announcement block of an update.
#[derive(Debug)]
pub struct RISAnnouncement {
    pub path: Option<Vec<u32>>,
    pub community: Option<Vec<Vec<u32>>>,
    pub origin: Option<String>,
    pub announcements: Option<Vec<AnnouncementEntry>>,
}

/// A set of prefixes reachable through one next hop.
#[derive(Debug)]
pub struct AnnouncementEntry {
    pub next_hop: String,
    pub prefixes: Vec<String>,
}

/// A packet as it stands in the JSON text, before any check: the packet's
/// `type` and its `data`, if there is one.
#[derive(Debug)]
pub struct WirePacket {
    pub kind: String,
    pub data: Option<WireMessage>,
}

/// The fields that the `data` object of a packet may hold; `kind` is its
/// `type`.
#[derive(Debug)]
pub struct WireMessage {
    pub timestamp: Option<serde_json::Number>,
    pub peer: Option<String>,
    pub peer_asn: Option<String>,
    pub id: Option<String>,
    pub host: Option<String>,
    pub kind: Option<String>,
    pub path: Option<Vec<u32>>,
    pub community: Option<Vec<Vec<u32>>>,
    pub origin: Option<String>,
    pub announcements: Option<Vec<AnnouncementEntry>>,
    pub withdrawals: Option<Vec<String>>,
}

/// Why a packet could not be decoded.
#[derive(Debug)]
pub enum DecodeError {
    /// The packet's `type` is not `ris_message`; it holds that type.
    UnrecognizedPacketKind(String),
    /// The message's `type` is not `UPDATE`; it holds that type.
    UnsupportedMessageType(String),
    /// `peer_asn` is not a decimal AS number; it holds the text.
    InvalidAsn(String),
    /// The packet lacks a field or does not have the expected shape.
    Malformed(String),
}

pub open spec fn is_digit(c: char) -> bool {
    48 <= (c as u32) && (c as u32) <= 57
}

pub open spec fn digit_value(c: char) -> nat {
    ((c as u32) - 48) as nat
}

/// The value of a string of decimal digits.
pub open spec fn digits_value(s: Seq<char>) -> nat
    decreases s.len(),
{
    if s.len() == 0 {
        0
    } else {
        digits_value(s.drop_last()) * 10 + digit_value(s.last())
    }
}

/// The AS number that a text spells in decimal: one or more digits whose
/// value fits in 32 bits.
pub open spec fn asn_of(s: Seq<char>) -> Option<u32> {
    if s.len() > 0 && (forall|i: int| 0 <= i < s.len() ==> is_digit(#[trigger] s[i]))
        && digits_value(s) <= u32::MAX {
        Some(digits_value(s) as u32)
    } else {
        None
    }
}

/// Whether two texts are the same.
pub fn text_eq(a: &str, b: &str) -> (r: bool)
    ensures
        r == (a@ == b@),
{
    let n = a.unicode_len();
    if n != b.unicode_len() {
        return false;
    }
    let mut i: usize = 0;
    while i < n
        invariant
            i <= n,
            n == a@.len(),
            n == b@.len(),
            forall|j: int| 0 <= j < i ==> a@[j] == b@[j],
        decreases n - i,
    {
        if a.get_char(i) != b.get_char(i) {
            return false;
        }
        i = i + 1;
    }
    assert(a@ =~= b@);
    true
}

/// Parses a decimal AS number.
pub fn parse_asn(s: &str) -> (r: Option<u32>)
    ensures
        r == asn_of(s@),
{
    let n = s.unicode_len();
    if n == 0 {
        return None;
    }
    let cap: u64 = 4294967296;
    let mut v: u64 = 0;
    let mut i: usize = 0;
    assert(s@.take(0) =~= seq![]);
    while i < n
        invariant
            i <= n,
            n == s@.len(),
            cap == 4294967296,
            forall|j: int| 0 <= j < i ==> is_digit(#[trigger] s@[j]),
            digits_value(s@.take(i as int)) < cap ==> v == digits_value(s@.take(i as int)),
            digits_value(s@.take(i as int)) >= cap ==> v == cap,
        decreases n - i,
    {
        let c = s.get_char(i);
        let code = c as u32;
        if code < 48 || code > 57 {
            assert(!is_digit(s@[i as int]));
            return None;
        }
        let d = (code - 48) as u64;
        proof {
            let t = s@.take(i + 1);
            assert(t.drop_last() =~= s@.take(i as int));
            assert(t.last() == c);
            assert(digits_value(t) == digits_value(s@.take(i as int)) * 10 + d);
        }
        if v < cap {
            v = v * 10 + d;
            if v > cap {
                v = cap;
            }
        } else {
            assert(digits_value(s@.take(i as int)) * 10 + d >= cap) by (nonlinear_arith)
                requires
                    digits_value(s@.take(i as int)) >= cap,
            ;
        }
        i = i + 1;
    }
    assert(s@.take(n as int) =~= s@);
    if v >= cap {
        None
    } else {
        Some(v as u32)
    }
}

/// The first of the fields that every message must hold that `d` lacks.
pub open spec fn missing_field(d: WireMessage) -> Option<Seq<char>> {
    if d.timestamp is None {
        Some("timestamp"@)
    } else if d.peer is None {
        Some("peer"@)
    } else if d.peer_asn is None {
        Some("peer_asn"@)
    } else if d.id is None {
        Some("id"@)
    } else if d.host is None {
        Some("host"@)
    } else {
        None
    }
}

fn malformed(field: &str) -> (r: DecodeError)
    ensures
        r matches DecodeError::Malformed(f) && f@ == field@,
{
    DecodeError::Malformed(String::from_str(field))
}

/// Checks a packet and turns it into a message: the packet must be a
/// `ris_message`, its data an `UPDATE` with every required field, and its
/// peer's AS number decimal.
pub fn decode(p: WirePacket) -> (r: Result<RISPacket, DecodeError>)
    ensures
        p.kind@ != "ris_message"@ ==> r == Err::<RISPacket, DecodeError>(
            DecodeError::UnrecognizedPacketKind(p.kind),
        ),
        p.kind@ == "ris_message"@ && p.data is None ==> (r matches Err(
            DecodeError::Malformed(f),
        ) && f@ == "data"@),
        p.kind@ == "ris_message"@ && p.data is Some ==> {
            let d = p.data->0;
            &&& d.kind is None ==> (r matches Err(DecodeError::Malformed(f)) && f@ == "type"@)
            &&& d.kind is Some && d.kind->0@ != "UPDATE"@ ==> r == Err::<RISPacket, DecodeError>(
                DecodeError::UnsupportedMessageType(d.kind->0),
            )
            &&& d.kind is Some && d.kind->0@ == "UPDATE"@ ==> {
                &&& missing_field(d) is Some ==> (r matches Err(DecodeError::Malformed(f)) && f@
                    == missing_field(d)->0)
                &&& missing_field(d) is None && asn_of(d.peer_asn->0@) is None ==> r == Err::<
                    RISPacket,
                    DecodeError,
                >(DecodeError::InvalidAsn(d.peer_asn->0))
                &&& missing_field(d) is None && asn_of(d.peer_asn->0@) is Some ==> r == Ok::<
                    RISPacket,
                    DecodeError,
                >(
                    RISPacket::Message(
                        RISMessage {
                            timestamp: d.timestamp->0,
                            peer: d.peer->0,
                            peer_asn: d.peer_asn->0,
                            id: d.id->0,
                            host: d.host->0,
                            ty: RISMessageType::UPDATE {
                                announce: RISAnnouncement {
                                    path: d.path,
                                    community: d.community,
                                    origin: d.origin,
                                    announcements: d.announcements,
                                },
                                withdrawals: d.withdrawals,
                            },
                        },
                    ),
                )
            }
        },
{
    if !text_eq(p.kind.as_str(), "ris_message") {
        return Err(DecodeError::UnrecognizedPacketKind(p.kind));
    }
    let d = match p.data {
        Some(d) => d,
        None => {
            return Err(malformed("data"));
        },
    };
    let kind = match d.kind {
        Some(k) => k,
        None => {
            return Err(malformed("type"));
        },
    };
    if !text_eq(kind.as_str(), "UPDATE") {
        return Err(DecodeError::UnsupportedMessageType(kind));
    }
    let timestamp = match d.timestamp {
        Some(t) => t,
        None => {
            return Err(malformed("timestamp"));
        },
    };
    let peer = match d.peer {
        Some(x) => x,
        None => {
            return Err(malformed("peer"));
        },
    };
    let peer_asn = match d.peer_asn {
        Some(x) => x,
        None => {
            return Err(malformed("peer_asn"));
        },
    };
    let id = match d.id {
        Some(x) => x,
        None => {
            return Err(malformed("id"));
        },
    };
    let host = match d.host {
        Some(x) => x,
        None => {
            return Err(malformed("host"));
        },
    };
    if parse_asn(peer_asn.as_str()).is_none() {
        return Err(DecodeError::InvalidAsn(peer_asn));
    }
    let announce = RISAnnouncement {
        path: d.path,
        community: d.community,
        origin: d.origin,
        announcements: d.announcements,
    };
    Ok(
        RISPacket::Message(
            RISMessage {
                timestamp,
                peer,
                peer_asn,
                id,
                host,
                ty: RISMessageType::UPDATE { announce, withdrawals: d.withdrawals },
            },
        ),
    )
}

} // verus!
