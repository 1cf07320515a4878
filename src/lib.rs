pub mod laws;
pub mod net;
pub mod parse;
pub mod render;

use crate::net::{ip_of, parse_ip, parse_prefix, prefix_of, prefix_text, prefix_text_of};
use crate::parse::{asn_of, parse_asn, AnnouncementEntry, RISAnnouncement, RISMessage, RISMessageType};
use crate::render::{announce_line, announce_line_spec, withdraw_line, withdraw_line_spec};
use vstd::prelude::*;

pub use crate::net::{IpAddress, Prefix};

verus! {

/// Relies on serde_json's derived `Clone` for `Number`: the copy is the
/// same number.
pub assume_specification[ <serde_json::Number as Clone>::clone ](n: &serde_json::Number) -> (r:
    serde_json::Number)
    ensures
        r == *n,
;

/// The prefixes announced through one next hop.
#[derive(Debug)]
pub struct AnnouncementVector {
    pub next_hop: IpAddress,
    pub prefixes: Vec<Prefix>,
}

/// What a routing event says.
#[derive(Debug)]
pub enum BGPUpdateType {
    Announce { path: Vec<u32>, vectors: Vec<AnnouncementVector> },
    Withdraw { prefixes: Vec<Prefix> },
}

/// A routing event: when, from which peer AS, and what.
#[derive(Debug)]
pub struct BGPUpdate {
    pub timestamp: serde_json::Number,
    pub asn: u32,
    pub kind: BGPUpdateType,
}

/// A routing event's kind as mathematical values.
pub enum UpdateKind {
    Announce { path: Seq<u32>, vectors: Seq<(IpAddress, Seq<Prefix>)> },
    Withdraw { prefixes: Seq<Prefix> },
}

/// The field whose text was not an address.
#[derive(Debug, Clone, Copy, PartialEq, Eq, Structural)]
pub enum AddressField {
    NextHop,
    Prefix,
    Withdrawal,
}

/// Why no events could be derived from a message.
#[derive(Debug)]
pub enum DeriveError {
    /// There is no AS path, yet a community, an origin or announcements.
    InconsistentAnnouncement,
    /// There is an AS path, but no announcement entry.
    MissingAnnouncementEntries,
    /// The peer's AS number is not decimal; it holds the text.
    InvalidAsn(String),
    /// A field does not hold an address; it holds the field and the text.
    InvalidAddress(AddressField, String),
}

/// A derive error as mathematical values.
pub enum DeriveFault {
    InconsistentAnnouncement,
    MissingAnnouncementEntries,
    InvalidAsn(Seq<char>),
    InvalidAddress(AddressField, Seq<char>),
}

impl View for AnnouncementVector {
    type V = (IpAddress, Seq<Prefix>);

    open spec fn view(&self) -> (IpAddress, Seq<Prefix>) {
        (self.next_hop, self.prefixes@)
    }
}

impl View for BGPUpdateType {
    type V = UpdateKind;

    open spec fn view(&self) -> UpdateKind {
        match self {
            BGPUpdateType::Announce { path, vectors } => UpdateKind::Announce {
                path: path@,
                vectors: vectors@.map_values(|v: AnnouncementVector| v@),
            },
            BGPUpdateType::Withdraw { prefixes } => UpdateKind::Withdraw { prefixes: prefixes@ },
        }
    }
}

impl View for BGPUpdate {
    type V = (u32, UpdateKind);

    open spec fn view(&self) -> (u32, UpdateKind) {
        (self.asn, self.kind@)
    }
}

impl View for DeriveError {
    type V = DeriveFault;

    open spec fn view(&self) -> DeriveFault {
        match self {
            DeriveError::InconsistentAnnouncement => DeriveFault::InconsistentAnnouncement,
            DeriveError::MissingAnnouncementEntries => DeriveFault::MissingAnnouncementEntries,
            DeriveError::InvalidAsn(s) => DeriveFault::InvalidAsn(s@),
            DeriveError::InvalidAddress(f, s) => DeriveFault::InvalidAddress(*f, s@),
        }
    }
}

/// Every prefix has a length that fits its family.
pub open spec fn all_wf(ps: Seq<Prefix>) -> bool {
    forall|i: int| 0 <= i < ps.len() ==> (#[trigger] ps[i]).wf()
}

pub open spec fn kind_wf(k: UpdateKind) -> bool {
    match k {
        UpdateKind::Announce { vectors, .. } => forall|i: int|
            0 <= i < vectors.len() ==> all_wf(#[trigger] vectors[i].1),
        UpdateKind::Withdraw { prefixes } => all_wf(prefixes),
    }
}

impl BGPUpdate {
    /// Every prefix of the event is well formed.
    pub open spec fn wf(&self) -> bool {
        kind_wf(self.kind@)
    }
}

/// The text of the first prefix in `ss` that does not parse.
pub open spec fn first_bad_prefix(ss: Seq<String>) -> Option<Seq<char>>
    decreases ss.len(),
{
    if ss.len() == 0 {
        None
    } else if prefix_of(ss[0]@) is None {
        Some(ss[0]@)
    } else {
        first_bad_prefix(ss.drop_first())
    }
}

pub open spec fn parsed_prefixes(ss: Seq<String>) -> Seq<Prefix> {
    ss.map_values(|s: String| prefix_of(s@)->0)
}

/// What is wrong with an entry, if anything: its next hop first, then its
/// prefixes in order.
pub open spec fn entry_fault(e: AnnouncementEntry) -> Option<(AddressField, Seq<char>)> {
    if ip_of(e.next_hop@) is None {
        Some((AddressField::NextHop, e.next_hop@))
    } else {
        match first_bad_prefix(e.prefixes@) {
            Some(v) => Some((AddressField::Prefix, v)),
            None => None,
        }
    }
}

pub open spec fn first_entry_fault(es: Seq<AnnouncementEntry>) -> Option<(AddressField, Seq<char>)>
    decreases es.len(),
{
    if es.len() == 0 {
        None
    } else if entry_fault(es[0]) is Some {
        entry_fault(es[0])
    } else {
        first_entry_fault(es.drop_first())
    }
}

pub open spec fn address_fault(f: (AddressField, Seq<char>)) -> DeriveFault {
    DeriveFault::InvalidAddress(f.0, f.1)
}

pub open spec fn vector_of(e: AnnouncementEntry) -> (IpAddress, Seq<Prefix>) {
    (ip_of(e.next_hop@)->0, parsed_prefixes(e.prefixes@))
}

/// Without an AS path there is no community, origin or announcement.
pub open spec fn is_consistent(a: RISAnnouncement) -> bool {
    a.path is None ==> (a.community is None && a.origin is None && a.announcements is None)
}

pub open spec fn announce_events(asn: u32, a: RISAnnouncement) -> Seq<(u32, UpdateKind)> {
    if a.path is Some {
        seq![
            (
                asn,
                UpdateKind::Announce {
                    path: a.path->0@,
                    vectors: a.announcements->0@.map_values(|e: AnnouncementEntry| vector_of(e)),
                },
            ),
        ]
    } else {
        seq![]
    }
}

pub open spec fn withdraw_events(asn: u32, w: Option<Vec<String>>) -> Seq<(u32, UpdateKind)> {
    if w is Some {
        seq![(asn, UpdateKind::Withdraw { prefixes: parsed_prefixes(w->0@) })]
    } else {
        seq![]
    }
}

/// The events of a message, or the first thing wrong with it: the
/// announcement block's consistency, the peer's AS number, the presence of
/// entries beside a path, the entries' addresses, then the withdrawals.
pub open spec fn derive_spec(m: RISMessage) -> Result<Seq<(u32, UpdateKind)>, DeriveFault> {
    match m.ty {
        RISMessageType::UPDATE { announce: a, withdrawals: w } => {
            if !is_consistent(a) {
                Err(DeriveFault::InconsistentAnnouncement)
            } else if asn_of(m.peer_asn@) is None {
                Err(DeriveFault::InvalidAsn(m.peer_asn@))
            } else if a.path is Some && (a.announcements is None || a.announcements->0@.len()
                == 0) {
                Err(DeriveFault::MissingAnnouncementEntries)
            } else if a.path is Some && first_entry_fault(a.announcements->0@) is Some {
                Err(address_fault(first_entry_fault(a.announcements->0@)->0))
            } else if w is Some && first_bad_prefix(w->0@) is Some {
                Err(DeriveFault::InvalidAddress(AddressField::Withdrawal, first_bad_prefix(w->0@)->0))
            } else {
                let asn = asn_of(m.peer_asn@)->0;
                Ok(announce_events(asn, a) + withdraw_events(asn, w))
            }
        },
    }
}

pub open spec fn texts(v: Seq<String>) -> Seq<Seq<char>> {
    v.map_values(|s: String| s@)
}

pub open spec fn prefix_lines(asn: u32, path: Seq<u32>, ps: Seq<Prefix>) -> Seq<Seq<char>> {
    ps.map_values(|p: Prefix| announce_line_spec(asn, prefix_text_of(p), path))
}

/// The announce lines of each vector in turn, each prefix in turn.
pub open spec fn vector_lines(asn: u32, path: Seq<u32>, vs: Seq<(IpAddress, Seq<Prefix>)>) -> Seq<
    Seq<char>,
>
    decreases vs.len(),
{
    if vs.len() == 0 {
        seq![]
    } else {
        vector_lines(asn, path, vs.drop_last()) + prefix_lines(asn, path, vs.last().1)
    }
}

/// The lines of an event: one per announced or withdrawn prefix.
pub open spec fn render_spec(u: (u32, UpdateKind)) -> Seq<Seq<char>> {
    match u.1 {
        UpdateKind::Announce { path, vectors } => vector_lines(u.0, path, vectors),
        UpdateKind::Withdraw { prefixes } => prefixes.map_values(
            |p: Prefix| withdraw_line_spec(u.0, prefix_text_of(p)),
        ),
    }
}

fn copy_path(p: &Vec<u32>) -> (r: Vec<u32>)
    ensures
        r@ == p@,
{
    let mut r: Vec<u32> = Vec::new();
    let mut i: usize = 0;
    while i < p.len()
        invariant
            i <= p@.len(),
            r@ == p@.take(i as int),
        decreases p.len() - i,
    {
        r.push(p[i]);
        i = i + 1;
        assert(r@ =~= p@.take(i as int));
    }
    assert(p@.take(p@.len() as int) =~= p@);
    r
}

/// Parses each prefix text in order; the first that does not parse is
/// reported under `field`.
fn parse_prefix_list(ss: &Vec<String>, field: AddressField) -> (r: Result<
    Vec<Prefix>,
    DeriveError,
>)
    ensures
        r matches Ok(v) ==> first_bad_prefix(ss@) is None && v@ == parsed_prefixes(ss@) && all_wf(
            v@,
        ),
        r matches Err(e) ==> first_bad_prefix(ss@) is Some && e@ == DeriveFault::InvalidAddress(
            field,
            first_bad_prefix(ss@)->0,
        ),
{
    let mut v: Vec<Prefix> = Vec::new();
    let mut i: usize = 0;
    assert(ss@.subrange(0, ss@.len() as int) =~= ss@);
    while i < ss.len()
        invariant
            i <= ss@.len(),
            first_bad_prefix(ss@) == first_bad_prefix(ss@.subrange(i as int, ss@.len() as int)),
            v@.len() == i,
            forall|j: int| 0 <= j < i ==> prefix_of(ss@[j]@) == Some(#[trigger] v@[j]),
            all_wf(v@),
        decreases ss.len() - i,
    {
        let t = Ghost(ss@.subrange(i as int, ss@.len() as int));
        assert(t@[0] == ss@[i as int]);
        assert(t@.drop_first() =~= ss@.subrange(i + 1, ss@.len() as int));
        match parse_prefix(ss[i].as_str()) {
            Some(p) => {
                v.push(p);
            },
            None => {
                return Err(DeriveError::InvalidAddress(field, ss[i].clone()));
            },
        }
        i = i + 1;
    }
    assert(v@ =~= parsed_prefixes(ss@));
    Ok(v)
}

fn parse_entry(e: &AnnouncementEntry) -> (r: Result<AnnouncementVector, DeriveError>)
    ensures
        r matches Ok(v) ==> entry_fault(*e) is None && v@ == vector_of(*e) && all_wf(v@.1),
        r matches Err(x) ==> entry_fault(*e) is Some && x@ == address_fault(entry_fault(*e)->0),
{
    let next_hop = match parse_ip(e.next_hop.as_str()) {
        Some(a) => a,
        None => {
            return Err(DeriveError::InvalidAddress(AddressField::NextHop, e.next_hop.clone()));
        },
    };
    let prefixes = match parse_prefix_list(&e.prefixes, AddressField::Prefix) {
        Ok(ps) => ps,
        Err(x) => {
            return Err(x);
        },
    };
    Ok(AnnouncementVector { next_hop, prefixes })
}

fn parse_entries(es: &Vec<AnnouncementEntry>) -> (r: Result<Vec<AnnouncementVector>, DeriveError>)
    ensures
        r matches Ok(v) ==> first_entry_fault(es@) is None && v@.map_values(
            |x: AnnouncementVector| x@,
        ) == es@.map_values(|e: AnnouncementEntry| vector_of(e)) && forall|i: int|
            0 <= i < v@.len() ==> all_wf(#[trigger] v@[i]@.1),
        r matches Err(x) ==> first_entry_fault(es@) is Some && x@ == address_fault(first_entry_fault(es@)->0),
{
    let mut v: Vec<AnnouncementVector> = Vec::new();
    let mut i: usize = 0;
    assert(es@.subrange(0, es@.len() as int) =~= es@);
    while i < es.len()
        invariant
            i <= es@.len(),
            first_entry_fault(es@) == first_entry_fault(es@.subrange(i as int, es@.len() as int)),
            v@.len() == i,
            forall|j: int| 0 <= j < i ==> (#[trigger] v@[j])@ == vector_of(es@[j]),
            forall|j: int| 0 <= j < i ==> all_wf(#[trigger] v@[j]@.1),
        decreases es.len() - i,
    {
        let t = Ghost(es@.subrange(i as int, es@.len() as int));
        assert(t@[0] == es@[i as int]);
        assert(t@.drop_first() =~= es@.subrange(i + 1, es@.len() as int));
        match parse_entry(&es[i]) {
            Ok(x) => {
                v.push(x);
            },
            Err(x) => {
                return Err(x);
            },
        }
        i = i + 1;
    }
    assert(v@.map_values(|x: AnnouncementVector| x@) =~= es@.map_values(
        |e: AnnouncementEntry| vector_of(e),
    ));
    Ok(v)
}

impl BGPUpdate {
    /// Derives the routing events of a message: an announcement when it has
    /// an AS path, then a withdrawal when it has a withdrawal list, both with
    /// the message's timestamp and peer AS number.
    pub fn from_message(msg: &RISMessage) -> (r: Result<Vec<BGPUpdate>, DeriveError>)
        ensures
            r matches Ok(v) ==> derive_spec(*msg) == Ok::<Seq<(u32, UpdateKind)>, DeriveFault>(
                v@.map_values(|u: BGPUpdate| u@),
            ),
            r matches Ok(v) ==> forall|i: int|
                0 <= i < v@.len() ==> (#[trigger] v@[i]).timestamp == msg.timestamp && v@[i].wf(),
            r matches Err(e) ==> derive_spec(*msg) == Err::<Seq<(u32, UpdateKind)>, DeriveFault>(
                e@,
            ),
    {
        let (announce, withdrawals) = match &msg.ty {
            RISMessageType::UPDATE { announce, withdrawals } => (announce, withdrawals),
        };
        if announce.path.is_none() && (announce.community.is_some() || announce.origin.is_some()
            || announce.announcements.is_some()) {
            return Err(DeriveError::InconsistentAnnouncement);
        }
        let asn = match parse_asn(msg.peer_asn.as_str()) {
            Some(a) => a,
            None => {
                return Err(DeriveError::InvalidAsn(msg.peer_asn.clone()));
            },
        };
        let mut res: Vec<BGPUpdate> = Vec::new();
        match &announce.path {
            Some(p) => {
                let entries = match &announce.announcements {
                    Some(es) => es,
                    None => {
                        return Err(DeriveError::MissingAnnouncementEntries);
                    },
                };
                if entries.len() == 0 {
                    return Err(DeriveError::MissingAnnouncementEntries);
                }
                let vectors = match parse_entries(entries) {
                    Ok(vs) => vs,
                    Err(x) => {
                        return Err(x);
                    },
                };
                res.push(
                    BGPUpdate {
                        timestamp: msg.timestamp.clone(),
                        asn,
                        kind: BGPUpdateType::Announce { path: copy_path(p), vectors },
                    },
                );
            },
            None => {},
        }
        match withdrawals {
            Some(w) => {
                let prefixes = match parse_prefix_list(w, AddressField::Withdrawal) {
                    Ok(ps) => ps,
                    Err(x) => {
                        return Err(x);
                    },
                };
                res.push(
                    BGPUpdate {
                        timestamp: msg.timestamp.clone(),
                        asn,
                        kind: BGPUpdateType::Withdraw { prefixes },
                    },
                );
            },
            None => {},
        }
        assert(res@.map_values(|u: BGPUpdate| u@) =~= announce_events(asn, *announce)
            + withdraw_events(asn, *withdrawals));
        Ok(res)
    }
}

fn push_announce_lines(out: &mut Vec<String>, asn: u32, path: &Vec<u32>, ps: &Vec<Prefix>)
    requires
        all_wf(ps@),
    ensures
        texts(final(out)@) == texts(old(out)@) + prefix_lines(asn, path@, ps@),
{
    let ghost start = texts(out@);
    let mut i: usize = 0;
    assert(texts(out@) =~= start + prefix_lines(asn, path@, ps@.take(0)));
    while i < ps.len()
        invariant
            i <= ps@.len(),
            all_wf(ps@),
            texts(out@) == start + prefix_lines(asn, path@, ps@.take(i as int)),
        decreases ps.len() - i,
    {
        let text = prefix_text(&ps[i]);
        let line = announce_line(asn, text.as_str(), path);
        let ghost prev = out@;
        out.push(line);
        proof {
            assert(out@ == prev.push(line));
            assert(texts(out@) =~= texts(prev).push(line@));
            assert(prefix_lines(asn, path@, ps@.take(i + 1)) =~= prefix_lines(
                asn,
                path@,
                ps@.take(i as int),
            ).push(announce_line_spec(asn, prefix_text_of(ps@[i as int]), path@)));
        }
        i = i + 1;
    }
    assert(ps@.take(ps@.len() as int) =~= ps@);
}

impl BGPUpdate {
    /// The event's lines: for an announcement one per prefix of each vector
    /// in turn, for a withdrawal one per prefix.
    pub fn render(&self) -> (r: Vec<String>)
        requires
            self.wf(),
        ensures
            texts(r@) == render_spec(self@),
    {
        let mut out: Vec<String> = Vec::new();
        match &self.kind {
            BGPUpdateType::Announce { path, vectors } => {
                let ghost vs = vectors@.map_values(|v: AnnouncementVector| v@);
                assert(vs.take(0) =~= seq![]);
                assert(texts(out@) =~= vector_lines(self.asn, path@, vs.take(0)));
                assert(self.kind@ == UpdateKind::Announce { path: path@, vectors: vs });
                assert(kind_wf(self.kind@));
                assert forall|k: int| 0 <= k < vs.len() implies all_wf(#[trigger] vs[k].1) by {
                    assert(all_wf(self.kind@->Announce_vectors[k].1));
                }
                let mut i: usize = 0;
                while i < vectors.len()
                    invariant
                        i <= vectors@.len(),
                        vs == vectors@.map_values(|v: AnnouncementVector| v@),
                        forall|k: int| 0 <= k < vs.len() ==> all_wf(#[trigger] vs[k].1),
                        texts(out@) == vector_lines(self.asn, path@, vs.take(i as int)),
                    decreases vectors.len() - i,
                {
                    assert(vs[i as int] == vectors@[i as int]@);
                    assert(all_wf(vs[i as int].1));
                    push_announce_lines(&mut out, self.asn, path, &vectors[i].prefixes);
                    proof {
                        let t = vs.take(i + 1);
                        assert(t.drop_last() =~= vs.take(i as int));
                        assert(t.last() == vs[i as int]);
                    }
                    i = i + 1;
                }
                assert(vs.take(vs.len() as int) =~= vs);
            },
            BGPUpdateType::Withdraw { prefixes } => {
                let ghost lines = prefixes@.map_values(
                    |p: Prefix| withdraw_line_spec(self.asn, prefix_text_of(p)),
                );
                let mut i: usize = 0;
                assert(texts(out@) =~= lines.take(0));
                while i < prefixes.len()
                    invariant
                        i <= prefixes@.len(),
                        all_wf(prefixes@),
                        lines == prefixes@.map_values(
                            |p: Prefix| withdraw_line_spec(self.asn, prefix_text_of(p)),
                        ),
                        texts(out@) == lines.take(i as int),
                    decreases prefixes.len() - i,
                {
                    let text = prefix_text(&prefixes[i]);
                    let line = withdraw_line(self.asn, text.as_str());
                    let ghost prev = out@;
                    out.push(line);
                    proof {
                        assert(out@ == prev.push(line));
                        assert(texts(out@) =~= texts(prev).push(line@));
                        assert(lines.take(i + 1) =~= lines.take(i as int).push(lines[i as int]));
                    }
                    i = i + 1;
                }
                assert(lines.take(lines.len() as int) =~= lines);
            },
        }
        out
    }
}

fn all_valid(ps: &Vec<Prefix>) -> (r: bool)
    ensures
        r == all_wf(ps@),
{
    let mut i: usize = 0;
    while i < ps.len()
        invariant
            i <= ps@.len(),
            forall|j: int| 0 <= j < i ==> (#[trigger] ps@[j]).wf(),
        decreases ps.len() - i,
    {
        if !ps[i].is_valid() {
            return false;
        }
        i = i + 1;
    }
    true
}

impl BGPUpdate {
    /// Whether every prefix of the event is well formed, as `render` asks.
    pub fn is_well_formed(&self) -> (r: bool)
        ensures
            r == self.wf(),
    {
        match &self.kind {
            BGPUpdateType::Announce { path, vectors } => {
                let ghost vs = vectors@.map_values(|v: AnnouncementVector| v@);
                let mut i: usize = 0;
                while i < vectors.len()
                    invariant
                        i <= vectors@.len(),
                        vs == vectors@.map_values(|v: AnnouncementVector| v@),
                        forall|k: int| 0 <= k < i ==> all_wf(#[trigger] vs[k].1),
                        self.kind@ == (UpdateKind::Announce { path: path@, vectors: vs }),
                    decreases vectors.len() - i,
                {
                    assert(vs[i as int] == vectors@[i as int]@);
                    if !all_valid(&vectors[i].prefixes) {
                        assert(!all_wf(vs[i as int].1));
                        assert(0 <= i < vs.len());
                        assert(!kind_wf(self.kind@)) by {
                            let kv = self.kind@->Announce_vectors;
                            assert(kv == vs);
                            assert(!all_wf(kv[i as int].1));
                        }
                        return false;
                    }
                    i = i + 1;
                }
                true
            },
            BGPUpdateType::Withdraw { prefixes } => all_valid(prefixes),
        }
    }
}

} // verus!
