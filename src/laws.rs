use crate::net::{IpAddress, Prefix, prefix_text_of};
use crate::parse::{RISMessage, RISMessageType};
use crate::render::{decimal, pad_right, path_text};
use crate::net::ip_of;
use crate::parse::{asn_of, AnnouncementEntry};
use crate::{
    derive_spec, entry_fault, first_entry_fault, parsed_prefixes, render_spec, vector_lines,
    DeriveFault, UpdateKind,
};
use vstd::prelude::*;

verus! {

/// A message that derives without error and has an AS path with at least
/// one entry yields exactly one announcement, the first event, whose path
/// is the path as received and which has one vector per entry.
pub proof fn lemma_one_announcement(m: RISMessage)
    requires
        derive_spec(m) is Ok,
        m.ty->UPDATE_announce.path is Some,
        m.ty->UPDATE_announce.announcements is Some,
        m.ty->UPDATE_announce.announcements->0@.len() > 0,
    ensures
        ({
            let evs = derive_spec(m)->Ok_0;
            let a = m.ty->UPDATE_announce;
            &&& evs.len() >= 1
            &&& evs[0].1 is Announce
            &&& forall|i: int| 1 <= i < evs.len() ==> !(#[trigger] evs[i].1 is Announce)
            &&& evs[0].1->Announce_path == a.path->0@
            &&& evs[0].1->Announce_vectors.len() == a.announcements->0@.len()
        }),
{
}

/// A message that derives without error and has a withdrawal list yields
/// exactly one withdrawal, the last event, with one prefix per listed text,
/// in the same order and with repeats kept.
pub proof fn lemma_one_withdrawal(m: RISMessage)
    requires
        derive_spec(m) is Ok,
        m.ty->UPDATE_withdrawals is Some,
    ensures
        ({
            let evs = derive_spec(m)->Ok_0;
            let w = m.ty->UPDATE_withdrawals->0@;
            &&& evs.len() >= 1
            &&& evs.last().1 is Withdraw
            &&& forall|i: int| 0 <= i < evs.len() - 1 ==> !(#[trigger] evs[i].1 is Withdraw)
            &&& evs.last().1->Withdraw_prefixes.len() == w.len()
            &&& evs.last().1->Withdraw_prefixes == parsed_prefixes(w)
        }),
{
}

/// Without an AS path, a community, an origin or announcements make the
/// message inconsistent.
pub proof fn lemma_inconsistent_without_path(m: RISMessage)
    requires
        m.ty->UPDATE_announce.path is None,
        m.ty->UPDATE_announce.community is Some || m.ty->UPDATE_announce.origin is Some
            || m.ty->UPDATE_announce.announcements is Some,
    ensures
        derive_spec(m) == Err::<Seq<(u32, UpdateKind)>, DeriveFault>(
            DeriveFault::InconsistentAnnouncement,
        ),
{
}

/// An announcement from AS 65000 along the path 65001 65002 of two
/// prefixes through one next hop renders as two lines that differ only in
/// the prefix column.
pub proof fn lemma_render_two_prefixes(nh: IpAddress, p1: Prefix, p2: Prefix)
    ensures
        ({
            let lines = render_spec(
                (
                    65000u32,
                    UpdateKind::Announce {
                        path: seq![65001u32, 65002u32],
                        vectors: seq![(nh, seq![p1, p2])],
                    },
                ),
            );
            &&& lines.len() == 2
            &&& lines[0] == " 65000|A "@ + pad_right(prefix_text_of(p1), 20) + "|65001  65002 "@
            &&& lines[1] == " 65000|A "@ + pad_right(prefix_text_of(p2), 20) + "|65001  65002 "@
        }),
{
    reveal_strlit(" 65000|A ");
    reveal_strlit("|65001  65002 ");
    reveal_with_fuel(decimal, 6);
    let path = seq![65001u32, 65002u32];
    let vs = seq![(nh, seq![p1, p2])];
    assert(vs.drop_last() =~= seq![]);
    assert(vector_lines(65000, path, vs.drop_last()) =~= seq![]);
    assert(path.drop_last() =~= seq![65001u32]);
    assert(decimal(65000) =~= seq!['6', '5', '0', '0', '0']);
    assert(decimal(65001) =~= seq!['6', '5', '0', '0', '1']);
    assert(decimal(65002) =~= seq!['6', '5', '0', '0', '2']);
    assert(path_text(seq![65001u32]) =~= seq!['6', '5', '0', '0', '1', ' ']);
    assert(path_text(path) =~= seq![
        '6',
        '5',
        '0',
        '0',
        '1',
        ' ',
        ' ',
        '6',
        '5',
        '0',
        '0',
        '2',
        ' ',
    ]);
    let lines = render_spec((65000u32, UpdateKind::Announce { path, vectors: vs }));
    assert(lines[0] =~= " 65000|A "@ + pad_right(prefix_text_of(p1), 20) + "|65001  65002 "@);
    assert(lines[1] =~= " 65000|A "@ + pad_right(prefix_text_of(p2), 20) + "|65001  65002 "@);
}

/// An entry with a fault makes the search for the first faulty entry find
/// one.
pub proof fn lemma_entry_fault_found(es: Seq<AnnouncementEntry>, k: int)
    requires
        0 <= k < es.len(),
        entry_fault(es[k]) is Some,
    ensures
        first_entry_fault(es) is Some,
    decreases es.len(),
{
    if entry_fault(es[0]) is None {
        assert(es.drop_first()[k - 1] == es[k]);
        lemma_entry_fault_found(es.drop_first(), k - 1);
    }
}

/// A next hop that is not an address, in a message with a path and a
/// decimal peer AS number, makes the derivation fail with an invalid
/// address rather than skip the entry.
pub proof fn lemma_bad_next_hop_rejected(m: RISMessage, k: int)
    requires
        asn_of(m.peer_asn@) is Some,
        m.ty->UPDATE_announce.path is Some,
        m.ty->UPDATE_announce.announcements is Some,
        0 <= k < m.ty->UPDATE_announce.announcements->0@.len(),
        ip_of(m.ty->UPDATE_announce.announcements->0@[k].next_hop@) is None,
    ensures
        derive_spec(m) matches Err(DeriveFault::InvalidAddress(_, _)),
{
    lemma_entry_fault_found(m.ty->UPDATE_announce.announcements->0@, k);
}

} // verus!
