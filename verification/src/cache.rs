//! The record cache: an in-memory store from an address (derived from a
//! public key) to the newest known signed packet, with last-writer-wins
//! updates keyed by packet timestamp.

use vstd::prelude::*;

use crate::packet::{SignedPacket, SignedPacketView};

verus! {

/// One association of an address with the latest known packet for it.
pub struct CacheEntry {
    pub address: Vec<u8>,
    pub packet: SignedPacket,
}

/// Looks an address up in a sequence of cache entries, front to back.
pub open spec fn spec_find(entries: Seq<CacheEntry>, address: Seq<u8>) -> Option<SignedPacketView>
    decreases entries.len(),
{
    if entries.len() == 0 {
        None
    } else if entries[0].address@ == address {
        Some(entries[0].packet@)
    } else {
        spec_find(entries.drop_first(), address)
    }
}

/// The packet a last-writer-wins write leaves in place: the incoming one,
/// unless an already stored packet has an equal or newer timestamp.
pub open spec fn spec_lww(prev: Option<SignedPacketView>, packet: SignedPacketView) -> SignedPacketView {
    match prev {
        Some(stored) => if stored.timestamp >= packet.timestamp {
            stored
        } else {
            packet
        },
        None => packet,
    }
}

/// The in-memory record cache. Entries are replaced, never mutated in
/// place, and each address occurs at most once.
pub struct PkarrCache {
    pub entries: Vec<CacheEntry>,
}

impl PkarrCache {
    /// Each address occurs at most once.
    pub open spec fn wf(self) -> bool {
        forall|i: int, j: int|
            0 <= i < j < self.entries@.len() ==> self.entries@[i].address@ != self.entries@[j].address@
    }

    /// What the cache associates with `address`.
    pub open spec fn spec_get(self, address: Seq<u8>) -> Option<SignedPacketView> {
        spec_find(self.entries@, address)
    }

    pub open spec fn spec_len(self) -> nat {
        self.entries@.len()
    }

    pub fn new() -> (r: PkarrCache)
        ensures
            r.wf(),
            r.spec_len() == 0,
            forall|a: Seq<u8>| r.spec_get(a) is None,
    {
        let r = PkarrCache { entries: Vec::new() };
        proof {
            assert(forall|a: Seq<u8>| r.spec_get(a) is None);
        }
        r
    }

    pub fn len(&self) -> (r: usize)
        ensures
            r == self.spec_len(),
    {
        self.entries.len()
    }

    /// Returns the cached packet for `address`, if any.
    pub fn get(&self, address: &Vec<u8>) -> (r: Option<SignedPacket>)
        requires
            self.wf(),
        ensures
            r matches Some(p) ==> self.spec_get(address@) == Some(p@),
            r is None ==> self.spec_get(address@) is None,
    {
        let mut i: usize = 0;
        while i < self.entries.len()
            invariant
                i <= self.entries@.len(),
                forall|k: int| 0 <= k < i ==> self.entries@[k].address@ != address@,
            decreases self.entries@.len() - i,
        {
            if bytes_eq(&self.entries[i].address, address) {
                proof {
                    lemma_find_at(self.entries@, i as int, address@);
                }
                return Some(self.entries[i].packet.clone());
            }
            i += 1;
        }
        proof {
            lemma_find_absent(self.entries@, address@);
        }
        None
    }

    /// Writes `packet` under `address`, last-writer-wins by packet
    /// timestamp: if the stored packet has an equal or newer timestamp the
    /// write is discarded, so stale concurrent responses can never replace
    /// a newer record set.
    pub fn put(&mut self, address: &Vec<u8>, packet: &SignedPacket)
        requires
            old(self).wf(),
        ensures
            final(self).wf(),
            final(self).spec_get(address@) == Some(
                spec_lww(old(self).spec_get(address@), packet@),
            ),
            forall|b: Seq<u8>| b != address@ ==> final(self).spec_get(b) == old(self).spec_get(b),
    {
        let ghost orig = self.entries@;
        let mut i: usize = 0;
        while i < self.entries.len()
            invariant
                orig == old(self).entries@,
                old(self).wf(),
                self.entries@ == orig,
                i <= orig.len(),
                forall|k: int| 0 <= k < i ==> orig[k].address@ != address@,
            decreases orig.len() - i,
        {
            if bytes_eq(&self.entries[i].address, address) {
                proof {
                    lemma_find_at(orig, i as int, address@);
                }
                if self.entries[i].packet.timestamp >= packet.timestamp {
                    return ;
                }
                let fresh_entry = CacheEntry {
                    address: crate::packet::copy_bytes(address),
                    packet: packet.clone(),
                };
                self.entries.remove(i);
                self.entries.insert(i, fresh_entry);
                proof {
                    assert(self.entries@ =~= orig.update(i as int, fresh_entry));
                    lemma_find_update(orig, i as int, fresh_entry, address@);
                    assert forall|b: Seq<u8>| b != address@ implies spec_find(
                        self.entries@,
                        b,
                    ) == spec_find(orig, b) by {
                        lemma_find_update(orig, i as int, fresh_entry, b);
                    }
                }
                return ;
            }
            i += 1;
        }
        proof {
            lemma_find_absent(orig, address@);
        }
        let fresh_entry = CacheEntry {
            address: crate::packet::copy_bytes(address),
            packet: packet.clone(),
        };
        self.entries.push(fresh_entry);
        proof {
            assert(self.entries@ =~= orig.push(fresh_entry));
            lemma_find_push(orig, fresh_entry, address@);
            assert forall|b: Seq<u8>| b != address@ implies spec_find(self.entries@, b)
                == spec_find(orig, b) by {
                lemma_find_push(orig, fresh_entry, b);
            }
            assert forall|x: int, y: int|
                0 <= x < y < self.entries@.len() implies self.entries@[x].address@
                != self.entries@[y].address@ by {
                if y == orig.len() {
                    assert(self.entries@[y].address@ == address@);
                }
            }
        }
    }
}

/// Byte-vector equality, element by element.
pub fn bytes_eq(a: &Vec<u8>, b: &Vec<u8>) -> (r: bool)
    ensures
        r == (a@ == b@),
{
    if a.len() != b.len() {
        proof {
            assert(a@ != b@);
        }
        return false;
    }
    let mut i: usize = 0;
    while i < a.len()
        invariant
            a@.len() == b@.len(),
            i <= a@.len(),
            forall|k: int| 0 <= k < i ==> a@[k] == b@[k],
        decreases a@.len() - i,
    {
        if a[i] != b[i] {
            return false;
        }
        i += 1;
    }
    proof {
        assert(a@ =~= b@);
    }
    true
}

/// If the entry at `i` is the first with its address, the lookup finds it.
pub proof fn lemma_find_at(entries: Seq<CacheEntry>, i: int, address: Seq<u8>)
    requires
        0 <= i < entries.len(),
        entries[i].address@ == address,
        forall|k: int| 0 <= k < i ==> entries[k].address@ != address,
    ensures
        spec_find(entries, address) == Some(entries[i].packet@),
    decreases i,
{
    if i > 0 {
        lemma_find_at(entries.drop_first(), i - 1, address);
    }
}

/// If no entry carries the address, the lookup misses.
pub proof fn lemma_find_absent(entries: Seq<CacheEntry>, address: Seq<u8>)
    requires
        forall|k: int| 0 <= k < entries.len() ==> entries[k].address@ != address,
    ensures
        spec_find(entries, address) is None,
    decreases entries.len(),
{
    if entries.len() > 0 {
        lemma_find_absent(entries.drop_first(), address);
    }
}

/// How a lookup behaves after one entry is replaced by another with the
/// same address.
pub proof fn lemma_find_update(entries: Seq<CacheEntry>, i: int, e: CacheEntry, b: Seq<u8>)
    requires
        0 <= i < entries.len(),
        e.address@ == entries[i].address@,
        forall|x: int, y: int|
            0 <= x < y < entries.len() ==> entries[x].address@ != entries[y].address@,
    ensures
        spec_find(entries.update(i, e), b) == if b == e.address@ {
            Some(e.packet@)
        } else {
            spec_find(entries, b)
        },
    decreases i,
{
    if i == 0 {
        assert(entries.update(0, e).drop_first() =~= entries.drop_first());
        if b == e.address@ {
            assert(entries.update(0, e)[0] == e);
        }
    } else {
        assert(entries.update(i, e)[0] == entries[0]);
        assert(entries.update(i, e).drop_first() =~= entries.drop_first().update(i - 1, e));
        assert(forall|x: int, y: int|
            0 <= x < y < entries.drop_first().len() ==> entries.drop_first()[x].address@
                != entries.drop_first()[y].address@);
        lemma_find_update(entries.drop_first(), i - 1, e, b);
        if b == e.address@ {
            assert(entries[0].address@ != entries[i].address@);
        }
    }
}

/// How a lookup behaves after an entry is appended.
pub proof fn lemma_find_push(entries: Seq<CacheEntry>, e: CacheEntry, b: Seq<u8>)
    ensures
        spec_find(entries.push(e), b) == if spec_find(entries, b) is Some {
            spec_find(entries, b)
        } else if b == e.address@ {
            Some(e.packet@)
        } else {
            None
        },
    decreases entries.len(),
{
    let p = entries.push(e);
    if entries.len() == 0 {
        assert(p[0] == e);
        assert(p.drop_first() =~= Seq::<CacheEntry>::empty());
        assert(spec_find(p.drop_first(), b) is None);
        if b == e.address@ {
            assert(spec_find(p, b) == Some(e.packet@));
        } else {
            assert(spec_find(p, b) is None);
        }
    } else {
        assert(p[0] == entries[0]);
        assert(p.drop_first() =~= entries.drop_first().push(e));
        lemma_find_push(entries.drop_first(), e, b);
        assert(spec_find(p.drop_first(), b) == spec_find(entries.drop_first().push(e), b));
    }
}

/// Writing an older or equally timestamped packet after a newer one leaves
/// the newer one in place: last-writer-wins never regresses.
pub proof fn lemma_put_last_writer_wins(
    prev: Option<SignedPacketView>,
    newer: SignedPacketView,
    older: SignedPacketView,
)
    requires
        older.timestamp <= newer.timestamp,
    ensures
        spec_lww(Some(spec_lww(prev, newer)), older) == spec_lww(prev, newer),
{
}

} // verus!
