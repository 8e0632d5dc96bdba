//! The peer-presence table: which peers the relay has announced, by public
//! key, and when each was last seen.

use vstd::prelude::*;
use vstd::string::StringExecFns;
use crate::bytes::{bytes_equal, copy_range};
use crate::error::{DerpError, DerpResult};

verus! {

/// Length of a peer's public key.
pub const PEER_KEY_LEN: usize = 32;

/// One peer: its public key and when it was last seen, in milliseconds.
pub struct PeerInfo {
    pub last_seen_ms: u64,
    pub public_key: Vec<u8>,
}

/// The mapping that a list of entries stands for; a later entry for a key
/// replaces an earlier one.
pub open spec fn table_of(entries: Seq<PeerInfo>) -> Map<Seq<u8>, u64>
    decreases entries.len(),
{
    if entries.len() == 0 {
        Map::empty()
    } else {
        table_of(entries.drop_last()).insert(
            entries.last().public_key@,
            entries.last().last_seen_ms,
        )
    }
}

/// No two entries have the same key.
pub open spec fn distinct_keys(entries: Seq<PeerInfo>) -> bool {
    forall|i: int, j: int|
        0 <= i < j < entries.len() ==> (#[trigger] entries[i]).public_key@ != (
        #[trigger] entries[j]).public_key@
}

/// Every key has the length of a public key.
pub open spec fn full_keys(entries: Seq<PeerInfo>) -> bool {
    forall|i: int|
        0 <= i < entries.len() ==> (#[trigger] entries[i]).public_key@.len() == PEER_KEY_LEN
}

/// The peer table. Its view is the mapping from public key to the time the
/// peer was last seen.
pub struct PeerTable {
    entries: Vec<PeerInfo>,
}

impl View for PeerTable {
    type V = Map<Seq<u8>, u64>;

    closed spec fn view(&self) -> Map<Seq<u8>, u64> {
        table_of(self.entries@)
    }
}

impl PeerTable {
    #[verifier::type_invariant]
    spec fn well_formed(self) -> bool {
        distinct_keys(self.entries@) && full_keys(self.entries@)
    }

    /// An empty table.
    pub fn new() -> (made: PeerTable)
        ensures
            made@ == Map::<Seq<u8>, u64>::empty(),
    {
        PeerTable { entries: Vec::new() }
    }

    /// When the peer with this key was last seen, if it is present.
    pub fn last_seen(&self, key: &[u8]) -> (seen: Option<u64>)
        ensures
            seen == if self@.contains_key(key@) {
                Some(self@[key@])
            } else {
                None
            },
    {
        let mut i: usize = self.entries.len();
        assert(self.entries@.subrange(0, i as int) =~= self.entries@);
        while i > 0
            invariant
                i <= self.entries@.len(),
                table_of(self.entries@).contains_key(key@) == table_of(
                    self.entries@.subrange(0, i as int),
                ).contains_key(key@),
                table_of(self.entries@).contains_key(key@) ==> table_of(self.entries@)[key@]
                    == table_of(self.entries@.subrange(0, i as int))[key@],
            decreases i,
        {
            let ghost prefix = self.entries@.subrange(0, i as int);
            assert(prefix.drop_last() =~= self.entries@.subrange(0, i - 1));
            assert(prefix.last() == self.entries@[i - 1]);
            i -= 1;
            if bytes_equal(self.entries[i].public_key.as_slice(), key) {
                return Some(self.entries[i].last_seen_ms);
            }
        }
        assert(self.entries@.subrange(0, 0) =~= Seq::<PeerInfo>::empty());
        None
    }

    /// The entries whose key is not `key`, in their order.
    fn without(&self, key: &[u8]) -> (out: Vec<PeerInfo>)
        ensures
            table_of(out@) == table_of(self.entries@).remove(key@),
            distinct_keys(out@),
            full_keys(out@),
            forall|j: int| 0 <= j < out@.len() ==> (#[trigger] out@[j]).public_key@ != key@,
    {
        proof {
            use_type_invariant(self);
        }
        let mut out: Vec<PeerInfo> = Vec::new();
        let ghost mut source: Seq<int> = Seq::empty();
        let mut i: usize = 0;
        assert(self.entries@.subrange(0, 0) =~= Seq::<PeerInfo>::empty());
        assert(table_of(out@) =~= table_of(self.entries@.subrange(0, 0)).remove(key@));
        while i < self.entries.len()
            invariant
                i <= self.entries@.len(),
                distinct_keys(self.entries@),
                full_keys(self.entries@),
                source.len() == out@.len(),
                forall|j: int|
                    0 <= j < out@.len() ==> 0 <= #[trigger] source[j] < i && out@[j].public_key@
                        == self.entries@[source[j]].public_key@,
                table_of(out@) == table_of(self.entries@.subrange(0, i as int)).remove(key@),
                distinct_keys(out@),
                full_keys(out@),
                forall|j: int| 0 <= j < out@.len() ==> (#[trigger] out@[j]).public_key@ != key@,
            decreases self.entries@.len() - i,
        {
            let ghost before = self.entries@.subrange(0, i as int);
            let ghost after = self.entries@.subrange(0, i + 1);
            assert(after.drop_last() =~= before);
            assert(after.last() == self.entries@[i as int]);
            let entry = &self.entries[i];
            if bytes_equal(entry.public_key.as_slice(), key) {
                assert(table_of(after).remove(key@) =~= table_of(before).remove(key@));
            } else {
                let copy = PeerInfo {
                    last_seen_ms: entry.last_seen_ms,
                    public_key: copy_range(entry.public_key.as_slice(), 0, entry.public_key.len()),
                };
                assert(copy.public_key@ =~= entry.public_key@);
                let ghost kept = out@;
                out.push(copy);
                proof {
                    source = source.push(i as int);
                    assert(out@.drop_last() =~= kept);
                    assert(table_of(out@) =~= table_of(after).remove(key@));
                    assert forall|a: int, b: int| 0 <= a < b < out@.len() implies (
                    #[trigger] out@[a]).public_key@ != (#[trigger] out@[b]).public_key@ by {
                        if b == out@.len() - 1 {
                            assert(out@[a] == kept[a]);
                            assert(kept[a].public_key@ == self.entries@[source[a]].public_key@);
                        } else {
                            assert(out@[a] == kept[a]);
                            assert(out@[b] == kept[b]);
                        }
                    }
                }
            }
            i += 1;
        }
        assert(self.entries@.subrange(0, i as int) =~= self.entries@);
        out
    }

    /// Notes that a peer is present and was seen at `now_ms`. A key that is
    /// not 32 bytes long is a protocol error and changes nothing.
    pub fn mark_present(&mut self, key: &[u8], now_ms: u64) -> (out: DerpResult<()>)
        ensures
            match out {
                Ok(_) => key@.len() == PEER_KEY_LEN && final(self)@ == old(self)@.insert(
                    key@,
                    now_ms,
                ),
                Err(e) => key@.len() != PEER_KEY_LEN && final(self)@ == old(self)@
                    && e is InvalidProtocol,
            },
    {
        if key.len() != PEER_KEY_LEN {
            return Err(DerpError::InvalidProtocol(String::from_str("Invalid peer key length")));
        }
        let mut entries = self.without(key);
        let ghost kept = entries@;
        let entry = PeerInfo { last_seen_ms: now_ms, public_key: copy_range(key, 0, key.len()) };
        assert(entry.public_key@ =~= key@);
        entries.push(entry);
        proof {
            assert(entries@.drop_last() =~= kept);
            assert(table_of(entries@) =~= old(self)@.insert(key@, now_ms));
            assert forall|a: int, b: int| 0 <= a < b < entries@.len() implies (
            #[trigger] entries@[a]).public_key@ != (#[trigger] entries@[b]).public_key@ by {
                assert(entries@[a] == kept[a]);
                if b < entries@.len() - 1 {
                    assert(entries@[b] == kept[b]);
                }
            }
            assert forall|a: int| 0 <= a < entries@.len() implies (
            #[trigger] entries@[a]).public_key@.len() == PEER_KEY_LEN by {
                if a < entries@.len() - 1 {
                    assert(entries@[a] == kept[a]);
                }
            }
        }
        self.entries = entries;
        Ok(())
    }

    /// Notes that a peer is gone. A key that is not 32 bytes long is a
    /// protocol error and changes nothing.
    pub fn mark_gone(&mut self, key: &[u8]) -> (out: DerpResult<()>)
        ensures
            match out {
                Ok(_) => key@.len() == PEER_KEY_LEN && final(self)@ == old(self)@.remove(key@),
                Err(e) => key@.len() != PEER_KEY_LEN && final(self)@ == old(self)@
                    && e is InvalidProtocol,
            },
    {
        if key.len() != PEER_KEY_LEN {
            return Err(DerpError::InvalidProtocol(String::from_str("Invalid peer key length")));
        }
        let entries = self.without(key);
        self.entries = entries;
        Ok(())
    }

    /// How many peers are present.
    pub fn len(&self) -> (count: usize)
        ensures
            self@.dom().finite(),
            count == self@.dom().len(),
    {
        proof {
            use_type_invariant(self);
            lemma_table_size(self.entries@);
        }
        self.entries.len()
    }
}

/// A key that no entry has is not in the mapping.
pub proof fn lemma_absent_key(entries: Seq<PeerInfo>, key: Seq<u8>)
    requires
        forall|i: int| 0 <= i < entries.len() ==> (#[trigger] entries[i]).public_key@ != key,
    ensures
        !table_of(entries).contains_key(key),
    decreases entries.len(),
{
    if entries.len() > 0 {
        let prefix = entries.drop_last();
        assert forall|i: int| 0 <= i < prefix.len() implies (#[trigger] prefix[i]).public_key@
            != key by {
            assert(prefix[i] == entries[i]);
        }
        lemma_absent_key(prefix, key);
        assert(entries.last() == entries[entries.len() - 1]);
    }
}

/// Entries with distinct keys stand for a mapping with as many keys.
pub proof fn lemma_table_size(entries: Seq<PeerInfo>)
    requires
        distinct_keys(entries),
    ensures
        table_of(entries).dom().finite(),
        table_of(entries).dom().len() == entries.len(),
    decreases entries.len(),
{
    if entries.len() > 0 {
        let prefix = entries.drop_last();
        let last = entries.last();
        assert(last == entries[entries.len() - 1]);
        assert forall|i: int, j: int| 0 <= i < j < prefix.len() implies (
        #[trigger] prefix[i]).public_key@ != (#[trigger] prefix[j]).public_key@ by {
            assert(prefix[i] == entries[i]);
            assert(prefix[j] == entries[j]);
        }
        lemma_table_size(prefix);
        assert forall|i: int| 0 <= i < prefix.len() implies (#[trigger] prefix[i]).public_key@
            != last.public_key@ by {
            assert(prefix[i] == entries[i]);
        }
        lemma_absent_key(prefix, last.public_key@);
        assert(table_of(entries).dom() =~= table_of(prefix).dom().insert(last.public_key@));
    } else {
        assert(table_of(entries).dom() =~= Set::<Seq<u8>>::empty());
    }
}

} // verus!
