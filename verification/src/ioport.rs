//! Addressable 8-bit I/O latches.
//!
//! An [`IoPort`] is a single latch.  The CPU keeps a sparse collection of
//! live ports; [`ports_map`] abstracts such a collection, ordered however it
//! may be, into a map from port address to latch contents.

use vstd::prelude::*;

verus! {

/// One addressable 8-bit latch.
#[derive(Clone, Copy, PartialEq, Eq, Structural, Debug)]
pub struct IoPort {
    pub addr: u8,
    pub data: u8,
}

impl IoPort {
    /// Creates a zero-initialized latch at `addr`.
    pub fn new(addr: u8) -> (r: IoPort)
        ensures
            r.addr == addr,
            r.data == 0,
    {
        IoPort { addr, data: 0 }
    }

    /// The current latch contents.
    pub fn read(&self) -> (r: u8)
        ensures
            r == self.data,
    {
        self.data
    }

    /// Replaces the latch contents.
    pub fn write(&mut self, data: u8)
        ensures
            final(self).addr == old(self).addr,
            final(self).data == data,
    {
        self.data = data;
    }

    /// The address the latch answers to.
    pub fn get_addr(&self) -> (r: u8)
        ensures
            r == self.addr,
    {
        self.addr
    }
}

/// No two latches in `s` share an address.
pub open spec fn ports_unique(s: Seq<IoPort>) -> bool {
    forall|i: int, j: int| 0 <= i < j < s.len() ==> s[i].addr != s[j].addr
}

/// The map from port address to latch contents that `s` represents.
pub open spec fn ports_map(s: Seq<IoPort>) -> Map<u8, u8>
    decreases s.len(),
{
    if s.len() == 0 {
        Map::empty()
    } else {
        ports_map(s.drop_last()).insert(s.last().addr, s.last().data)
    }
}

/// An address is in the map exactly when some latch carries it, and the
/// map then holds that latch's contents (addresses must be unique, else
/// a later duplicate shadows an earlier one).
pub proof fn lemma_ports_map_index(s: Seq<IoPort>, i: int)
    requires
        ports_unique(s),
        0 <= i < s.len(),
    ensures
        ports_map(s).contains_key(s[i].addr),
        ports_map(s)[s[i].addr] == s[i].data,
    decreases s.len(),
{
    if i == s.len() - 1 {
    } else {
        lemma_ports_map_index(s.drop_last(), i);
    }
}

/// An address carried by no latch is absent from the map.
pub proof fn lemma_ports_map_absent(s: Seq<IoPort>, a: u8)
    requires
        forall|i: int| 0 <= i < s.len() ==> s[i].addr != a,
    ensures
        !ports_map(s).contains_key(a),
    decreases s.len(),
{
    if s.len() > 0 {
        lemma_ports_map_absent(s.drop_last(), a);
    }
}

/// Appending a latch with a fresh address inserts it into the map.
pub proof fn lemma_ports_map_push(s: Seq<IoPort>, p: IoPort)
    ensures
        ports_map(s.push(p)) == ports_map(s).insert(p.addr, p.data),
{
    assert(s.push(p).drop_last() =~= s);
}

/// Overwriting the latch at index `i` with one at the same address
/// updates just that address in the map.
pub proof fn lemma_ports_map_update(s: Seq<IoPort>, i: int, p: IoPort)
    requires
        ports_unique(s),
        0 <= i < s.len(),
        s[i].addr == p.addr,
    ensures
        ports_map(s.update(i, p)) == ports_map(s).insert(p.addr, p.data),
    decreases s.len(),
{
    if i == s.len() - 1 {
        assert(s.update(i, p).drop_last() =~= s.drop_last());
        assert(ports_map(s.update(i, p)) =~= ports_map(s).insert(p.addr, p.data));
    } else {
        lemma_ports_map_update(s.drop_last(), i, p);
        assert(s.update(i, p).drop_last() =~= s.drop_last().update(i, p));
        assert(s.update(i, p).last() == s.last());
        assert(s.last().addr != p.addr);
        assert(ports_map(s.update(i, p)) =~= ports_map(s).insert(p.addr, p.data));
    }
}

/// Removing the latch at index `i` removes exactly its address from the map.
pub proof fn lemma_ports_map_remove(s: Seq<IoPort>, i: int)
    requires
        ports_unique(s),
        0 <= i < s.len(),
    ensures
        ports_map(s.remove(i)) == ports_map(s).remove(s[i].addr),
    decreases s.len(),
{
    if i == s.len() - 1 {
        assert(s.remove(i) =~= s.drop_last());
        lemma_ports_map_absent_tail(s.drop_last(), s[i].addr);
        assert(ports_map(s.drop_last()) =~= ports_map(s).remove(s[i].addr));
    } else {
        lemma_ports_map_remove(s.drop_last(), i);
        assert(s.remove(i).drop_last() =~= s.drop_last().remove(i));
        assert(s.remove(i).last() == s.last());
        assert(ports_map(s.remove(i)) =~= ports_map(s).remove(s[i].addr));
    }
}

proof fn lemma_ports_map_absent_tail(s: Seq<IoPort>, a: u8)
    requires
        forall|i: int| 0 <= i < s.len() ==> s[i].addr != a,
    ensures
        ports_map(s).remove(a) =~= ports_map(s),
{
    lemma_ports_map_absent(s, a);
}

} // verus!
