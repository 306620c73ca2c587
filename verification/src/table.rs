//! The breakpoint table.
//!
//! The table maps a target address to the byte that stood there before the
//! trap opcode was planted.  Its mathematical view is a `Map<u64, u8>`; a
//! later record for the same address supersedes an earlier one, exactly as a
//! map insert does.

use vstd::prelude::*;

verus! {

/// One installed breakpoint: the patched address and the byte that the trap
/// opcode replaced.
#[derive(Clone, Copy, PartialEq, Eq, Structural, Debug)]
pub struct BreakpointEntry {
    pub address: u64,
    pub original_byte: u8,
}

/// The address-to-original-byte map of a table's entries, later entries
/// superseding earlier ones.
pub open spec fn map_of(entries: Seq<BreakpointEntry>) -> Map<u64, u8>
    decreases entries.len(),
{
    if entries.len() == 0 {
        Map::empty()
    } else {
        map_of(entries.drop_last()).insert(entries.last().address, entries.last().original_byte)
    }
}

/// The table of installed breakpoints.
pub struct BreakpointTable {
    entries: Vec<BreakpointEntry>,
}

impl View for BreakpointTable {
    type V = Map<u64, u8>;

    closed spec fn view(&self) -> Map<u64, u8> {
        map_of(self.entries@)
    }
}

proof fn lemma_found_value(entries: Seq<BreakpointEntry>, j: int)
    requires
        0 <= j < entries.len(),
        forall|k: int| j < k < entries.len() ==> (#[trigger] entries[k]).address != entries[
            j
        ].address,
    ensures
        map_of(entries).contains_key(entries[j].address),
        map_of(entries)[entries[j].address] == entries[j].original_byte,
    decreases entries.len(),
{
    if j == entries.len() - 1 {
    } else {
        assert(entries.drop_last()[j] == entries[j]);
        lemma_found_value(entries.drop_last(), j);
    }
}

proof fn lemma_not_found(entries: Seq<BreakpointEntry>, a: u64)
    requires
        forall|k: int| 0 <= k < entries.len() ==> (#[trigger] entries[k]).address != a,
    ensures
        !map_of(entries).contains_key(a),
    decreases entries.len(),
{
    if entries.len() > 0 {
        lemma_not_found(entries.drop_last(), a);
    }
}

impl BreakpointTable {
    /// A fresh table with no breakpoints.
    pub fn new() -> (r: BreakpointTable)
        ensures
            r@ == Map::<u64, u8>::empty(),
    {
        let r = BreakpointTable { entries: Vec::new() };
        proof {
            assert(r@ =~= Map::<u64, u8>::empty());
        }
        r
    }

    /// The recorded original byte at `a`, if a breakpoint stands there.
    pub fn lookup(&self, a: u64) -> (r: Option<u8>)
        ensures
            match r {
                Some(b) => self@.contains_key(a) && self@[a] == b,
                None => !self@.contains_key(a),
            },
    {
        let mut k: usize = self.entries.len();
        while k > 0
            invariant
                k <= self.entries@.len(),
                forall|q: int|
                    k <= q < self.entries@.len() ==> (#[trigger] self.entries@[q]).address != a,
            decreases k,
        {
            k = k - 1;
            if self.entries[k].address == a {
                proof {
                    lemma_found_value(self.entries@, k as int);
                }
                return Some(self.entries[k].original_byte);
            }
        }
        proof {
            lemma_not_found(self.entries@, a);
        }
        None
    }

    /// Whether a breakpoint is installed at `a`.
    pub fn contains(&self, a: u64) -> (r: bool)
        ensures
            r == self@.contains_key(a),
    {
        match self.lookup(a) {
            Some(_) => true,
            None => false,
        }
    }

    /// Records that the byte `b` stood at `a` before patching; an earlier
    /// record for `a` is superseded.
    pub fn record(&mut self, a: u64, b: u8)
        ensures
            final(self)@ == old(self)@.insert(a, b),
    {
        let ghost pre = self.entries@;
        self.entries.push(BreakpointEntry { address: a, original_byte: b });
        proof {
            assert(self.entries@.drop_last() =~= pre);
        }
    }

    /// Removes the breakpoint at `a`, if any.
    pub fn remove(&mut self, a: u64)
        ensures
            final(self)@ == old(self)@.remove(a),
    {
        let n = self.entries.len();
        let mut kept: Vec<BreakpointEntry> = Vec::new();
        let mut k: usize = 0;
        while k < n
            invariant
                k <= n,
                n == self.entries@.len(),
                map_of(kept@) == map_of(self.entries@.subrange(0, k as int)).remove(a),
            decreases n - k,
        {
            let e = self.entries[k];
            proof {
                assert(self.entries@.subrange(0, k + 1 as int).drop_last() =~= self
                    .entries@
                    .subrange(0, k as int));
                assert(self.entries@.subrange(0, k + 1 as int).last() == self.entries@[k as int]);
            }
            if e.address != a {
                let ghost pre = kept@;
                kept.push(e);
                proof {
                    assert(kept@.drop_last() =~= pre);
                    assert(map_of(kept@) =~= map_of(
                        self.entries@.subrange(0, k + 1 as int),
                    ).remove(a));
                }
            } else {
                proof {
                    assert(map_of(kept@) =~= map_of(
                        self.entries@.subrange(0, k + 1 as int),
                    ).remove(a));
                }
            }
            k = k + 1;
        }
        proof {
            assert(self.entries@.subrange(0, n as int) =~= self.entries@);
        }
        self.entries = kept;
    }
}

/// A hit breakpoint is one-shot: once the entry for `a` is removed, a second
/// trap at `a` no longer resolves against the table, so the engine reports
/// it as an unknown trap rather than as a hit.
pub proof fn lemma_hit_is_one_shot(m: Map<u64, u8>, a: u64)
    ensures
        !m.remove(a).contains_key(a),
{
}

} // verus!
